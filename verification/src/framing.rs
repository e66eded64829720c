//! Content-Length framing.
//!
//! The LSP transport is: `Content-Length: <N>\r\n\r\n<N bytes of UTF-8 JSON>`.
//! A reader hands each header line to [`header_line`] until it learns the length
//! of the body; [`read_frame`] does the same on bytes that are already there.

use vstd::prelude::*;

use crate::text;
use crate::text::{concat3, decimal_text, parse_decimal, strip_prefix, trim, trim_newlines};

verus! {

/// Why a frame could not be read.
#[derive(Debug, Clone, Copy, PartialEq, Eq)]
pub enum FrameError {
    /// The input ended among the headers.
    Closed,
    /// A header line is not UTF-8.
    NotText,
    /// The value of `Content-Length` is not a number.
    BadLength,
    /// The headers ended without a `Content-Length`.
    NoLength,
    /// The input ended in the body.
    ShortBody,
}

impl FrameError {
    pub open spec fn message(self) -> Seq<char> {
        match self {
            FrameError::Closed => "connection closed while reading headers"@,
            FrameError::NotText => "reading header line"@,
            FrameError::BadLength => "parsing Content-Length value"@,
            FrameError::NoLength => "no Content-Length header found"@,
            FrameError::ShortBody => "reading message body"@,
        }
    }

    /// Says in words what went wrong, or what was being done.
    pub fn description(&self) -> (r: &'static str)
        ensures
            r@ == self.message(),
    {
        match self {
            FrameError::Closed => "connection closed while reading headers",
            FrameError::NotText => "reading header line",
            FrameError::BadLength => "parsing Content-Length value",
            FrameError::NoLength => "no Content-Length header found",
            FrameError::ShortBody => "reading message body",
        }
    }
}

/// What a header line leads to.
#[derive(Debug, Clone, Copy, PartialEq, Eq)]
pub enum HeaderStep {
    /// More headers follow; the value is the length of the body, if it is known yet.
    More(Option<usize>),
    /// The headers are complete; the body has this many bytes.
    Body(usize),
    /// The headers are broken.
    Failed(FrameError),
}

// ── Model ───────────────────────────────────────────────────────────────────

/// What a header line means, where `length` is what earlier lines said.
///
/// An empty line ends the headers. `Content-Length` gives the length of the body,
/// the last one counting; any other header is ignored.
pub open spec fn text_step(length: Option<usize>, line: Seq<char>) -> HeaderStep {
    let content = text::trim_line_end(line);
    if content.len() == 0 {
        match length {
            Some(n) => HeaderStep::Body(n),
            None => HeaderStep::Failed(FrameError::NoLength),
        }
    } else {
        match text::after_prefix(content, "Content-Length:"@) {
            Some(rest) => match text::parsed_decimal(text::trimmed(rest), usize::MAX as nat) {
                Some(n) => HeaderStep::More(Some(n as usize)),
                None => HeaderStep::Failed(FrameError::BadLength),
            },
            None => HeaderStep::More(length),
        }
    }
}

/// What the bytes of a header line mean; there are none when the input has ended.
pub open spec fn header_step(length: Option<usize>, line: Seq<u8>) -> HeaderStep {
    if line.len() == 0 {
        HeaderStep::Failed(FrameError::Closed)
    } else if !vstd::utf8::valid_utf8(line) {
        HeaderStep::Failed(FrameError::NotText)
    } else {
        text_step(length, vstd::utf8::decode_utf8(line))
    }
}

/// The length of the first line of `input`, its line feed included.
pub open spec fn line_length(input: Seq<u8>) -> int
    decreases input.len(),
{
    if input.len() == 0 {
        0
    } else if input[0] == 10 {
        1
    } else {
        1 + line_length(input.skip(1))
    }
}

/// The length of the headers at the start of `input`, and that of the body after them.
pub open spec fn read_headers(input: Seq<u8>, length: Option<usize>) -> Result<
    (int, usize),
    FrameError,
>
    decreases input.len(),
{
    let n = line_length(input);
    if input.len() == 0 {
        Err(FrameError::Closed)
    } else {
        proof {
            lemma_line_length(input);
        }
        match header_step(length, input.take(n)) {
            HeaderStep::Body(len) => Ok((n, len)),
            HeaderStep::Failed(error) => Err(error),
            HeaderStep::More(length) => match read_headers(input.skip(n), length) {
                Ok((rest, len)) => Ok((n + rest, len)),
                Err(error) => Err(error),
            },
        }
    }
}

/// The body of the first frame in `input`, and what follows the frame.
pub open spec fn first_frame(input: Seq<u8>) -> Result<(Seq<u8>, Seq<u8>), FrameError> {
    match read_headers(input, None) {
        Ok((start, len)) => if start + len <= input.len() {
            Ok((input.subrange(start, start + len), input.skip(start + len)))
        } else {
            Err(FrameError::ShortBody)
        },
        Err(error) => Err(error),
    }
}

/// The header of a frame whose body has `len` bytes.
pub open spec fn frame_header(len: nat) -> Seq<char> {
    "Content-Length: "@ + text::decimal(len) + "\r\n\r\n"@
}

/// A frame around `body`.
pub open spec fn framed(body: Seq<u8>) -> Seq<u8> {
    vstd::utf8::encode_utf8(frame_header(body.len())) + body
}

// ── Reading ─────────────────────────────────────────────────────────────────

/// Calls `std::str::from_utf8`: the text that the bytes encode in UTF-8, or
/// nothing when they are not valid UTF-8.
#[verifier::external_body]
fn utf8_text(bytes: &[u8]) -> (r: Option<&str>)
    ensures
        match r {
            Some(decoded) => vstd::utf8::valid_utf8(bytes@) && decoded@ == vstd::utf8::decode_utf8(
                bytes@,
            ),
            None => !vstd::utf8::valid_utf8(bytes@),
        },
{
    std::str::from_utf8(bytes).ok()
}

/// Take in one header line, its line feed included.
///
/// `length` is what the earlier lines of the frame gave; it is `None` for the
/// first. An empty `line` says that the input has ended.
pub fn header_line(length: Option<usize>, line: &[u8]) -> (r: HeaderStep)
    ensures
        r == header_step(length, line@),
{
    if line.len() == 0 {
        return HeaderStep::Failed(FrameError::Closed);
    }
    let content = match utf8_text(line) {
        Some(decoded) => trim_newlines(decoded),
        None => return HeaderStep::Failed(FrameError::NotText),
    };
    if content.is_empty() {
        return match length {
            Some(n) => HeaderStep::Body(n),
            None => HeaderStep::Failed(FrameError::NoLength),
        };
    }
    match strip_prefix(content, "Content-Length:") {
        Some(rest) => match parse_decimal(trim(rest)) {
            Some(n) => HeaderStep::More(Some(n)),
            None => HeaderStep::Failed(FrameError::BadLength),
        },
        // Other headers, such as Content-Type, are ignored.
        None => HeaderStep::More(length),
    }
}

pub proof fn lemma_line_length(input: Seq<u8>)
    ensures
        0 <= line_length(input) <= input.len(),
        input.len() > 0 ==> line_length(input) > 0,
    decreases input.len(),
{
    if input.len() > 0 {
        lemma_line_length(input.skip(1));
    }
}

proof fn lemma_line_length_at(input: Seq<u8>, n: int)
    requires
        0 <= n <= input.len(),
        forall|i: int| 0 <= i < n ==> input[i] != 10,
    ensures
        n == input.len() ==> line_length(input) == n,
        n < input.len() && input[n] == 10 ==> line_length(input) == n + 1,
    decreases input.len(),
{
    if n > 0 {
        let rest = input.skip(1);
        assert forall|i: int| 0 <= i < n - 1 implies rest[i] != 10 by {
            assert(rest[i] == input[i + 1]);
        }
        lemma_line_length_at(rest, n - 1);
        if n < input.len() {
            assert(rest[n - 1] == input[n]);
        }
    }
}

fn line_end(input: &[u8], start: usize) -> (r: usize)
    requires
        start <= input@.len(),
    ensures
        r == start + line_length(input@.skip(start as int)),
        r <= input@.len(),
{
    let ghost rest = input@.skip(start as int);
    let mut end: usize = start;
    while end < input.len() && input[end] != 10
        invariant
            start <= end <= input@.len(),
            rest == input@.skip(start as int),
            forall|i: int| 0 <= i < end - start ==> rest[i] != 10,
        decreases input@.len() - end,
    {
        end += 1;
    }
    proof {
        lemma_line_length_at(rest, end - start);
    }
    if end < input.len() {
        assert(rest[end - start] == 10);
        end + 1
    } else {
        end
    }
}

/// Find the first frame in `input`: the positions at which its body starts and ends.
///
/// Expects `Content-Length: <N>\r\n` optionally followed by other headers, then
/// `\r\n`, then exactly N bytes of body.
pub fn read_frame(input: &[u8]) -> (r: Result<(usize, usize), FrameError>)
    ensures
        match r {
            Ok((start, end)) => start <= end <= input@.len() && first_frame(input@) == Ok::<
                (Seq<u8>, Seq<u8>),
                FrameError,
            >((input@.subrange(start as int, end as int), input@.skip(end as int))),
            Err(error) => first_frame(input@) == Err::<(Seq<u8>, Seq<u8>), FrameError>(error),
        },
{
    let mut start: usize = 0;
    let mut length: Option<usize> = None;
    assert(input@.skip(0) =~= input@);
    loop
        invariant
            start <= input@.len(),
            match read_headers(input@.skip(start as int), length) {
                Ok((rest, len)) => read_headers(input@, None) == Ok::<(int, usize), FrameError>(
                    (start + rest, len),
                ),
                Err(error) => read_headers(input@, None) == Err::<(int, usize), FrameError>(error),
            },
        decreases input@.len() - start,
    {
        let ghost rest = input@.skip(start as int);
        let end = line_end(input, start);
        proof {
            lemma_line_length(rest);
            assert(input@.subrange(start as int, end as int) =~= rest.take(end - start));
        }
        match header_line(length, &input[start..end]) {
            HeaderStep::More(next) => {
                assert(rest.skip(end - start) =~= input@.skip(end as int));
                length = next;
                start = end;
            },
            HeaderStep::Failed(error) => return Err(error),
            HeaderStep::Body(len) => {
                if len > input.len() - end {
                    return Err(FrameError::ShortBody);
                }
                return Ok((end, end + len));
            },
        }
    }
}

// ── Writing ─────────────────────────────────────────────────────────────────

/// Put a frame around `body`.
pub fn write_frame(body: &[u8]) -> (r: Vec<u8>)
    ensures
        r@ == framed(body@),
{
    let length = decimal_text(body.len() as u64);
    let header = concat3("Content-Length: ", length.as_str(), "\r\n\r\n");
    let head = header.as_str().as_bytes();
    let mut frame: Vec<u8> = Vec::new();
    let mut i: usize = 0;
    while i < head.len()
        invariant
            i <= head@.len(),
            frame@ == head@.take(i as int),
        decreases head@.len() - i,
    {
        frame.push(head[i]);
        assert(head@.take(i + 1) =~= head@.take(i as int).push(head@[i as int]));
        i += 1;
    }
    assert(head@.take(i as int) =~= head@);
    let mut j: usize = 0;
    while j < body.len()
        invariant
            j <= body@.len(),
            frame@ == head@ + body@.take(j as int),
        decreases body@.len() - j,
    {
        frame.push(body[j]);
        assert(body@.take(j + 1) =~= body@.take(j as int).push(body@[j as int]));
        assert(frame@ =~= head@ + body@.take(j + 1));
        j += 1;
    }
    assert(body@.take(j as int) =~= body@);
    frame
}

// ── Laws ────────────────────────────────────────────────────────────────────

proof fn lemma_length_line(len: usize)
    ensures
        text_step(None, "Content-Length: "@ + text::decimal(len as nat) + "\r\n"@)
            == HeaderStep::More(Some(len)),
        text_step(Some(len), "\r\n"@) == HeaderStep::Body(len),
{
    let digits = text::decimal(len as nat);
    text::law_decimal_round_trip(len as nat, usize::MAX as nat);
    text::lemma_decimal_digits(len as nat);
    reveal_strlit("Content-Length: ");
    reveal_strlit("Content-Length:");
    reveal_strlit("\r\n");
    let content = "Content-Length: "@ + digits;
    let line = content + "\r\n"@;
    reveal_with_fuel(text::trim_line_end, 3);
    assert(line.drop_last() =~= content.push('\r'));
    assert(line.drop_last().drop_last() =~= content);
    assert(text::is_digit(digits.last()));
    assert(content.last() == digits.last());
    assert(text::trim_line_end(line) == content);
    assert("Content-Length:"@.is_prefix_of(content)) by {
        assert("Content-Length:"@ =~= content.subrange(0, 15));
    }
    let rest = content.skip(15);
    assert(rest =~= seq![' '] + digits);
    reveal_with_fuel(text::trim_start, 2);
    assert(rest.skip(1) =~= digits);
    assert(text::is_digit(digits[0]));
    assert(text::trim_start(rest) == digits);
    assert(text::trim_end(digits) == digits);
    assert("\r\n"@.drop_last().drop_last() =~= Seq::empty());
}

proof fn lemma_ascii_bytes(chars: Seq<char>)
    requires
        vstd::utf8::is_ascii_chars(chars),
    ensures
        vstd::utf8::encode_utf8(chars) == chars.map_values(|c: char| c as u8),
{
    vstd::utf8::is_ascii_chars_encode_utf8(chars);
    assert(vstd::utf8::encode_utf8(chars) =~= chars.map_values(|c: char| c as u8));
}

/// Reading a written frame gives the body back, and leaves what follows the frame
/// for the next read.
pub proof fn law_frame_round_trip(body: Seq<u8>, rest: Seq<u8>)
    requires
        body.len() <= usize::MAX,
    ensures
        first_frame(framed(body) + rest) == Ok::<(Seq<u8>, Seq<u8>), FrameError>((body, rest)),
{
    let len = body.len() as usize;
    let digits = text::decimal(len as nat);
    text::lemma_decimal_digits(len as nat);
    lemma_length_line(len);
    reveal_strlit("Content-Length: ");
    reveal_strlit("\r\n");
    reveal_strlit("\r\n\r\n");
    let first = "Content-Length: "@ + digits + "\r\n"@;
    let second = "\r\n"@;
    let header = frame_header(body.len());
    assert(header =~= first + second);
    assert forall|i: int| 0 <= i < header.len() implies '\0' <= #[trigger] header[i] <= '\u{7f}' by {
        if 16 <= i < 16 + digits.len() {
            assert(text::is_digit(digits[i - 16]));
            assert(header[i] == digits[i - 16]);
        }
    }
    assert forall|i: int| 0 <= i < first.len() implies '\0' <= #[trigger] first[i] <= '\u{7f}' by {
        assert(first[i] == header[i]);
    }
    lemma_ascii_bytes(header);
    lemma_ascii_bytes(first);
    lemma_ascii_bytes(second);
    vstd::utf8::encode_utf8_valid_utf8(first);
    vstd::utf8::encode_utf8_valid_utf8(second);
    vstd::utf8::encode_utf8_decode_utf8(first);
    vstd::utf8::encode_utf8_decode_utf8(second);
    let one = vstd::utf8::encode_utf8(first);
    let two = vstd::utf8::encode_utf8(second);
    let input = framed(body) + rest;
    assert(input =~= one + two + body + rest);
    let n = first.len() as int;
    assert forall|i: int| 0 <= i < n - 1 implies input[i] != 10 by {
        if 16 <= i < 16 + digits.len() {
            assert(text::is_digit(digits[i - 16]));
            assert(first[i] == digits[i - 16]);
        }
        assert(input[i] == first[i] as u8);
    }
    assert(input[n - 1] == first[n - 1] as u8);
    lemma_line_length_at(input, n - 1);
    assert(input.take(n) =~= one);
    let later = input.skip(n);
    assert(later =~= two + body + rest);
    assert(later[0] == second[0] as u8);
    assert(later[1] == second[1] as u8);
    lemma_line_length_at(later, 1);
    assert(later.take(2) =~= two);
    assert(read_headers(later, Some(len)) == Ok::<(int, usize), FrameError>((2, len)));
    assert(read_headers(input, None) == Ok::<(int, usize), FrameError>((n + 2, len)));
    assert(input.subrange(n + 2, n + 2 + len) =~= body);
    assert(input.skip(n + 2 + len) =~= rest);
}

/// Frames around bodies, one after the other.
pub open spec fn framed_stream(bodies: Seq<Seq<u8>>) -> Seq<u8>
    decreases bodies.len(),
{
    if bodies.len() == 0 {
        Seq::empty()
    } else {
        framed(bodies[0]) + framed_stream(bodies.skip(1))
    }
}

/// The bodies of the first `n` frames in `input`, and what follows them.
pub open spec fn first_frames(input: Seq<u8>, n: nat) -> Result<
    (Seq<Seq<u8>>, Seq<u8>),
    FrameError,
>
    decreases n,
{
    if n == 0 {
        Ok((Seq::empty(), input))
    } else {
        match first_frame(input) {
            Ok((body, rest)) => match first_frames(rest, (n - 1) as nat) {
                Ok((bodies, rest)) => Ok((seq![body] + bodies, rest)),
                Err(error) => Err(error),
            },
            Err(error) => Err(error),
        }
    }
}

/// Frames that are written one after the other are read one after the other.
pub proof fn law_stream_round_trip(bodies: Seq<Seq<u8>>, rest: Seq<u8>)
    requires
        forall|i: int| 0 <= i < bodies.len() ==> (#[trigger] bodies[i]).len() <= usize::MAX,
    ensures
        first_frames(framed_stream(bodies) + rest, bodies.len()) == Ok::<
            (Seq<Seq<u8>>, Seq<u8>),
            FrameError,
        >((bodies, rest)),
    decreases bodies.len(),
{
    if bodies.len() == 0 {
        assert(framed_stream(bodies) + rest =~= rest);
        assert(bodies =~= Seq::empty());
    } else {
        let later = bodies.skip(1);
        assert forall|i: int| 0 <= i < later.len() implies (#[trigger] later[i]).len()
            <= usize::MAX by {
            assert(later[i] == bodies[i + 1]);
        }
        law_stream_round_trip(later, rest);
        law_frame_round_trip(bodies[0], framed_stream(later) + rest);
        assert(framed_stream(bodies) + rest =~= framed(bodies[0]) + (framed_stream(later) + rest));
        assert(seq![bodies[0]] + later =~= bodies);
    }
}

/// A frame is the length of its body behind `Content-Length: `, an empty line, and the
/// body, byte for byte.
pub proof fn law_frame_bytes(body: Seq<u8>)
    ensures
        framed(body) == vstd::utf8::encode_utf8(
            "Content-Length: "@ + text::decimal(body.len()) + "\r\n\r\n"@,
        ) + body,
{
}

/// The end of the input and bytes that are no text are not taken for header lines.
pub proof fn law_broken_lines(length: Option<usize>, line: Seq<u8>)
    ensures
        header_step(length, line) == HeaderStep::Failed(FrameError::Closed) <==> line.len() == 0,
        header_step(length, line) == HeaderStep::Failed(FrameError::NotText) <==> line.len() > 0
            && !vstd::utf8::valid_utf8(line),
        line.len() > 0 && vstd::utf8::valid_utf8(line) ==> header_step(length, line) == text_step(
            length,
            vstd::utf8::decode_utf8(line),
        ),
{
}

/// An empty line ends the headers, with the length that was told, and fails without one.
pub proof fn law_empty_line(length: Option<usize>, end: Seq<char>)
    requires
        forall|i: int| 0 <= i < end.len() ==> #[trigger] end[i] == '\r' || end[i] == '\n',
    ensures
        text_step(length, end) == match length {
            Some(n) => HeaderStep::Body(n),
            None => HeaderStep::Failed(FrameError::NoLength),
        },
{
    text::law_line_end_trimmed(Seq::empty(), end);
    assert(Seq::<char>::empty() + end =~= end);
}

/// A `Content-Length` line tells the number that it holds, whatever earlier lines told and
/// whatever spaces are around it; anything but a number of the machine's size is an error.
pub proof fn law_length_line(
    length: Option<usize>,
    before: Seq<char>,
    value: Seq<char>,
    after: Seq<char>,
    end: Seq<char>,
)
    requires
        forall|i: int| 0 <= i < before.len() ==> #[trigger] before[i] == ' ' || before[i] == '\t',
        forall|i: int| 0 <= i < after.len() ==> #[trigger] after[i] == ' ' || after[i] == '\t',
        value.len() > 0 ==> !text::is_whitespace(value[0]) && !text::is_whitespace(
            value[value.len() - 1],
        ),
        forall|i: int| 0 <= i < end.len() ==> #[trigger] end[i] == '\r' || end[i] == '\n',
    ensures
        text_step(length, "Content-Length:"@ + before + value + after + end) == match
            text::parsed_decimal(value, usize::MAX as nat) {
            Some(n) => HeaderStep::More(Some(n as usize)),
            None => HeaderStep::Failed(FrameError::BadLength),
        },
{
    let prefix = "Content-Length:"@;
    reveal_strlit("Content-Length:");
    let rest = before + value + after;
    let content = prefix + rest;
    assert(prefix + before + value + after + end =~= content + end);
    let last = content[content.len() - 1];
    if after.len() > 0 {
        assert(last == after[after.len() - 1]);
    } else if value.len() > 0 {
        assert(last == value[value.len() - 1]);
    } else if before.len() > 0 {
        assert(last == before[before.len() - 1]);
    } else {
        assert(last == ':');
    }
    text::law_line_end_trimmed(content, end);
    text::law_after_prefix(content, prefix, rest);
    text::law_trimmed(before, value, after);
}

/// Any other line tells nothing.
pub proof fn law_other_line(length: Option<usize>, content: Seq<char>, end: Seq<char>)
    requires
        content.len() > 0,
        content[content.len() - 1] != '\r',
        content[content.len() - 1] != '\n',
        forall|rest: Seq<char>| content != #[trigger] ("Content-Length:"@ + rest),
        forall|i: int| 0 <= i < end.len() ==> #[trigger] end[i] == '\r' || end[i] == '\n',
    ensures
        text_step(length, content + end) == HeaderStep::More(length),
{
    text::law_line_end_trimmed(content, end);
    if text::after_prefix(content, "Content-Length:"@) is Some {
        let rest = text::after_prefix(content, "Content-Length:"@)->0;
        text::law_after_prefix(content, "Content-Length:"@, rest);
        assert(content == "Content-Length:"@ + rest);
    }
}

/// Headers are read line by line, each up to its line feed.
pub proof fn law_headers_line_by_line(length: Option<usize>, line: Seq<u8>, rest: Seq<u8>)
    requires
        line.len() > 0,
        line[line.len() - 1] == 10,
        forall|i: int| 0 <= i < line.len() - 1 ==> #[trigger] line[i] != 10,
    ensures
        match header_step(length, line) {
            HeaderStep::Body(len) => read_headers(line + rest, length) == Ok::<
                (int, usize),
                FrameError,
            >((line.len() as int, len)),
            HeaderStep::Failed(error) => read_headers(line + rest, length) == Err::<
                (int, usize),
                FrameError,
            >(error),
            HeaderStep::More(told) => match read_headers(rest, told) {
                Ok((start, len)) => read_headers(line + rest, length) == Ok::<
                    (int, usize),
                    FrameError,
                >((line.len() + start, len)),
                Err(error) => read_headers(line + rest, length) == Err::<
                    (int, usize),
                    FrameError,
                >(error),
            },
        },
        read_headers(Seq::empty(), length) == Err::<(int, usize), FrameError>(FrameError::Closed),
{
    let input = line + rest;
    assert(input[line.len() - 1] == 10);
    assert forall|i: int| 0 <= i < line.len() - 1 implies input[i] != 10 by {
        assert(input[i] == line[i]);
    }
    lemma_line_length_at(input, line.len() - 1);
    assert(input.take(line.len() as int) =~= line);
    assert(input.skip(line.len() as int) =~= rest);
}

/// A last line without a line feed counts as it stands; unless it ends the headers, the
/// input ends too early.
pub proof fn law_unfinished_line(length: Option<usize>, line: Seq<u8>)
    requires
        forall|i: int| 0 <= i < line.len() ==> #[trigger] line[i] != 10,
        line.len() > 0,
    ensures
        match header_step(length, line) {
            HeaderStep::Body(len) => read_headers(line, length) == Ok::<(int, usize), FrameError>(
                (line.len() as int, len),
            ),
            HeaderStep::Failed(error) => read_headers(line, length) == Err::<
                (int, usize),
                FrameError,
            >(error),
            HeaderStep::More(_) => read_headers(line, length) == Err::<(int, usize), FrameError>(
                FrameError::Closed,
            ),
        },
{
    reveal_with_fuel(read_headers, 2);
    lemma_unfinished(line);
    assert(line.take(line.len() as int) =~= line);
    assert(line.skip(line.len() as int) =~= Seq::empty());
}

proof fn lemma_unfinished(line: Seq<u8>)
    requires
        forall|i: int| 0 <= i < line.len() ==> #[trigger] line[i] != 10,
    ensures
        line_length(line) == line.len(),
    decreases line.len(),
{
    if line.len() > 0 {
        let rest = line.skip(1);
        assert forall|i: int| 0 <= i < rest.len() implies #[trigger] rest[i] != 10 by {
            assert(rest[i] == line[i + 1]);
        }
        lemma_unfinished(rest);
    }
}

/// The body is as many bytes behind the headers as they tell, and the rest follows it; an
/// input that ends before is an error, and so are broken headers.
pub proof fn law_body_follows_headers(headers: Seq<u8>, body: Seq<u8>, rest: Seq<u8>)
    ensures
        read_headers(headers + body + rest, None) matches Ok((start, len)) && start == headers.len()
            && len == body.len() ==> first_frame(headers + body + rest) == Ok::<
            (Seq<u8>, Seq<u8>),
            FrameError,
        >((body, rest)),
        read_headers(headers + body, None) matches Ok((start, len)) && start == headers.len() && len
            > body.len() ==> first_frame(headers + body) == Err::<(Seq<u8>, Seq<u8>), FrameError>(
            FrameError::ShortBody,
        ),
        read_headers(headers, None) matches Err(error) ==> first_frame(headers) == Err::<
            (Seq<u8>, Seq<u8>),
            FrameError,
        >(error),
{
    let input = headers + body + rest;
    let start = headers.len() as int;
    assert(input.subrange(start, start + body.len()) =~= body);
    assert(input.skip(start + body.len()) =~= rest);
}

/// Each broken frame is told of in its own words.
pub proof fn law_frame_errors_are_told(error: FrameError)
    ensures
        error.message() == match error {
            FrameError::Closed => "connection closed while reading headers"@,
            FrameError::NotText => "reading header line"@,
            FrameError::BadLength => "parsing Content-Length value"@,
            FrameError::NoLength => "no Content-Length header found"@,
            FrameError::ShortBody => "reading message body"@,
        },
{
}

} // verus!
