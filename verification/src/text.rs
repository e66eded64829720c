//! Text helpers: comparing, trimming, splitting into lines, decimal numerals.
//!
//! A text is modelled as the sequence of its characters.

use vstd::prelude::*;
use vstd::string::StrSliceExecFns;
use vstd::string::StringExecFns;

verus! {

// ── Characters ──────────────────────────────────────────────────────────────

/// The characters with the Unicode property `White_Space`.
pub open spec fn is_whitespace(c: char) -> bool {
    ||| '\u{9}' <= c <= '\u{d}'
    ||| c == '\u{20}'
    ||| c == '\u{85}'
    ||| c == '\u{a0}'
    ||| c == '\u{1680}'
    ||| '\u{2000}' <= c <= '\u{200a}'
    ||| c == '\u{2028}'
    ||| c == '\u{2029}'
    ||| c == '\u{202f}'
    ||| c == '\u{205f}'
    ||| c == '\u{3000}'
}

/// Whether `c` has the Unicode property `White_Space`.
pub fn whitespace(c: char) -> (r: bool)
    ensures
        r == is_whitespace(c),
{
    ('\u{9}' <= c && c <= '\u{d}') || c == '\u{20}' || c == '\u{85}' || c == '\u{a0}' || c
        == '\u{1680}' || ('\u{2000}' <= c && c <= '\u{200a}') || c == '\u{2028}' || c == '\u{2029}'
        || c == '\u{202f}' || c == '\u{205f}' || c == '\u{3000}'
}

/// Whether a text holds nothing but whitespace.
pub open spec fn is_blank(text: Seq<char>) -> bool {
    forall|i: int| 0 <= i < text.len() ==> is_whitespace(#[trigger] text[i])
}

/// The characters of `text`, in order.
pub fn characters(text: &str) -> (r: Vec<char>)
    ensures
        r@ == text@,
{
    let mut chars: Vec<char> = Vec::new();
    for c in it: text.chars()
        invariant
            chars@ == it.seq().take(it.index() as int),
            it.seq() == text@,
    {
        chars.push(c);
    }
    chars
}

// ── Comparing ───────────────────────────────────────────────────────────────

/// Whether two texts hold the same characters.
pub fn same_text(a: &str, b: &str) -> (r: bool)
    ensures
        r == (a@ == b@),
{
    let left = a.as_bytes();
    let right = b.as_bytes();
    if left.len() != right.len() {
        return false;
    }
    let mut i: usize = 0;
    while i < left.len()
        invariant
            i <= left@.len(),
            left@ == vstd::utf8::encode_utf8(a@),
            right@ == vstd::utf8::encode_utf8(b@),
            left@.len() == right@.len(),
            forall|j: int| 0 <= j < i ==> left@[j] == right@[j],
        decreases left@.len() - i,
    {
        if left[i] != right[i] {
            return false;
        }
        i += 1;
    }
    proof {
        assert(left@ =~= right@);
        vstd::utf8::encode_utf8_decode_utf8(a@);
        vstd::utf8::encode_utf8_decode_utf8(b@);
    }
    true
}

/// `a` followed by `b`.
pub fn concat(a: &str, b: &str) -> (r: String)
    ensures
        r@ == a@ + b@,
{
    let mut text = a.to_owned();
    text.append(b);
    text
}

/// `a`, `b` and `c`, one after the other.
pub fn concat3(a: &str, b: &str, c: &str) -> (r: String)
    ensures
        r@ == a@ + b@ + c@,
{
    let mut text = a.to_owned();
    text.append(b);
    text.append(c);
    text
}

// ── Trimming ────────────────────────────────────────────────────────────────

/// `text` without its leading whitespace.
pub open spec fn trim_start(text: Seq<char>) -> Seq<char>
    decreases text.len(),
{
    if text.len() > 0 && is_whitespace(text[0]) {
        trim_start(text.skip(1))
    } else {
        text
    }
}

/// `text` without its trailing whitespace.
pub open spec fn trim_end(text: Seq<char>) -> Seq<char>
    decreases text.len(),
{
    if text.len() > 0 && is_whitespace(text.last()) {
        trim_end(text.drop_last())
    } else {
        text
    }
}

/// `text` without leading and trailing whitespace.
pub open spec fn trimmed(text: Seq<char>) -> Seq<char> {
    trim_end(trim_start(text))
}

/// `text` without the carriage returns and line feeds at its end.
pub open spec fn trim_line_end(text: Seq<char>) -> Seq<char>
    decreases text.len(),
{
    if text.len() > 0 && (text.last() == '\r' || text.last() == '\n') {
        trim_line_end(text.drop_last())
    } else {
        text
    }
}

/// Removes leading and trailing whitespace.
pub fn trim(text: &str) -> (r: &str)
    ensures
        r@ == trimmed(text@),
{
    let chars = characters(text);
    let mut start: usize = 0;
    assert(text@.skip(0) =~= text@);
    while start < chars.len() && whitespace(chars[start])
        invariant
            chars@ == text@,
            start <= chars@.len(),
            trim_start(text@) == trim_start(text@.skip(start as int)),
        decreases chars@.len() - start,
    {
        assert(text@.skip(start as int).skip(1) =~= text@.skip(start + 1));
        start += 1;
    }
    let mut end: usize = chars.len();
    let ghost body = text@.skip(start as int);
    assert(trim_start(text@) == body);
    assert(body =~= text@.subrange(start as int, end as int));
    while start < end && whitespace(chars[end - 1])
        invariant
            chars@ == text@,
            start <= end <= chars@.len(),
            trim_end(body) == trim_end(text@.subrange(start as int, end as int)),
        decreases end,
    {
        assert(text@.subrange(start as int, end as int).drop_last() =~= text@.subrange(
            start as int,
            end - 1,
        ));
        end -= 1;
    }
    text.substring_char(start, end)
}

/// Removes carriage returns and line feeds at the end.
pub fn trim_newlines(text: &str) -> (r: &str)
    ensures
        r@ == trim_line_end(text@),
{
    let chars = characters(text);
    let mut end: usize = chars.len();
    assert(text@.take(end as int) =~= text@);
    while end > 0 && (chars[end - 1] == '\r' || chars[end - 1] == '\n')
        invariant
            chars@ == text@,
            end <= chars@.len(),
            trim_line_end(text@) == trim_line_end(text@.take(end as int)),
        decreases end,
    {
        assert(text@.take(end as int).drop_last() =~= text@.take(end - 1));
        end -= 1;
    }
    assert(text@.take(end as int) =~= text@.subrange(0, end as int));
    text.substring_char(0, end)
}

/// What follows `prefix` in `text`, if `text` starts with `prefix`.
pub open spec fn after_prefix(text: Seq<char>, prefix: Seq<char>) -> Option<Seq<char>> {
    if prefix.is_prefix_of(text) {
        Some(text.skip(prefix.len() as int))
    } else {
        None
    }
}

/// Removes `prefix` from the start, if it is there.
pub fn strip_prefix<'a>(text: &'a str, prefix: &str) -> (r: Option<&'a str>)
    ensures
        match r {
            Some(rest) => after_prefix(text@, prefix@) == Some(rest@),
            None => after_prefix(text@, prefix@) is None,
        },
{
    let chars = characters(text);
    let wanted = characters(prefix);
    if chars.len() < wanted.len() {
        return None;
    }
    let mut i: usize = 0;
    while i < wanted.len()
        invariant
            chars@ == text@,
            wanted@ == prefix@,
            i <= wanted@.len() <= chars@.len(),
            forall|j: int| 0 <= j < i ==> prefix@[j] == text@[j],
        decreases wanted@.len() - i,
    {
        if chars[i] != wanted[i] {
            assert(text@.subrange(0, prefix@.len() as int)[i as int] != prefix@[i as int]);
            return None;
        }
        i += 1;
    }
    assert(prefix@ =~= text@.subrange(0, prefix@.len() as int));
    assert(text@.skip(prefix@.len() as int) =~= text@.subrange(
        prefix@.len() as int,
        text@.len() as int,
    ));
    Some(text.substring_char(wanted.len(), chars.len()))
}

// ── Lines ───────────────────────────────────────────────────────────────────

/// The position of the first line feed in `text`, or its length.
pub open spec fn line_feed_at(text: Seq<char>) -> int
    decreases text.len(),
{
    if text.len() == 0 || text[0] == '\n' {
        0
    } else {
        1 + line_feed_at(text.skip(1))
    }
}

/// `line` without one carriage return at its end.
pub open spec fn without_carriage_return(line: Seq<char>) -> Seq<char> {
    if line.len() > 0 && line.last() == '\r' {
        line.drop_last()
    } else {
        line
    }
}

/// The lines of `text`.
///
/// A line ends at a line feed, or at a carriage return and a line feed; the end
/// of the last line is optional, and no line holds its own end.
pub open spec fn lines(text: Seq<char>) -> Seq<Seq<char>>
    decreases text.len(),
{
    let n = line_feed_at(text);
    if text.len() == 0 || n < 0 {
        Seq::empty()
    } else if n >= text.len() {
        seq![text]
    } else {
        seq![without_carriage_return(text.take(n))] + lines(text.skip(n + 1))
    }
}

/// The first of `all` that holds something else than whitespace.
pub open spec fn first_non_blank(all: Seq<Seq<char>>) -> Option<Seq<char>>
    decreases all.len(),
{
    if all.len() == 0 {
        None
    } else if !is_blank(all[0]) {
        Some(all[0])
    } else {
        first_non_blank(all.skip(1))
    }
}

pub proof fn lemma_line_feed_at(text: Seq<char>)
    ensures
        0 <= line_feed_at(text) <= text.len(),
        line_feed_at(text) < text.len() ==> text[line_feed_at(text)] == '\n',
        forall|i: int| 0 <= i < line_feed_at(text) ==> text[i] != '\n',
    decreases text.len(),
{
    if text.len() > 0 && text[0] != '\n' {
        lemma_line_feed_at(text.skip(1));
        assert forall|i: int| 0 <= i < line_feed_at(text) implies text[i] != '\n' by {
            if i > 0 {
                assert(text[i] == text.skip(1)[i - 1]);
            }
        }
    }
}

proof fn lemma_line_feed_unique(text: Seq<char>, n: int)
    requires
        0 <= n <= text.len(),
        n < text.len() ==> text[n] == '\n',
        forall|i: int| 0 <= i < n ==> text[i] != '\n',
    ensures
        line_feed_at(text) == n,
{
    lemma_line_feed_at(text);
}

/// The first line of `text` that is not blank, or `text` itself when there is none.
pub open spec fn headline(text: Seq<char>) -> Seq<char> {
    match first_non_blank(lines(text)) {
        Some(line) => line,
        None => text,
    }
}

/// Finds the first line of `text` that is not blank.
pub fn first_line(text: &str) -> (r: &str)
    ensures
        r@ == headline(text@),
{
    let chars = characters(text);
    let mut start: usize = 0;
    assert(text@.skip(0) =~= text@);
    while start < chars.len()
        invariant
            chars@ == text@,
            start <= chars@.len(),
            first_non_blank(lines(text@)) == first_non_blank(lines(text@.skip(start as int))),
        decreases chars@.len() - start,
    {
        let ghost rest = text@.skip(start as int);
        let mut end: usize = start;
        let mut blank: bool = true;
        while end < chars.len() && chars[end] != '\n'
            invariant
                chars@ == text@,
                start <= end <= chars@.len(),
                rest == text@.skip(start as int),
                forall|i: int| 0 <= i < end - start ==> rest[i] != '\n',
                blank == is_blank(rest.take(end - start)),
            decreases chars@.len() - end,
        {
            let c = chars[end];
            proof {
                let before = rest.take(end - start);
                let after = rest.take(end - start + 1);
                assert(after =~= before.push(c));
                if blank && is_whitespace(c) {
                    assert(is_blank(after));
                } else if blank {
                    assert(!is_whitespace(after[end - start]));
                } else {
                    let i = choose|i: int| 0 <= i < before.len() && !is_whitespace(before[i]);
                    assert(!is_whitespace(after[i]));
                }
            }
            blank = blank && whitespace(c);
            end += 1;
        }
        proof {
            lemma_line_feed_unique(rest, end - start);
            assert(rest.take(end - start) =~= text@.subrange(start as int, end as int));
        }
        if end == chars.len() {
            proof {
                assert(rest.take(end - start) =~= rest);
                assert(lines(rest) =~= seq![rest]);
                assert(lines(rest).skip(1) =~= Seq::empty());
                reveal_with_fuel(first_non_blank, 2);
            }
            if blank {
                return text;
            }
            return text.substring_char(start, end);
        }
        let stop: usize = if start < end && chars[end - 1] == '\r' {
            end - 1
        } else {
            end
        };
        proof {
            let line = without_carriage_return(rest.take(end - start));
            assert(line =~= text@.subrange(start as int, stop as int));
            lemma_blank_line(rest.take(end - start));
            let others = lines(rest.skip(end - start + 1));
            assert(lines(rest) == seq![line] + others);
            assert(lines(rest).skip(1) =~= others);
            assert(lines(rest)[0] == line);
            assert(rest.skip(end - start + 1) =~= text@.skip(end + 1));
        }
        if !blank {
            return text.substring_char(start, stop);
        }
        start = end + 1;
    }
    assert(text@.skip(start as int) =~= Seq::empty());
    text
}

proof fn lemma_blank_line(line: Seq<char>)
    ensures
        is_blank(line) == is_blank(without_carriage_return(line)),
{
    let short = without_carriage_return(line);
    if is_blank(short) {
        assert forall|i: int| 0 <= i < line.len() implies is_whitespace(#[trigger] line[i]) by {
            if i < short.len() {
                assert(line[i] == short[i]);
            }
        }
    } else {
        let i = choose|i: int| 0 <= i < short.len() && !is_whitespace(short[i]);
        assert(!is_whitespace(line[i]));
    }
}

/// `text` when it has at most `max_chars` characters; otherwise its first
/// `max_chars` characters and an ellipsis.
pub open spec fn shortened(text: Seq<char>, max_chars: nat) -> Seq<char> {
    if text.len() <= max_chars {
        text
    } else {
        text.take(max_chars as int) + "…"@
    }
}

/// Cuts `text` down to `max_chars` characters, marking the cut with an ellipsis.
pub fn shorten(text: &str, max_chars: usize) -> (r: String)
    ensures
        r@ == shortened(text@, max_chars as nat),
{
    if text.unicode_len() <= max_chars {
        text.to_owned()
    } else {
        assert(text@.take(max_chars as int) =~= text@.subrange(0, max_chars as int));
        concat(text.substring_char(0, max_chars), "…")
    }
}

// ── Letter case ─────────────────────────────────────────────────────────────

/// The lower-case form of an ASCII capital letter; any other character itself.
pub open spec fn ascii_lower(c: char) -> char {
    if 'A' <= c <= 'Z' {
        ((c as u32) + 32) as char
    } else {
        c
    }
}

/// Whether `text`, its ASCII capitals taken as lower case, is `lower`.
pub fn same_ignoring_ascii_case(text: &str, lower: &str) -> (r: bool)
    ensures
        r == (text@.map_values(|c: char| ascii_lower(c)) == lower@),
{
    let chars = characters(text);
    let wanted = characters(lower);
    if chars.len() != wanted.len() {
        return false;
    }
    let ghost lowered = text@.map_values(|c: char| ascii_lower(c));
    let mut i: usize = 0;
    while i < chars.len()
        invariant
            chars@ == text@,
            wanted@ == lower@,
            chars@.len() == wanted@.len(),
            i <= chars@.len(),
            lowered == text@.map_values(|c: char| ascii_lower(c)),
            forall|j: int| 0 <= j < i ==> lowered[j] == lower@[j],
        decreases chars@.len() - i,
    {
        let c = chars[i];
        let low: char = if 'A' <= c && c <= 'Z' {
            ((c as u8) + 32) as char
        } else {
            c
        };
        assert(lowered[i as int] == low);
        if low != wanted[i] {
            return false;
        }
        i += 1;
    }
    assert(lowered =~= lower@);
    true
}

// ── Decimal numerals ────────────────────────────────────────────────────────

/// The character of a decimal digit.
pub open spec fn digit(d: nat) -> char {
    (('0' as u32) + d) as char
}

/// The decimal numeral of `n`, without leading zeros.
pub open spec fn decimal(n: nat) -> Seq<char>
    decreases n,
{
    if n < 10 {
        seq![digit(n)]
    } else {
        decimal(n / 10).push(digit(n % 10))
    }
}

/// The decimal numeral of a signed number.
pub open spec fn signed_decimal(n: int) -> Seq<char> {
    if n < 0 {
        seq!['-'] + decimal((-n) as nat)
    } else {
        decimal(n as nat)
    }
}

/// `text` with zeros put in front until it has at least `width` characters.
pub open spec fn zero_padded(text: Seq<char>, width: nat) -> Seq<char>
    decreases width - text.len(),
{
    if text.len() >= width {
        text
    } else {
        zero_padded(seq!['0'] + text, width)
    }
}

fn digit_text(d: u64) -> (r: &'static str)
    requires
        d < 10,
    ensures
        r@ == seq![digit(d as nat)],
{
    proof {
        reveal_strlit("0");
        reveal_strlit("1");
        reveal_strlit("2");
        reveal_strlit("3");
        reveal_strlit("4");
        reveal_strlit("5");
        reveal_strlit("6");
        reveal_strlit("7");
        reveal_strlit("8");
        reveal_strlit("9");
    }
    let r = if d == 0 {
        "0"
    } else if d == 1 {
        "1"
    } else if d == 2 {
        "2"
    } else if d == 3 {
        "3"
    } else if d == 4 {
        "4"
    } else if d == 5 {
        "5"
    } else if d == 6 {
        "6"
    } else if d == 7 {
        "7"
    } else if d == 8 {
        "8"
    } else {
        "9"
    };
    assert(r@ =~= seq![digit(d as nat)]);
    r
}

/// Writes `n` in decimal.
pub fn decimal_text(n: u64) -> (r: String)
    ensures
        r@ == decimal(n as nat),
    decreases n,
{
    if n < 10 {
        digit_text(n).to_owned()
    } else {
        let head = decimal_text(n / 10);
        let text = concat(head.as_str(), digit_text(n % 10));
        assert(text@ =~= decimal(n as nat));
        text
    }
}

/// Writes a signed number in decimal.
pub fn signed_decimal_text(n: i64) -> (r: String)
    ensures
        r@ == signed_decimal(n as int),
{
    if n < 0 {
        let magnitude: u64 = (-(n as i128)) as u64;
        proof {
            reveal_strlit("-");
        }
        let text = concat("-", decimal_text(magnitude).as_str());
        assert(text@ =~= signed_decimal(n as int));
        text
    } else {
        decimal_text(n as u64)
    }
}

/// Puts zeros in front of `text` until it has at least `width` characters.
pub fn pad_with_zeros(text: &str, width: usize) -> (r: String)
    ensures
        r@ == zero_padded(text@, width as nat),
{
    let mut padded = text.to_owned();
    while padded.as_str().unicode_len() < width
        invariant
            zero_padded(text@, width as nat) == zero_padded(padded@, width as nat),
        decreases width - padded@.len(),
    {
        proof {
            reveal_strlit("0");
        }
        let longer = concat("0", padded.as_str());
        assert(longer@ =~= seq!['0'] + padded@);
        padded = longer;
    }
    padded
}

/// Whether `c` is an ASCII decimal digit.
pub open spec fn is_digit(c: char) -> bool {
    '0' <= c <= '9'
}

/// The number that a sequence of decimal digits stands for.
pub open spec fn digits_value(digits: Seq<char>) -> nat
    decreases digits.len(),
{
    if digits.len() == 0 {
        0
    } else {
        digits_value(digits.drop_last()) * 10 + (digits.last() as nat - '0' as nat) as nat
    }
}

/// `text` without one leading plus sign.
pub open spec fn without_plus(text: Seq<char>) -> Seq<char> {
    if text.len() > 0 && text[0] == '+' {
        text.skip(1)
    } else {
        text
    }
}

/// Whether a text holds nothing but decimal digits.
pub open spec fn all_digits(text: Seq<char>) -> bool {
    forall|i: int| 0 <= i < text.len() ==> is_digit(#[trigger] text[i])
}

/// The number that `text` writes, if it is a numeral of a number up to `max`:
/// an optional plus sign and at least one digit.
pub open spec fn parsed_decimal(text: Seq<char>, max: nat) -> Option<nat> {
    let digits = without_plus(text);
    if digits.len() > 0 && all_digits(digits) && digits_value(digits) <= max {
        Some(digits_value(digits))
    } else {
        None
    }
}

proof fn lemma_digits_grow(digits: Seq<char>, n: int)
    requires
        0 <= n <= digits.len(),
    ensures
        digits_value(digits.take(n)) <= digits_value(digits),
    decreases digits.len(),
{
    if n < digits.len() {
        assert(digits.drop_last().take(n) =~= digits.take(n));
        lemma_digits_grow(digits.drop_last(), n);
    } else {
        assert(digits.take(n) =~= digits);
    }
}

/// Reads a decimal numeral of a number that fits in `usize`.
pub fn parse_decimal(text: &str) -> (r: Option<usize>)
    ensures
        match r {
            Some(n) => parsed_decimal(text@, usize::MAX as nat) == Some(n as nat),
            None => parsed_decimal(text@, usize::MAX as nat) is None,
        },
{
    let chars = characters(text);
    let start: usize = if chars.len() > 0 && chars[0] == '+' {
        1
    } else {
        0
    };
    let ghost digits = without_plus(text@);
    assert(digits =~= text@.skip(start as int));
    if start == chars.len() {
        return None;
    }
    let mut value: usize = 0;
    let mut i: usize = start;
    while i < chars.len()
        invariant
            chars@ == text@,
            start <= i <= chars@.len(),
            digits == text@.skip(start as int),
            digits == without_plus(text@),
            all_digits(digits.take(i - start)),
            value == digits_value(digits.take(i - start)),
        decreases chars@.len() - i,
    {
        let c = chars[i];
        assert(digits[i - start] == c);
        if !('0' <= c && c <= '9') {
            return None;
        }
        let d: usize = (c as u32 - '0' as u32) as usize;
        let ghost shown = digits.take(i - start);
        let ghost next = digits.take(i - start + 1);
        proof {
            assert(next =~= shown.push(c));
            assert(next.drop_last() =~= shown);
            assert(digits_value(next) == value * 10 + d);
            lemma_digits_grow(digits, i - start + 1);
        }
        if value > usize::MAX / 10 || (value == usize::MAX / 10 && d > usize::MAX % 10) {
            assert(digits_value(digits) > usize::MAX);
            return None;
        }
        value = value * 10 + d;
        i += 1;
    }
    assert(digits.take(i - start) =~= digits);
    Some(value)
}

pub proof fn lemma_decimal_digits(n: nat)
    ensures
        decimal(n).len() > 0,
        all_digits(decimal(n)),
        digits_value(decimal(n)) == n,
    decreases n,
{
    if n < 10 {
        assert(decimal(n).drop_last() =~= Seq::empty());
        assert(digits_value(Seq::<char>::empty()) == 0);
    } else {
        lemma_decimal_digits(n / 10);
        assert(decimal(n).drop_last() =~= decimal(n / 10));
    }
}

/// Reading the decimal numeral of a number gives the number back.
pub proof fn law_decimal_round_trip(n: nat, max: nat)
    requires
        n <= max,
    ensures
        parsed_decimal(decimal(n), max) == Some(n),
{
    lemma_decimal_digits(n);
    assert(is_digit(decimal(n)[0]));
}

// ── Order ───────────────────────────────────────────────────────────────────

/// Whether `a` and `b` differ first at `k`, where `a` has the smaller character.
pub open spec fn first_difference(a: Seq<char>, b: Seq<char>, k: int) -> bool {
    0 <= k < a.len() && k < b.len() && a[k] < b[k] && a.take(k) == b.take(k)
}

/// Whether `a` comes before `b` in the order of a dictionary: it has the smaller
/// character where they first differ, or is a shorter beginning of `b`.
pub open spec fn sorts_before(a: Seq<char>, b: Seq<char>) -> bool {
    ||| exists|k: int| first_difference(a, b, k)
    ||| a.len() < b.len() && a == b.take(a.len() as int)
}

proof fn lemma_four_digits(n: nat)
    requires
        n <= 9999,
    ensures
        zero_padded(decimal(n), 4) == seq![
            digit(n / 1000),
            digit(n / 100 % 10),
            digit(n / 10 % 10),
            digit(n % 10),
        ],
{
    reveal_with_fuel(decimal, 4);
    reveal_with_fuel(zero_padded, 4);
    assert(n / 10 / 10 == n / 100 && n / 10 / 10 / 10 == n / 1000);
    assert(zero_padded(decimal(n), 4) =~= seq![
        digit(n / 1000),
        digit(n / 100 % 10),
        digit(n / 10 % 10),
        digit(n % 10),
    ]);
}

proof fn lemma_digit_order(d: nat, e: nat)
    requires
        d < e < 10,
    ensures
        digit(d) < digit(e),
{
}

proof fn lemma_last_digit_order(m: nat, n: nat)
    requires
        m < n,
        m / 10 == n / 10,
    ensures
        digit(m % 10) < digit(n % 10),
{
    lemma_digit_order(m % 10, n % 10);
}

/// Numerals of four digits sort as their numbers do.
pub proof fn lemma_four_digit_order(m: nat, n: nat)
    requires
        m < n <= 9999,
    ensures
        sorts_before(zero_padded(decimal(m), 4), zero_padded(decimal(n), 4)),
{
    lemma_four_digits(m);
    lemma_four_digits(n);
    let a = zero_padded(decimal(m), 4);
    let b = zero_padded(decimal(n), 4);
    assert(m / 1000 == m / 100 / 10 && m / 100 == m / 10 / 10);
    assert(n / 1000 == n / 100 / 10 && n / 100 == n / 10 / 10);
    if m / 1000 != n / 1000 {
        lemma_digit_order(m / 1000, n / 1000);
        assert(a.take(0) =~= b.take(0));
        assert(first_difference(a, b, 0));
    } else if m / 100 != n / 100 {
        lemma_last_digit_order(m / 100, n / 100);
        assert(a.take(1) =~= b.take(1));
        assert(first_difference(a, b, 1));
    } else if m / 10 != n / 10 {
        lemma_last_digit_order(m / 10, n / 10);
        assert(a.take(2) =~= b.take(2));
        assert(first_difference(a, b, 2));
    } else {
        lemma_last_digit_order(m, n);
        assert(a.take(3) =~= b.take(3));
        assert(first_difference(a, b, 3));
    }
}

// ── Laws ────────────────────────────────────────────────────────────────────

/// Trimming takes whitespace off both ends, all of it, and nothing else.
pub proof fn law_trimmed(before: Seq<char>, core: Seq<char>, after: Seq<char>)
    requires
        forall|i: int| 0 <= i < before.len() ==> is_whitespace(#[trigger] before[i]),
        forall|i: int| 0 <= i < after.len() ==> is_whitespace(#[trigger] after[i]),
        core.len() > 0 ==> !is_whitespace(core[0]) && !is_whitespace(core[core.len() - 1]),
    ensures
        trimmed(before + core + after) == core,
    decreases before.len() + after.len(),
{
    let all = before + core + after;
    if before.len() > 0 {
        let rest = before.skip(1);
        assert forall|i: int| 0 <= i < rest.len() implies is_whitespace(#[trigger] rest[i]) by {
            assert(rest[i] == before[i + 1]);
        }
        assert(all[0] == before[0]);
        assert(all.skip(1) =~= rest + core + after);
        law_trimmed(rest, core, after);
    } else if core.len() == 0 {
        assert(all =~= after);
        if after.len() > 0 {
            let rest = after.skip(1);
            assert forall|i: int| 0 <= i < rest.len() implies is_whitespace(#[trigger] rest[i]) by {
                assert(rest[i] == after[i + 1]);
            }
            assert(all.skip(1) =~= before + core + rest);
            law_trimmed(before, core, rest);
        }
    } else {
        assert(all =~= core + after);
        assert(all[0] == core[0]);
        lemma_trim_end(core, after);
    }
}

proof fn lemma_trim_end(core: Seq<char>, after: Seq<char>)
    requires
        core.len() > 0,
        !is_whitespace(core[core.len() - 1]),
        forall|i: int| 0 <= i < after.len() ==> is_whitespace(#[trigger] after[i]),
    ensures
        trim_end(core + after) == core,
    decreases after.len(),
{
    let all = core + after;
    if after.len() > 0 {
        let rest = after.drop_last();
        assert forall|i: int| 0 <= i < rest.len() implies is_whitespace(#[trigger] rest[i]) by {
            assert(rest[i] == after[i]);
        }
        assert(all.last() == after[after.len() - 1]);
        assert(all.drop_last() =~= core + rest);
        lemma_trim_end(core, rest);
    } else {
        assert(all =~= core);
    }
}

/// The end of a line is taken off, all of it, and nothing else.
pub proof fn law_line_end_trimmed(line: Seq<char>, end: Seq<char>)
    requires
        line.len() > 0 ==> line[line.len() - 1] != '\r' && line[line.len() - 1] != '\n',
        forall|i: int| 0 <= i < end.len() ==> #[trigger] end[i] == '\r' || end[i] == '\n',
    ensures
        trim_line_end(line + end) == line,
    decreases end.len(),
{
    let all = line + end;
    if end.len() > 0 {
        let rest = end.drop_last();
        assert forall|i: int| 0 <= i < rest.len() implies #[trigger] rest[i] == '\r' || rest[i]
            == '\n' by {
            assert(rest[i] == end[i]);
        }
        assert(all.last() == end[end.len() - 1]);
        assert(all.drop_last() =~= line + rest);
        law_line_end_trimmed(line, rest);
    } else {
        assert(all =~= line);
    }
}

/// What follows a prefix is the rest of the text; a text that does not start with the
/// prefix has no such rest.
pub proof fn law_after_prefix(text: Seq<char>, prefix: Seq<char>, rest: Seq<char>)
    ensures
        after_prefix(text, prefix) == Some(rest) <==> text == prefix + rest,
{
    if text == prefix + rest {
        assert(prefix =~= text.subrange(0, prefix.len() as int));
        assert(text.skip(prefix.len() as int) =~= rest);
    }
    if after_prefix(text, prefix) == Some(rest) {
        assert(text =~= prefix + rest);
    }
}

/// The first line that is not blank is shown: behind blank lines, up to its own end, which
/// is a line feed with or without a carriage return.
pub proof fn law_headline_of_lines(blanks: Seq<char>, line: Seq<char>, rest: Seq<char>)
    requires
        blanks.len() > 0 ==> blanks[blanks.len() - 1] == '\n',
        forall|i: int| 0 <= i < blanks.len() ==> is_whitespace(#[trigger] blanks[i]),
        forall|i: int| 0 <= i < line.len() ==> #[trigger] line[i] != '\n',
        exists|i: int| 0 <= i < line.len() && !is_whitespace(#[trigger] line[i]),
    ensures
        headline(blanks + line + seq!['\n'] + rest) == if line[line.len() - 1] == '\r' {
            line.take(line.len() - 1)
        } else {
            line
        },
{
    let tail = line + seq!['\n'] + rest;
    assert(blanks + line + seq!['\n'] + rest =~= blanks + tail);
    lemma_blank_lines(blanks, tail);
    lemma_line_feed_unique(tail, line.len() as int);
    assert(tail.take(line.len() as int) =~= line);
    lemma_blank_line(line);
    assert(lines(tail)[0] == without_carriage_return(line));
}

/// A last line without an end of its own is shown as it is, and so is a text of blank lines.
pub proof fn law_headline_of_last_line(blanks: Seq<char>, line: Seq<char>)
    requires
        blanks.len() > 0 ==> blanks[blanks.len() - 1] == '\n',
        forall|i: int| 0 <= i < blanks.len() ==> is_whitespace(#[trigger] blanks[i]),
        forall|i: int| 0 <= i < line.len() ==> #[trigger] line[i] != '\n',
    ensures
        (exists|i: int| 0 <= i < line.len() && !is_whitespace(#[trigger] line[i])) ==> headline(
            blanks + line,
        ) == line,
        (forall|i: int| 0 <= i < line.len() ==> is_whitespace(#[trigger] line[i])) ==> headline(
            blanks + line,
        ) == blanks + line,
{
    lemma_blank_lines(blanks, line);
    lemma_line_feed_unique(line, line.len() as int);
    if line.len() > 0 {
        assert(lines(line) =~= seq![line]);
        assert(lines(line).skip(1) =~= Seq::empty());
        assert(first_non_blank(lines(line).skip(1)) is None);
    }
}

proof fn lemma_blank_lines(blanks: Seq<char>, tail: Seq<char>)
    requires
        blanks.len() > 0 ==> blanks[blanks.len() - 1] == '\n',
        forall|i: int| 0 <= i < blanks.len() ==> is_whitespace(#[trigger] blanks[i]),
    ensures
        first_non_blank(lines(blanks + tail)) == first_non_blank(lines(tail)),
    decreases blanks.len(),
{
    let all = blanks + tail;
    if blanks.len() == 0 {
        assert(all =~= tail);
    } else {
        lemma_line_feed_at(blanks);
        let n = line_feed_at(blanks);
        assert(n < blanks.len());
        assert forall|i: int| 0 <= i < n implies all[i] != '\n' by {
            assert(all[i] == blanks[i]);
        }
        assert(all[n] == blanks[n]);
        lemma_line_feed_unique(all, n);
        let line = all.take(n);
        assert forall|i: int| 0 <= i < line.len() implies is_whitespace(#[trigger] line[i]) by {
            assert(line[i] == blanks[i]);
        }
        lemma_blank_line(line);
        let rest = blanks.skip(n + 1);
        assert(all.skip(n + 1) =~= rest + tail);
        assert forall|i: int| 0 <= i < rest.len() implies is_whitespace(#[trigger] rest[i]) by {
            assert(rest[i] == blanks[i + n + 1]);
        }
        lemma_blank_lines(rest, tail);
        assert(lines(all) =~= seq![without_carriage_return(line)] + lines(rest + tail));
        assert(lines(all).skip(1) =~= lines(rest + tail));
    }
}

/// A text within the limit stays as it is; a longer one keeps as many characters as the
/// limit says, in order, and an ellipsis follows.
pub proof fn law_shortened(text: Seq<char>, max_chars: nat)
    ensures
        text.len() <= max_chars ==> shortened(text, max_chars) == text,
        text.len() > max_chars ==> {
            &&& shortened(text, max_chars).len() == max_chars + 1
            &&& forall|i: int|
                0 <= i < max_chars ==> #[trigger] shortened(text, max_chars)[i] == text[i]
            &&& shortened(text, max_chars)[max_chars as int] == '…'
        },
{
    reveal_strlit("…");
}

/// Lower case changes the 26 ASCII capitals, each to the letter 32 places on, and nothing
/// else.
pub proof fn law_ascii_lower(c: char)
    ensures
        'A' <= c <= 'Z' ==> ascii_lower(c) as u32 == c as u32 + 32,
        !('A' <= c <= 'Z') ==> ascii_lower(c) == c,
{
}

/// A numeral has the digits of its number, the last for what is left over by ten, and does
/// not start with a zero unless it is zero.
pub proof fn law_decimal_digits(n: nat)
    ensures
        decimal(n).len() >= 1,
        decimal(n)[decimal(n).len() - 1] as u32 == '0' as u32 + n % 10,
        n < 10 ==> decimal(n).len() == 1,
        n >= 10 ==> decimal(n).take(decimal(n).len() - 1) == decimal(n / 10),
        n > 0 ==> decimal(n)[0] != '0',
        forall|i: int| 0 <= i < decimal(n).len() ==> '0' <= #[trigger] decimal(n)[i] <= '9',
    decreases n,
{
    lemma_decimal_digits(n);
    assert forall|i: int| 0 <= i < decimal(n).len() implies '0' <= #[trigger] decimal(n)[i]
        <= '9' by {
        assert(is_digit(decimal(n)[i]));
    }
    if n >= 10 {
        law_decimal_digits(n / 10);
        assert(decimal(n).take(decimal(n).len() - 1) =~= decimal(n / 10));
        assert(decimal(n)[0] == decimal(n / 10)[0]);
    }
}

/// A negative number is written with a minus sign in front of its amount.
pub proof fn law_signed_decimal(n: nat)
    ensures
        signed_decimal(n as int) == decimal(n),
        n > 0 ==> signed_decimal(-(n as int)) == seq!['-'] + decimal(n),
{
}

/// A short text gets zeros in front until it is long enough; a long one stays.
pub proof fn law_zero_padded(text: Seq<char>, width: nat)
    ensures
        text.len() >= width ==> zero_padded(text, width) == text,
        text.len() < width ==> {
            &&& zero_padded(text, width).len() == width
            &&& zero_padded(text, width).skip(width - text.len()) == text
            &&& forall|i: int|
                0 <= i < width - text.len() ==> #[trigger] zero_padded(text, width)[i] == '0'
        },
    decreases width - text.len(),
{
    if text.len() < width {
        let longer = seq!['0'] + text;
        law_zero_padded(longer, width);
        let padded = zero_padded(text, width);
        assert(padded == zero_padded(longer, width));
        if longer.len() < width {
            assert forall|i: int| 0 <= i < width - text.len() implies #[trigger] padded[i] == '0' by {
                if i == width - longer.len() {
                    assert(padded.skip(width - longer.len())[0] == longer[0]);
                }
            }
            assert(padded.skip(width - text.len()) =~= padded.skip(width - longer.len()).skip(1));
            assert(longer.skip(1) =~= text);
        } else {
            assert(padded.skip(width - text.len()) =~= text);
        }
    }
}

/// Digits are read from the left, each making the number ten times as large.
pub proof fn law_digits_value(digits: Seq<char>, d: char)
    requires
        '0' <= d <= '9',
    ensures
        digits_value(digits.push(d)) == digits_value(digits) * 10 + (d as u32 - '0' as u32),
        digits_value(Seq::<char>::empty()) == 0,
{
    assert(digits.push(d).drop_last() =~= digits);
}

/// A text is a number when it has digits, one or more and nothing else, behind at most one
/// plus sign, and the number is not too large; it is then the number of its digits.
pub proof fn law_parsed_decimal(digits: Seq<char>, max: nat)
    requires
        digits.len() > 0 ==> digits[0] != '+',
    ensures
        ({
            let is_number = digits.len() > 0 && (forall|i: int|
                0 <= i < digits.len() ==> '0' <= #[trigger] digits[i] <= '9') && digits_value(digits)
                <= max;
            let expected = if is_number {
                Some(digits_value(digits))
            } else {
                None
            };
            &&& parsed_decimal(digits, max) == expected
            &&& parsed_decimal(seq!['+'] + digits, max) == expected
        }),
{
    let signed = seq!['+'] + digits;
    assert(signed.skip(1) =~= digits);
    assert(all_digits(digits) <==> forall|i: int|
        0 <= i < digits.len() ==> '0' <= #[trigger] digits[i] <= '9') by {
        if all_digits(digits) {
            assert forall|i: int| 0 <= i < digits.len() implies '0' <= #[trigger] digits[i]
                <= '9' by {
                assert(is_digit(digits[i]));
            }
        }
    }
}

/// A text of two plus signs or more is no number.
pub proof fn law_two_signs_are_no_number(rest: Seq<char>, max: nat)
    ensures
        parsed_decimal(seq!['+', '+'] + rest, max) is None,
{
    let text = seq!['+', '+'] + rest;
    assert(text.skip(1)[0] == '+');
    assert(!is_digit(text.skip(1)[0]));
}

} // verus!
