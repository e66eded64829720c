use copilot_helix::text::{
    concat3, decimal_text, first_line, pad_with_zeros, parse_decimal,
    same_ignoring_ascii_case, same_text, shorten, signed_decimal_text, strip_prefix, trim,
    trim_newlines, whitespace,
};

#[test]
fn numerals_are_read_as_they_are_written() {
    for n in [0, 7, 10, 42, 999, 1000, 1234567890, u32::MAX as usize] {
        assert_eq!(decimal_text(n as u64), format!("{n}"));
        assert_eq!(parse_decimal(&decimal_text(n as u64)), Some(n));
    }
    assert_eq!(decimal_text(u64::MAX), "18446744073709551615");
}

#[test]
fn signed_numerals_have_a_sign() {
    for n in [0, 5, -5, 10, -32603, i64::MAX, i64::MIN] {
        assert_eq!(signed_decimal_text(n), format!("{n}"));
    }
}

#[test]
fn numbers_are_parsed_like_usize() {
    for text in ["0", "007", "+12", "18446744073709551615", "18446744073709551616", "", "+", "-1", "1 ", "1_0", "٣"] {
        assert_eq!(parse_decimal(text), text.parse::<usize>().ok(), "{text:?}");
    }
}

#[test]
fn short_numerals_are_padded() {
    assert_eq!(pad_with_zeros("7", 4), "0007");
    assert_eq!(pad_with_zeros("1234", 4), "1234");
    assert_eq!(pad_with_zeros("12345", 4), "12345");
    assert_eq!(pad_with_zeros("", 2), "00");
}

#[test]
fn whitespace_is_that_of_unicode() {
    for code in 0..=0x10ffff {
        if let Some(c) = char::from_u32(code) {
            assert_eq!(whitespace(c), c.is_whitespace(), "{c:?}");
        }
    }
}

#[test]
fn texts_are_trimmed_at_both_ends() {
    for text in ["", " ", "a", " a b ", "\u{2003}ä\u{a0}\n", "\r\nx\r\n"] {
        assert_eq!(trim(text), text.trim());
        assert_eq!(trim_newlines(text), text.trim_end_matches(['\r', '\n']));
    }
}

#[test]
fn prefixes_are_removed() {
    assert_eq!(strip_prefix("Content-Length: 3", "Content-Length:"), Some(" 3"));
    assert_eq!(strip_prefix("Content-Length", "Content-Length:"), None);
    assert_eq!(strip_prefix("content-length: 3", "Content-Length:"), None);
    assert_eq!(strip_prefix("äöü", "äö"), Some("ü"));
    assert_eq!(strip_prefix("x", ""), Some("x"));
}

#[test]
fn first_line_is_the_first_that_is_not_blank() {
    for text in ["", "a", "\n\nb\nc", " \r\n x\r\ny", "\r", "a\r", " \n\t\n", "x\r\r\ny"] {
        let want = text.lines().find(|line| !line.trim().is_empty()).unwrap_or(text);
        assert_eq!(first_line(text), want, "{text:?}");
    }
}

#[test]
fn long_texts_are_shortened() {
    assert_eq!(shorten("abc", 3), "abc");
    assert_eq!(shorten("abcd", 3), "abc…");
    assert_eq!(shorten("é", 0), "…");
    assert_eq!(shorten("", 0), "");
}

#[test]
fn texts_are_compared_by_their_characters() {
    assert!(same_text("", ""));
    assert!(same_text("äb", "äb"));
    assert!(!same_text("ab", "abc"));
    assert!(!same_text("ab", "aB"));
    assert!(same_ignoring_ascii_case("YeS", "yes"));
    assert!(!same_ignoring_ascii_case("Ä", "ä"));
    assert!(!same_ignoring_ascii_case("y", "yes"));
}

#[test]
fn texts_are_joined() {
    assert_eq!(copilot_helix::text::concat("a", "bc"), "abc");
    assert_eq!(concat3("a", "", "c"), "ac");
}
