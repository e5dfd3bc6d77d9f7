//! Numbers, lines and fields.

use uds_policy::text::{
    blank, bounded_line, chars_of, decimal_text, fields_of, is_word_ignoring_case, lines_of,
    parse_number, same_text, signed_decimal_text, text_of, trim, NumberError,
};
use uds_policy::{Duration, Instant, FRAMEWORK_NAME, FRAMEWORK_VERSION};

fn spell(parts: Vec<Vec<char>>) -> Vec<String> {
    parts.iter().map(|part| text_of(part)).collect()
}

/// The lines, fields and blanks here are those of the standard library.
#[test]
fn texts_are_cut_up_as_everywhere_else() {
    for text in [
        "", "\n", "\r\n", "a", "a\n", "a\r\nb", "a\r", "\r\r\n\n x y ", "\u{a0}a\u{2028}b\u{b}c",
        "one two\tthree", " lead", "trail ",
    ] {
        let chars = chars_of(text);
        assert_eq!(spell(lines_of(&chars)), text.lines().collect::<Vec<_>>());
        assert_eq!(spell(fields_of(&chars)), text.split_whitespace().collect::<Vec<_>>());
        assert_eq!(text_of(&trim(&chars)), text.trim());
    }
    for code in 0..=0x10ffff {
        if let Some(c) = char::from_u32(code) {
            assert_eq!(blank(c), c.is_whitespace(), "{code:x}");
        }
    }
}

#[test]
fn numbers_are_written_and_read_back() {
    for n in [0, 1, 9, 10, 99, 100, 65_535, 18_446_744_073_709_551_615] {
        let text = decimal_text(n as u128);
        assert_eq!(text, n.to_string());
        assert_eq!(parse_number(&chars_of(&text), u64::MAX), Ok(n));
    }
    assert_eq!(decimal_text(u128::MAX), u128::MAX.to_string());
    for n in [i32::MIN, -1, 0, 1, i32::MAX] {
        assert_eq!(signed_decimal_text(n), n.to_string());
    }
}

#[test]
fn faulty_numbers_are_told_apart() {
    let read = |text: &str| parse_number(&chars_of(text), 255);
    assert_eq!(read("255"), Ok(255));
    assert_eq!(read("+0"), Ok(0));
    assert_eq!(read(""), Err(NumberError::Empty));
    assert_eq!(read("+"), Err(NumberError::InvalidDigit));
    assert_eq!(read("++1"), Err(NumberError::InvalidDigit));
    assert_eq!(read("256"), Err(NumberError::TooLarge));
    assert_eq!(read("25x"), Err(NumberError::InvalidDigit));
    assert_eq!(read("999x"), Err(NumberError::TooLarge));
    assert_eq!(NumberError::Empty.text(), "cannot parse integer from empty string");
    assert_eq!(NumberError::InvalidDigit.text(), "invalid digit found in string");
    assert_eq!(NumberError::TooLarge.text(), "number too large to fit in target type");
}

#[test]
fn texts_are_compared_and_bounded() {
    assert!(same_text("é", "é"));
    assert!(!same_text("a", "b"));
    assert!(!same_text("a", "aa"));
    assert!(is_word_ignoring_case(&chars_of("Content-LENGTH"), "content-length"));
    assert!(!is_word_ignoring_case(&chars_of("content-lengtH "), "content-length"));
    assert!(!is_word_ignoring_case(&chars_of("É"), "é"));
    assert_eq!(bounded_line("a\nb\rc", 4), "a b ");
    assert_eq!(bounded_line("ab", 4), "ab");
}

#[test]
fn spans_are_exact() {
    let span = Duration::new(3, 4_005_006);
    assert_eq!(span.as_secs(), 3);
    assert_eq!(span.subsec_nanos(), 4_005_006);
    assert_eq!(span.as_millis(), 3_004);
    assert_eq!(span.as_micros(), 3_004_005);
    assert_eq!(Duration::from_millis(2).times(3), Duration::from_micros(6_000));
    assert!(span.at_most(&span));
    assert!(!span.at_most(&Duration::from_secs(3)));
    let early = Instant::at(Duration::from_secs(1));
    let late = early.later_by(span);
    assert_eq!(late.saturating_duration_since(early), span);
    assert_eq!(early.saturating_duration_since(late), Duration::from_secs(0));
}

#[test]
fn the_crate_says_what_it_is() {
    assert_eq!(FRAMEWORK_NAME, "uds-policy");
    assert_eq!(FRAMEWORK_VERSION, "0.1.0");
}
