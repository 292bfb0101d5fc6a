use whisperkeys::text::{format_number, parse_number, same_text};

#[test]
fn plain_numbers_parse() {
    assert_eq!(parse_number("0"), Some(0));
    assert_eq!(parse_number("50"), Some(50));
    assert_eq!(parse_number("100"), Some(100));
    assert_eq!(parse_number("007"), Some(7));
    assert_eq!(parse_number("4294967295"), Some(u32::MAX));
}

#[test]
fn a_leading_plus_is_accepted() {
    assert_eq!(parse_number("+7"), Some(7));
    assert_eq!(parse_number("+0"), Some(0));
}

#[test]
fn what_is_no_number_is_rejected() {
    assert_eq!(parse_number(""), None);
    assert_eq!(parse_number("+"), None);
    assert_eq!(parse_number("-1"), None);
    assert_eq!(parse_number("++1"), None);
    assert_eq!(parse_number(" 5"), None);
    assert_eq!(parse_number("5 "), None);
    assert_eq!(parse_number("12a"), None);
    assert_eq!(parse_number("a12"), None);
    assert_eq!(parse_number("1.5"), None);
    assert_eq!(parse_number("loud"), None);
    assert_eq!(parse_number("\u{ff15}"), None);
    assert_eq!(parse_number("5\u{e9}"), None);
}

#[test]
fn numbers_that_do_not_fit_are_rejected() {
    assert_eq!(parse_number("4294967296"), None);
    assert_eq!(parse_number("4294967300"), None);
    assert_eq!(parse_number("99999999999999999999"), None);
    assert_eq!(parse_number("00000000004294967295"), Some(u32::MAX));
}

#[test]
fn parse_agrees_with_std() {
    for text in ["", "0", "+", "+12", "-3", "42", "0042", "4294967295", "4294967296", "1e3", "\u{663}"] {
        assert_eq!(parse_number(text), text.parse::<u32>().ok(), "{text:?}");
    }
}

#[test]
fn numbers_are_written_in_decimal() {
    assert_eq!(format_number(0), "0");
    assert_eq!(format_number(7), "7");
    assert_eq!(format_number(10), "10");
    assert_eq!(format_number(2024), "2024");
    assert_eq!(format_number(u32::MAX), "4294967295");
}

#[test]
fn written_numbers_read_back() {
    for n in [0u32, 1, 9, 10, 99, 100, 101, 65535, 65536, 999_999, u32::MAX] {
        assert_eq!(parse_number(&format_number(n)), Some(n));
    }
}

#[test]
fn texts_compare_by_their_characters() {
    assert!(same_text("", ""));
    assert!(same_text("Unknown", "Unknown"));
    assert!(!same_text("Unknown", "unknown"));
    assert!(!same_text("KeyA", "KeyAB"));
    assert!(!same_text("KeyA", "KeyB"));
    assert!(same_text("\u{e9}t\u{e9}", "\u{e9}t\u{e9}"));
}
