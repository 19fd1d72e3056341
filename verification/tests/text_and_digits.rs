use dormtk::digits::{format_u64, hex_encode, parse_u16, parse_u64};
use dormtk::text::{concat2, concat3, is_blank, str_eq, trim};
use dormtk::validation::validate_non_empty;

#[test]
fn trim_removes_unicode_white_space_at_both_ends() {
    assert_eq!(trim("  hello \t\n"), "hello");
    assert_eq!(trim("\u{3000}名字\u{00A0}"), "名字");
    assert_eq!(trim("a b"), "a b");
    assert_eq!(trim("   "), "");
    assert_eq!(trim(""), "");
    assert_eq!(trim(trim("  x  ")), trim("  x  "));
}

#[test]
fn blank_means_only_white_space() {
    assert!(is_blank(""));
    assert!(is_blank(" \t\r\n\u{2003}"));
    assert!(!is_blank(" x "));
}

#[test]
fn validate_non_empty_names_the_field() {
    assert!(validate_non_empty("room 1", "room_no").is_ok());
    let e = validate_non_empty("   ", "room_no").unwrap_err();
    assert_eq!(e.status(), 400);
    assert_eq!(e.code(), "bad_request");
    assert_eq!(e.message, "room_no must not be empty");
}

#[test]
fn string_helpers_compare_and_join() {
    assert!(str_eq("abc", "abc"));
    assert!(!str_eq("abc", "abd"));
    assert!(!str_eq("abc", "ab"));
    assert_eq!(concat2("a", "bc"), "abc");
    assert_eq!(concat3("a", "b", "c"), "abc");
}

#[test]
fn decimal_writing_and_reading() {
    assert_eq!(format_u64(0), "0");
    assert_eq!(format_u64(5432), "5432");
    assert_eq!(format_u64(u64::MAX), "18446744073709551615");
    assert_eq!(parse_u64(&format_u64(123456789)), Some(123456789));
    assert_eq!(parse_u64("+17"), Some(17));
    assert_eq!(parse_u64("007"), Some(7));
    assert_eq!(parse_u64("-1"), None);
    assert_eq!(parse_u64("1_000"), None);
    assert_eq!(parse_u64("18446744073709551616"), None);
    assert_eq!(parse_u16("65535"), Some(65535));
    assert_eq!(parse_u16("65536"), None);
}

#[test]
fn hex_encoding_is_lower_case_two_digits_per_byte() {
    assert_eq!(hex_encode(&[]), "");
    assert_eq!(hex_encode(&[0x00, 0x0f, 0xa0, 0xff]), "000fa0ff");
    assert_eq!(hex_encode(&[0xbe, 0xef]).len(), 4);
}
