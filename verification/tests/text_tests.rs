use messaging_mediator::text::{
    byte_length, decimal, find_from, matches_at, parse_bool, parse_unsigned, slice_chars,
    starts_with, str_eq, with_number,
};

#[test]
fn unsigned_numbers_are_read_as_decimal() {
    assert_eq!(parse_unsigned("0", 100), Some(0));
    assert_eq!(parse_unsigned("42", 100), Some(42));
    assert_eq!(parse_unsigned("+42", 100), Some(42));
    assert_eq!(parse_unsigned("007", 100), Some(7));
    assert_eq!(parse_unsigned("100", 100), Some(100));
    assert_eq!(parse_unsigned("101", 100), None);
    assert_eq!(parse_unsigned("", 100), None);
    assert_eq!(parse_unsigned("+", 100), None);
    assert_eq!(parse_unsigned("-1", 100), None);
    assert_eq!(parse_unsigned("1 ", 100), None);
    assert_eq!(parse_unsigned(" 1", 100), None);
    assert_eq!(parse_unsigned("1_0", 100), None);
    assert_eq!(parse_unsigned("++1", 100), None);
    assert_eq!(parse_unsigned("١", 100), None);
    assert_eq!(parse_unsigned("18446744073709551615", u64::MAX), Some(u64::MAX));
    assert_eq!(parse_unsigned("18446744073709551616", u64::MAX), None);
    assert_eq!(parse_unsigned("99999999999999999999999", u64::MAX), None);
}

#[test]
fn unsigned_numbers_agree_with_the_standard_parser() {
    for s in ["0", "1", "+5", "4294967295", "4294967296", "", "x", "12a", "+", "-0", "00"] {
        assert_eq!(
            parse_unsigned(s, u32::MAX as u64),
            s.parse::<u32>().ok().map(|v| v as u64),
            "{:?}",
            s
        );
    }
}

#[test]
fn booleans_are_spelled_exactly() {
    assert_eq!(parse_bool("true"), Some(true));
    assert_eq!(parse_bool("false"), Some(false));
    assert_eq!(parse_bool("True"), None);
    assert_eq!(parse_bool(""), None);
    assert_eq!(parse_bool("1"), None);
}

#[test]
fn patterns_are_found_by_character_position() {
    assert!(str_eq("abc", "abc"));
    assert!(!str_eq("abc", "abd"));
    assert!(starts_with("hostname://x", "hostname://"));
    assert!(!starts_with("host", "hostname://"));
    assert!(starts_with("abc", ""));
    assert!(matches_at("é://x", "://", 1));
    assert!(!matches_at("é://x", "://", 2));
    assert!(!matches_at("abc", "bc", 2));
    assert_eq!(find_from("a://b://c", "://", 0), Some(1));
    assert_eq!(find_from("a://b://c", "://", 2), Some(5));
    assert_eq!(find_from("a://b://c", "://", 6), None);
    assert_eq!(find_from("abc", "", 3), Some(3));
    assert_eq!(find_from("abc", "x", 7), None);
    assert_eq!(slice_chars("héllo", 1, 3), "él");
    assert_eq!(byte_length("héllo"), 6);
}

#[test]
fn numbers_are_written_in_decimal() {
    for n in [0u64, 1, 9, 10, 11, 99, 100, 101, 4294967295, 4294967296, u64::MAX - 1, u64::MAX] {
        assert_eq!(decimal(n), n.to_string());
        assert_eq!(parse_unsigned(&decimal(n), u64::MAX), Some(n));
    }
    assert_eq!(with_number("a(", 42, ")b"), "a(42)b");
    assert_eq!(with_number("", 0, ""), "0");
}
