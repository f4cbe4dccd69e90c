use nullith::number::{decimal_string, hex_string, parse_i64};
use nullith::text::{chars_equal, chars_of, ends_with, string_from_chars, strip_prefix};

#[test]
fn decimal_rendering() {
    assert_eq!(decimal_string(0), "0");
    assert_eq!(decimal_string(7), "7");
    assert_eq!(decimal_string(42), "42");
    assert_eq!(decimal_string(1000), "1000");
    assert_eq!(decimal_string(u64::MAX), "18446744073709551615");
}

#[test]
fn hex_rendering() {
    assert_eq!(hex_string(0), "0");
    assert_eq!(hex_string(255), "ff");
    assert_eq!(hex_string(0xdead_beef), "deadbeef");
    assert_eq!(hex_string(u64::MAX), "ffffffffffffffff");
}

#[test]
fn parse_accepts_what_std_accepts() {
    for s in ["0", "42", "-5", "+7", "007", "-0", "9223372036854775807", "-9223372036854775808"] {
        assert_eq!(parse_i64(s), s.parse::<i64>().ok(), "{}", s);
    }
}

#[test]
fn parse_refuses_what_std_refuses() {
    for s in ["", "-", "+", "abc", "12a", " 1", "1 ", "--1", "+-1", "9223372036854775808", "-9223372036854775809", "99999999999999999999999", "١٢"] {
        assert_eq!(parse_i64(s), None, "{}", s);
        assert!(s.parse::<i64>().is_err());
    }
}

#[test]
fn parse_decimal_roundtrip() {
    for n in [0u64, 1, 9, 10, 12345, 9223372036854775807] {
        assert_eq!(parse_i64(&decimal_string(n)), Some(n as i64));
    }
}

#[test]
fn suffix_and_prefix() {
    assert!(ends_with("/api/logs", "logs"));
    assert!(ends_with("logs", "logs"));
    assert!(!ends_with("/api/logs/", "logs"));
    assert!(!ends_with("ogs", "logs"));
    assert!(ends_with("x", ""));
    assert_eq!(strip_prefix("/trash/12", "/trash/"), Some("12".to_string()));
    assert_eq!(strip_prefix("/trash/", "/trash/"), Some(String::new()));
    assert_eq!(strip_prefix("/trsh/12", "/trash/"), None);
    assert_eq!(strip_prefix("/tr", "/trash/"), None);
}

#[test]
fn char_helpers() {
    let v = chars_of("héllo");
    assert_eq!(v, vec!['h', 'é', 'l', 'l', 'o']);
    assert_eq!(string_from_chars(&v, 1, 4), "éll");
    assert!(chars_equal(&v, &chars_of("héllo")));
    assert!(!chars_equal(&v, &chars_of("hello")));
}
