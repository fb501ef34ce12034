use pm_service::util::number::{i32_to_string, parse_i32, parse_i64};
use pm_service::util::text::{is_blank_str, trim, trim_start_matches};

#[test]
fn trim_drops_unicode_whitespace_at_both_ends() {
    assert_eq!(trim("  hello world \t\n"), "hello world");
    assert_eq!(trim("\u{3000}x\u{a0}"), "x");
    assert_eq!(trim("   "), "");
    assert_eq!(trim(""), "");
    assert_eq!(trim("a b"), "a b");
}

#[test]
fn blank_texts() {
    assert!(is_blank_str(" \t "));
    assert!(is_blank_str(""));
    assert!(!is_blank_str(" a "));
}

#[test]
fn trim_start_matches_removes_every_leading_copy() {
    assert_eq!(trim_start_matches("Bearer Bearer x", "Bearer "), "x");
    assert_eq!(trim_start_matches("xBearer ", "Bearer "), "xBearer ");
    assert_eq!(trim_start_matches("", "ab"), "");
}

#[test]
fn parse_i32_follows_from_str() {
    assert_eq!(parse_i32("42"), Some(42));
    assert_eq!(parse_i32("+7"), Some(7));
    assert_eq!(parse_i32("-2147483648"), Some(i32::MIN));
    assert_eq!(parse_i32("2147483647"), Some(i32::MAX));
    assert_eq!(parse_i32("2147483648"), None);
    assert_eq!(parse_i32("-2147483649"), None);
    assert_eq!(parse_i32(""), None);
    assert_eq!(parse_i32("-"), None);
    assert_eq!(parse_i32("+"), None);
    assert_eq!(parse_i32(" 1"), None);
    assert_eq!(parse_i32("1a"), None);
    assert_eq!(parse_i32("007"), Some(7));
    for s in ["42", "+7", "-0", "2147483648", "", "-", "x", "99999999999999999999"] {
        assert_eq!(parse_i32(s), s.parse::<i32>().ok(), "input {:?}", s);
    }
}

#[test]
fn parse_i64_follows_from_str() {
    for s in ["3600", "-1", "9223372036854775807", "9223372036854775808", "-9223372036854775808", "-9223372036854775809", "abc", "+0"] {
        assert_eq!(parse_i64(s), s.parse::<i64>().ok(), "input {:?}", s);
    }
}

#[test]
fn decimal_text_of_i32() {
    for n in [0, 7, -7, 10, 123456, i32::MAX, i32::MIN] {
        assert_eq!(i32_to_string(n), n.to_string());
        assert_eq!(parse_i32(&i32_to_string(n)), Some(n));
    }
}
