use user_server::text::{i32_dec_string, latency_label, parse_i32, str_eq, u64_dec_string};

#[test]
fn renders_zero() {
    assert_eq!(u64_dec_string(0).as_str(), "0");
    assert_eq!(i32_dec_string(0).as_str(), "0");
}

#[test]
fn renders_positive() {
    assert_eq!(u64_dec_string(42).as_str(), "42");
    assert_eq!(u64_dec_string(1000).as_str(), "1000");
    assert_eq!(i32_dec_string(2147483647).as_str(), "2147483647");
}

#[test]
fn renders_negative() {
    assert_eq!(i32_dec_string(-1).as_str(), "-1");
    assert_eq!(i32_dec_string(-2147483648).as_str(), "-2147483648");
}

#[test]
fn parses_plain_numbers() {
    assert_eq!(parse_i32("42"), Some(42));
    assert_eq!(parse_i32("0"), Some(0));
    assert_eq!(parse_i32("2147483647"), Some(2147483647));
}

#[test]
fn parses_negative_numbers() {
    assert_eq!(parse_i32("-1"), Some(-1));
    assert_eq!(parse_i32("-2147483648"), Some(-2147483648));
}

#[test]
fn rejects_out_of_range() {
    assert_eq!(parse_i32("2147483648"), None);
    assert_eq!(parse_i32("-2147483649"), None);
    assert_eq!(parse_i32("99999999999999999999"), None);
}

#[test]
fn rejects_malformed_numbers() {
    assert_eq!(parse_i32(""), None);
    assert_eq!(parse_i32("-"), None);
    assert_eq!(parse_i32("12a"), None);
    assert_eq!(parse_i32("a12"), None);
    assert_eq!(parse_i32("1 2"), None);
}

#[test]
fn parse_inverts_rendering() {
    for n in [0, 1, -1, 7, 1000, -1000, 2147483647, -2147483648] {
        assert_eq!(parse_i32(i32_dec_string(n).as_str()), Some(n));
    }
}

#[test]
fn latency_uses_milliseconds_when_at_least_one() {
    assert_eq!(latency_label(1000).as_str(), "1 ms");
    assert_eq!(latency_label(2500).as_str(), "2 ms");
}

#[test]
fn latency_uses_microseconds_below_one_millisecond() {
    assert_eq!(latency_label(0).as_str(), "0 \u{3bc}s");
    assert_eq!(latency_label(999).as_str(), "999 \u{3bc}s");
}

#[test]
fn string_equality_is_by_characters() {
    assert!(str_eq("abc", "abc"));
    assert!(!str_eq("abc", "abd"));
    assert!(!str_eq("abc", "ab"));
    assert!(str_eq("", ""));
}
