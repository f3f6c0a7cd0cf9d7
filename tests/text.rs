use codex_translate::text::{decimal_string, parse_u64, str_eq};

#[test]
fn decimal_and_parse() {
    assert_eq!(decimal_string(0), "0");
    assert_eq!(decimal_string(5000), "5000");
    assert_eq!(decimal_string(u64::MAX), "18446744073709551615");
    assert_eq!(parse_u64("+12"), Some(12));
    assert_eq!(parse_u64("+"), None);
    assert_eq!(parse_u64("1 2"), None);
    assert!(str_eq("abc", "abc"));
    assert!(!str_eq("abc", "abd"));
}
