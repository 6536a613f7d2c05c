use lteman::strutil::{i64_to_string, last_token, str_eq, str_starts_with, u64_to_string};

#[test]
fn str_eq_basic() {
    assert!(str_eq("wwan0", "wwan0"));
    assert!(!str_eq("wwan0", "wwan1"));
    assert!(!str_eq("wwan0", "wwan01"));
    assert!(str_eq("", ""));
}

#[test]
fn starts_with_basic() {
    assert!(str_starts_with("nameserver 8.8.8.8", "nameserver"));
    assert!(str_starts_with("nameserver", "nameserver"));
    assert!(!str_starts_with("name", "nameserver"));
    assert!(!str_starts_with("# nameserver", "nameserver"));
    assert!(str_starts_with("anything", ""));
}

#[test]
fn decimal_rendering() {
    assert_eq!(u64_to_string(0), "0");
    assert_eq!(u64_to_string(7), "7");
    assert_eq!(u64_to_string(32), "32");
    assert_eq!(u64_to_string(1234567890), "1234567890");
    assert_eq!(i64_to_string(24), "24");
    assert_eq!(i64_to_string(0), "0");
    assert_eq!(i64_to_string(-5), "-5");
    assert_eq!(i64_to_string(-128), "-128");
    assert_eq!(i64_to_string(i64::MIN), "-9223372036854775808");
}

#[test]
fn last_token_basic() {
    assert_eq!(last_token("nameserver 8.8.8.8"), "8.8.8.8");
    assert_eq!(last_token("nameserver"), "nameserver");
    assert_eq!(last_token("a b   c  "), "c");
    assert_eq!(last_token("   "), "");
    assert_eq!(last_token(""), "");
    assert_eq!(last_token("nameserver\u{a0}1.1.1.1\u{2028}"), "1.1.1.1");
}
