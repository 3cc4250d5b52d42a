use proprion::text::{decimal_string, join2, same, starts_with, strip_prefix};

#[test]
fn decimal_numerals() {
    assert_eq!(decimal_string(0), "0");
    assert_eq!(decimal_string(7), "7");
    assert_eq!(decimal_string(10), "10");
    assert_eq!(decimal_string(600), "600");
    assert_eq!(decimal_string(1_700_000_600), "1700000600");
    assert_eq!(decimal_string(18446744073709551615), "18446744073709551615");
    assert_eq!(decimal_string(18446744073709552215), "18446744073709552215");
    assert_eq!(
        decimal_string(u128::MAX),
        "340282366920938463463374607431768211455"
    );
}

#[test]
fn joining() {
    assert_eq!(join2("app-", "svc"), "app-svc");
    assert_eq!(join2("", ""), "");
    assert_eq!(join2("é", "ü"), "éü");
}

#[test]
fn sameness() {
    assert!(same("", ""));
    assert!(same("abc", "abc"));
    assert!(!same("abc", "abd"));
    assert!(!same("abc", "ab"));
    assert!(!same("é", "e"));
}

#[test]
fn prefixes() {
    assert!(starts_with("proprion-svc", "proprion-"));
    assert!(starts_with("proprion-", "proprion-"));
    assert!(starts_with("anything", ""));
    assert!(!starts_with("proprio", "proprion-"));
    assert!(!starts_with("Proprion-svc", "proprion-"));
    assert!(starts_with("éclair", "é"));
    assert!(!starts_with("eclair", "é"));
    assert_eq!(strip_prefix("proprion-svc", "proprion-"), Some("svc"));
    assert_eq!(strip_prefix("proprion-", "proprion-"), Some(""));
    assert_eq!(strip_prefix("svc", "proprion-"), None);
    assert_eq!(strip_prefix("éclair", "é"), Some("clair"));
}
