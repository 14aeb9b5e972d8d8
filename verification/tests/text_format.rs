use burgonet::config::QuotaPeriod;
use burgonet::numfmt::u64_to_dec;
use burgonet::text::{
    split_csv_trim, str_contains, str_eq, str_replace_all, strip_prefix_str, trim_str,
};

#[test]
fn decimal_rendering() {
    assert_eq!(u64_to_dec(0), "0");
    assert_eq!(u64_to_dec(7), "7");
    assert_eq!(u64_to_dec(1234567890), "1234567890");
    assert_eq!(u64_to_dec(u64::MAX), "18446744073709551615");
}

#[test]
fn quota_period_to_string() {
    let q = QuotaPeriod { second: 1, minute: 2, hour: 3, day: 4, week: 5, month: 6 };
    assert_eq!(
        q.to_string(),
        "second: 1, minute: 2, hour: 3, day: 4, week: 5, month: 6"
    );
}

#[test]
fn quota_period_new_is_zero() {
    let q = QuotaPeriod::new();
    assert_eq!(q.second, 0);
    assert_eq!(q.minute, 0);
    assert_eq!(q.hour, 0);
    assert_eq!(q.day, 0);
    assert_eq!(q.week, 0);
    assert_eq!(q.month, 0);
}

#[test]
fn trimming() {
    assert_eq!(trim_str("  admin  "), "admin");
    assert_eq!(trim_str("\t it\r\n"), "it");
    assert_eq!(trim_str(""), "");
    assert_eq!(trim_str("   "), "");
}

#[test]
fn csv_splitting() {
    let parts = split_csv_trim("admin, it ,hr");
    assert_eq!(parts, vec!["admin".to_string(), "it".to_string(), "hr".to_string()]);
    let single = split_csv_trim("alone");
    assert_eq!(single, vec!["alone".to_string()]);
    let empties = split_csv_trim("a,,b");
    assert_eq!(empties, vec!["a".to_string(), "".to_string(), "b".to_string()]);
    let empty = split_csv_trim("");
    assert_eq!(empty, vec!["".to_string()]);
}

#[test]
fn substring_search() {
    assert!(str_contains("hello world", "lo wo"));
    assert!(str_contains("hello", ""));
    assert!(!str_contains("hello", "world"));
    assert!(!str_contains("hi", "hello"));
}

#[test]
fn string_equality_and_prefix() {
    assert!(str_eq("abc", "abc"));
    assert!(!str_eq("abc", "abd"));
    assert_eq!(
        strip_prefix_str("Bearer tok-123", "Bearer "),
        Some("tok-123".to_string())
    );
    assert_eq!(strip_prefix_str("Basic xyz", "Bearer "), None);
    assert_eq!(strip_prefix_str("Be", "Bearer "), None);
}

#[test]
fn replace_all_occurrences() {
    assert_eq!(str_replace_all("a$K/b$K", "$K", "zzz"), "azzz/bzzz");
    assert_eq!(str_replace_all("nothing here", "$K", "zzz"), "nothing here");
    assert_eq!(str_replace_all("$K", "$K", ""), "");
}
