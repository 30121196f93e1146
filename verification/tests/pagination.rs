use echo_core::pagination::validate_pagination;
use echo_core::pagination::Pagination;
use echo_core::strutil::i64_to_string;
use echo_core::strutil::str_eq;
use echo_core::strutil::u64_to_string;

#[test]
fn limit_defaults_to_maximum() {
    let p = Pagination { limit: None, offset: None };
    assert_eq!(p.limit().unwrap(), 100);
}

#[test]
fn limit_within_bounds_is_kept() {
    let p = Pagination { limit: Some(25), offset: None };
    assert_eq!(p.limit().unwrap(), 25);
}

#[test]
fn limit_above_maximum_is_rejected() {
    let p = Pagination { limit: Some(101), offset: None };
    let err = p.limit().unwrap_err();
    assert_eq!(err.0, "Limit too high: maximum allowed is 100");
}

#[test]
fn offset_defaults_to_zero() {
    let p = Pagination { limit: None, offset: None };
    assert_eq!(p.offset(), 0);
    let p = Pagination { limit: None, offset: Some(30) };
    assert_eq!(p.offset(), 30);
}

#[test]
fn sql_clause_renders_both_values() {
    let p = Pagination { limit: Some(10), offset: Some(20) };
    assert_eq!(p.sql_clause().unwrap(), "LIMIT 10 OFFSET 20");
}

#[test]
fn sql_clause_uses_defaults() {
    let p = Pagination { limit: None, offset: None };
    assert_eq!(p.sql_clause().unwrap(), "LIMIT 100 OFFSET 0");
}

#[test]
fn sql_clause_keeps_negative_values() {
    let p = Pagination { limit: Some(-1), offset: Some(-5) };
    assert_eq!(p.sql_clause().unwrap(), "LIMIT -1 OFFSET -5");
}

#[test]
fn sql_clause_rejects_high_limit() {
    let p = Pagination { limit: Some(1000), offset: None };
    assert!(p.sql_clause().is_err());
}

#[test]
fn validate_pagination_accepts_and_rejects() {
    assert_eq!(validate_pagination(&Pagination { limit: None, offset: None }).unwrap(), (100, 0));
    assert_eq!(
        validate_pagination(&Pagination { limit: Some(7), offset: Some(3) }).unwrap(),
        (7, 3)
    );
    let err = validate_pagination(&Pagination { limit: Some(200), offset: None }).unwrap_err();
    assert_eq!(err.0, "Limit too high: maximum allowed is 100");
}

#[test]
fn decimal_rendering() {
    assert_eq!(u64_to_string(0), "0");
    assert_eq!(u64_to_string(7), "7");
    assert_eq!(u64_to_string(1234567890), "1234567890");
    assert_eq!(u64_to_string(u64::MAX), "18446744073709551615");
    assert_eq!(i64_to_string(0), "0");
    assert_eq!(i64_to_string(-1), "-1");
    assert_eq!(i64_to_string(i64::MAX), "9223372036854775807");
    assert_eq!(i64_to_string(i64::MIN), "-9223372036854775808");
}

#[test]
fn string_equality_is_exact() {
    assert!(str_eq("", ""));
    assert!(str_eq("abc", "abc"));
    assert!(!str_eq("abc", "abd"));
    assert!(!str_eq("abc", "abcd"));
    assert!(!str_eq("Abc", "abc"));
}
