use std::time::SystemTime;
use std::time::UNIX_EPOCH;

use echo_core::token::generate_jwt;
use echo_core::token::verify_jwt;
use echo_core::token::TOKEN_LIFETIME_SECONDS;

const SECRET: &[u8] = b"unit-test-signing-secret";

fn now_ts() -> i64 {
    SystemTime::now().duration_since(UNIX_EPOCH).unwrap().as_secs() as i64
}

#[test]
fn issued_token_verifies_and_carries_subject() {
    let now = now_ts();
    let token = generate_jwt("user-42", SECRET, now);
    let claims = verify_jwt(&token, SECRET).expect("freshly issued token must verify");
    assert_eq!(claims.sub, "user-42");
    assert_eq!(claims.exp, now + TOKEN_LIFETIME_SECONDS);
}

#[test]
fn issuance_is_deterministic() {
    let now = now_ts();
    assert_eq!(generate_jwt("user-42", SECRET, now), generate_jwt("user-42", SECRET, now));
}

#[test]
fn wrong_secret_fails_verification() {
    let token = generate_jwt("user-42", SECRET, now_ts());
    assert!(verify_jwt(&token, b"another-secret").is_none());
}

#[test]
fn empty_token_fails_verification() {
    assert!(verify_jwt("", SECRET).is_none());
}

#[test]
fn malformed_token_fails_verification() {
    assert!(verify_jwt("not-a-token", SECRET).is_none());
    assert!(verify_jwt("a.b.c", SECRET).is_none());
}

#[test]
fn tampered_token_fails_verification() {
    let token = generate_jwt("user-42", SECRET, now_ts());
    let mut tampered = token.clone();
    tampered.pop();
    assert!(verify_jwt(&tampered, SECRET).is_none());
}

#[test]
fn expired_token_fails_verification() {
    let issued_long_ago = now_ts() - 3 * TOKEN_LIFETIME_SECONDS;
    let token = generate_jwt("user-42", SECRET, issued_long_ago);
    assert!(verify_jwt(&token, SECRET).is_none());
}
