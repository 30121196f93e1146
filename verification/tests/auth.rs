use echo_core::auth::check_ownership;
use echo_core::auth::require_admin;
use echo_core::auth::Rejection;
use echo_core::session::Lookup;
use echo_core::token::Claims;

#[test]
fn ownership_match_returns_subject() {
    let claims = Claims { sub: String::from("U1"), exp: 0 };
    assert_eq!(check_ownership("U1", &claims), Ok("U1"));
}

#[test]
fn ownership_mismatch_is_not_found_never_forbidden() {
    let claims = Claims { sub: String::from("U1"), exp: 0 };
    let rejection = check_ownership("U2", &claims).unwrap_err();
    assert_eq!(rejection, Rejection::NotFound);
    assert_ne!(rejection, Rejection::Forbidden);
    assert_eq!(rejection.status_code(), 404);
}

#[test]
fn ownership_is_case_sensitive() {
    let claims = Claims { sub: String::from("u1"), exp: 0 };
    assert_eq!(check_ownership("U1", &claims), Err(Rejection::NotFound));
}

#[test]
fn admin_flag_set_passes() {
    assert_eq!(require_admin(Lookup::Found(true)), Ok(()));
}

#[test]
fn admin_flag_cleared_is_forbidden() {
    assert_eq!(require_admin(Lookup::Found(false)), Err(Rejection::Forbidden));
}

#[test]
fn admin_lookup_miss_or_failure_is_internal() {
    assert_eq!(require_admin(Lookup::Missing), Err(Rejection::Internal));
    assert_eq!(require_admin(Lookup::Failed), Err(Rejection::Internal));
}

#[test]
fn rejection_status_codes() {
    assert_eq!(Rejection::Unauthorized.status_code(), 401);
    assert_eq!(Rejection::Forbidden.status_code(), 403);
    assert_eq!(Rejection::NotFound.status_code(), 404);
    assert_eq!(Rejection::Internal.status_code(), 500);
}
