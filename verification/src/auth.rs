//! Rejections, the ownership guard and the admin gate.
//!
//! The taxonomy of denials: unauthenticated (no live session), forbidden
//! (authenticated but policy-denied), not-found standing in for forbidden
//! on ownership mismatches (so that a non-owner cannot tell a protected
//! resource from a missing one), and internal for storage failures during
//! the checks themselves.

use crate::session::Lookup;
use crate::strutil::str_eq;
use crate::token::Claims;
use vstd::prelude::*;

verus! {

/// Why a request was rejected before reaching its handler.
#[derive(PartialEq, Eq, Structural, Clone, Copy, Debug)]
pub enum Rejection {
    /// No live session: the request is not authenticated.
    Unauthorized,
    /// Authenticated, but the policy denies the action.
    Forbidden,
    /// Ownership mismatch, deliberately disguised as a missing resource.
    NotFound,
    /// A storage failure during the authorization checks themselves.
    Internal,
}

/// The HTTP status a rejection maps to.
pub open spec fn spec_status_code(r: Rejection) -> u16 {
    match r {
        Rejection::Unauthorized => 401,
        Rejection::Forbidden => 403,
        Rejection::NotFound => 404,
        Rejection::Internal => 500,
    }
}

impl Rejection {
    /// The HTTP status code of this rejection.
    pub fn status_code(&self) -> (c: u16)
        ensures
            c == spec_status_code(*self),
    {
        match self {
            Rejection::Unauthorized => 401,
            Rejection::Forbidden => 403,
            Rejection::NotFound => 404,
            Rejection::Internal => 500,
        }
    }
}

/// Checks that the resource addressed by the path belongs to the logged-in
/// user. On a mismatch the rejection is not-found, never forbidden: the
/// response must not reveal whether the resource exists.
pub fn check_ownership<'a>(path_user_id: &'a str, claims: &'a Claims) -> (r: Result<
    &'a str,
    Rejection,
>)
    ensures
        claims.sub@ == path_user_id@ ==> (r matches Ok(u) && u@ == claims.sub@),
        claims.sub@ != path_user_id@ ==> (r matches Err(e) && e == Rejection::NotFound),
{
    if str_eq(claims.sub.as_str(), path_user_id) {
        Ok(claims.sub.as_str())
    } else {
        Err(Rejection::NotFound)
    }
}

/// The admin gate's verdict on the acting user's admin flag as the user
/// store reported it: a cleared flag is forbidden (admin-only routes do
/// reveal that the action exists), and a missing row or a storage failure
/// is an internal error, never a plain deny.
pub fn require_admin(lookup: Lookup<bool>) -> (r: Result<(), Rejection>)
    ensures
        r is Ok <==> lookup matches Lookup::Found(true),
        lookup matches Lookup::Found(f) && !f ==> (r matches Err(e) && e == Rejection::Forbidden),
        lookup is Missing || lookup is Failed ==> (r matches Err(e) && e == Rejection::Internal),
{
    match lookup {
        Lookup::Found(true) => Ok(()),
        Lookup::Found(false) => Err(Rejection::Forbidden),
        Lookup::Missing => Err(Rejection::Internal),
        Lookup::Failed => Err(Rejection::Internal),
    }
}

} // verus!
