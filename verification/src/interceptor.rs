//! The request interceptor: the single control point every inbound request
//! passes before handler dispatch.
//!
//! The decision is a pure function of the request line, the presented
//! token, the store's answers and the clock. The surrounding server drives
//! it in phases, performing the session and admin-flag lookups only when
//! the phase result asks for them; `lemma_phases_complete` shows the phased
//! drive reaches exactly the one-shot outcome.

use crate::auth::Rejection;
use crate::auth::require_admin;
use crate::routes::AccessClass;
use crate::routes::HttpMethod;
use crate::routes::RouteRule;
use crate::routes::RouteTable;
use crate::routes::spec_classify;
use crate::session::Lookup;
use crate::session::Resolution;
use crate::session::Session;
use crate::session::resolve_session;
use crate::session::spec_resolve;
use vstd::prelude::*;

verus! {

/// How an interception ends: forwarded to the handler, with the resolved
/// session injected where one was required, or rejected. Exactly one of
/// the two happens per request, and a rejected request never reaches its
/// handler.
#[derive(Clone, Debug)]
pub enum Outcome {
    Forward { session: Option<Session> },
    Reject { why: Rejection },
}

/// The policy verdict, given the route's class, what session resolution
/// concluded, and (for admin-only routes) the acting user's admin flag as
/// the user store reported it.
pub open spec fn spec_decide(class: AccessClass, res: Resolution, admin: Lookup<bool>) -> Outcome {
    if class == AccessClass::Public {
        Outcome::Forward { session: None }
    } else {
        match res {
            Resolution::Error => Outcome::Reject { why: Rejection::Internal },
            Resolution::Absent => if class == AccessClass::LoggedOutOnly {
                Outcome::Forward { session: None }
            } else {
                Outcome::Reject { why: Rejection::Unauthorized }
            },
            Resolution::Live(s) => if class == AccessClass::LoggedOutOnly {
                Outcome::Reject { why: Rejection::Forbidden }
            } else if class == AccessClass::AdminOnly {
                match admin {
                    Lookup::Found(f) => if f {
                        Outcome::Forward { session: Some(s) }
                    } else {
                        Outcome::Reject { why: Rejection::Forbidden }
                    },
                    _ => Outcome::Reject { why: Rejection::Internal },
                }
            } else {
                Outcome::Forward { session: Some(s) }
            },
        }
    }
}

/// The whole interception as one pure function: classify the route,
/// resolve the session, decide.
pub open spec fn spec_intercept(
    rules: Seq<RouteRule>,
    path: Seq<char>,
    method: HttpMethod,
    token: Seq<char>,
    lookup: Lookup<Session>,
    now: i64,
    admin: Lookup<bool>,
) -> Outcome {
    spec_decide(spec_classify(rules, path, method), spec_resolve(token, lookup, now), admin)
}

/// The policy verdict on an already-classified, already-resolved request.
pub fn decide(class: AccessClass, res: Resolution, admin: Lookup<bool>) -> (o: Outcome)
    ensures
        o == spec_decide(class, res, admin),
{
    if class == AccessClass::Public {
        return Outcome::Forward { session: None };
    }
    match res {
        Resolution::Error => Outcome::Reject { why: Rejection::Internal },
        Resolution::Absent => {
            if class == AccessClass::LoggedOutOnly {
                Outcome::Forward { session: None }
            } else {
                Outcome::Reject { why: Rejection::Unauthorized }
            }
        },
        Resolution::Live(s) => {
            if class == AccessClass::LoggedOutOnly {
                Outcome::Reject { why: Rejection::Forbidden }
            } else if class == AccessClass::AdminOnly {
                match require_admin(admin) {
                    Ok(_) => Outcome::Forward { session: Some(s) },
                    Err(e) => Outcome::Reject { why: e },
                }
            } else {
                Outcome::Forward { session: Some(s) }
            }
        },
    }
}

/// What the first phase asks of the driver: the request is already decided,
/// or the session lookup is needed.
#[derive(Clone, Debug)]
pub enum Gate {
    Done(Outcome),
    NeedSession,
}

/// What the second phase asks of the driver: the request is decided, or the
/// admin flag of the resolved session's user is needed.
#[derive(Clone, Debug)]
pub enum SessionGate {
    Done(Outcome),
    NeedAdminFlag(Session),
}

impl RouteTable {
    /// First phase, before any storage access. A public route is forwarded
    /// at once, and an empty token can never resolve, so the session lookup
    /// is asked for exactly when the route is non-public and a token is
    /// present.
    pub fn begin(&self, path: &str, method: HttpMethod, token: &str) -> (g: Gate)
        ensures
            g matches Gate::Done(o) ==> forall|lookup: Lookup<Session>, now: i64, admin: Lookup<
                bool,
            >| o == spec_intercept(self.admin_rules@, path@, method, token@, lookup, now, admin),
            g is NeedSession <==> spec_classify(self.admin_rules@, path@, method)
                != AccessClass::Public && token@.len() > 0,
    {
        let class = self.classify(path, method);
        if class == AccessClass::Public {
            Gate::Done(Outcome::Forward { session: None })
        } else if token.is_empty() {
            Gate::Done(decide(class, Resolution::Absent, Lookup::Missing))
        } else {
            Gate::NeedSession
        }
    }

    /// Second phase, once the store has answered the by-token lookup. The
    /// admin flag is asked for exactly when an admin-only route meets a
    /// live session.
    pub fn after_session(
        &self,
        path: &str,
        method: HttpMethod,
        token: &str,
        lookup: Lookup<Session>,
        now: i64,
    ) -> (g: SessionGate)
        ensures
            g matches SessionGate::Done(o) ==> forall|admin: Lookup<bool>|
                o == spec_intercept(self.admin_rules@, path@, method, token@, lookup, now, admin),
            g matches SessionGate::NeedAdminFlag(s) ==> spec_classify(
                self.admin_rules@,
                path@,
                method,
            ) == AccessClass::AdminOnly && spec_resolve(token@, lookup, now)
                == Resolution::Live(s),
    {
        let class = self.classify(path, method);
        let res = resolve_session(token, lookup, now);
        match res {
            Resolution::Live(s) => {
                if class == AccessClass::AdminOnly {
                    SessionGate::NeedAdminFlag(s)
                } else {
                    SessionGate::Done(decide(class, Resolution::Live(s), Lookup::Missing))
                }
            },
            other => SessionGate::Done(decide(class, other, Lookup::Missing)),
        }
    }

    /// The whole interception in one call, for a driver that has every
    /// answer at hand.
    pub fn intercept(
        &self,
        path: &str,
        method: HttpMethod,
        token: &str,
        lookup: Lookup<Session>,
        now: i64,
        admin: Lookup<bool>,
    ) -> (o: Outcome)
        ensures
            o == spec_intercept(self.admin_rules@, path@, method, token@, lookup, now, admin),
    {
        let class = self.classify(path, method);
        let res = resolve_session(token, lookup, now);
        decide(class, res, admin)
    }
}

/// Third phase: the admin gate's verdict for an admin-only route with a
/// live session.
pub fn finish_admin(session: Session, admin: Lookup<bool>) -> (o: Outcome)
    ensures
        o == spec_decide(AccessClass::AdminOnly, Resolution::Live(session), admin),
{
    decide(AccessClass::AdminOnly, Resolution::Live(session), admin)
}

/// Driving the phases to their admin step and finishing it reaches exactly
/// the one-shot interception outcome; with the phases' own contracts this
/// closes the loop between the phased drive and `spec_intercept`.
pub proof fn lemma_phases_complete(
    rules: Seq<RouteRule>,
    path: Seq<char>,
    method: HttpMethod,
    token: Seq<char>,
    lookup: Lookup<Session>,
    now: i64,
    admin: Lookup<bool>,
    s: Session,
)
    requires
        spec_classify(rules, path, method) == AccessClass::AdminOnly,
        spec_resolve(token, lookup, now) == Resolution::Live(s),
    ensures
        spec_decide(AccessClass::AdminOnly, Resolution::Live(s), admin) == spec_intercept(
            rules,
            path,
            method,
            token,
            lookup,
            now,
            admin,
        ),
{
}

/// The health route is forwarded for every token and every persisted
/// state, with no identity attached.
pub proof fn lemma_health_always_forwarded(
    rules: Seq<RouteRule>,
    token: Seq<char>,
    lookup: Lookup<Session>,
    now: i64,
    admin: Lookup<bool>,
)
    ensures
        spec_intercept(rules, "/health"@, HttpMethod::Get, token, lookup, now, admin) == (
        Outcome::Forward { session: None }),
{
}

/// The login route is forwarded exactly when no session resolves for the
/// presented token, and rejected as forbidden when one does.
pub proof fn lemma_login_needs_logged_out(
    rules: Seq<RouteRule>,
    token: Seq<char>,
    lookup: Lookup<Session>,
    now: i64,
    admin: Lookup<bool>,
)
    ensures
        spec_resolve(token, lookup, now) is Absent ==> spec_intercept(
            rules,
            "/sessions"@,
            HttpMethod::Post,
            token,
            lookup,
            now,
            admin,
        ) == (Outcome::Forward { session: None }),
        spec_resolve(token, lookup, now) is Live ==> spec_intercept(
            rules,
            "/sessions"@,
            HttpMethod::Post,
            token,
            lookup,
            now,
            admin,
        ) == (Outcome::Reject { why: Rejection::Forbidden }),
{
}

/// A request without a resolvable session against any route that is
/// neither public nor logged-out-only is rejected as unauthenticated, so
/// no handler runs for it.
pub proof fn lemma_no_session_unauthorized(
    rules: Seq<RouteRule>,
    path: Seq<char>,
    method: HttpMethod,
    token: Seq<char>,
    lookup: Lookup<Session>,
    now: i64,
    admin: Lookup<bool>,
)
    requires
        spec_classify(rules, path, method) != AccessClass::Public,
        spec_classify(rules, path, method) != AccessClass::LoggedOutOnly,
        spec_resolve(token, lookup, now) is Absent,
    ensures
        spec_intercept(rules, path, method, token, lookup, now, admin) == (Outcome::Reject {
            why: Rejection::Unauthorized,
        }),
{
}

/// On an admin-only route with a live session, a cleared admin flag is
/// rejected as forbidden and a set flag forwards the request with the
/// session's identity injected.
pub proof fn lemma_admin_gate(
    rules: Seq<RouteRule>,
    path: Seq<char>,
    method: HttpMethod,
    token: Seq<char>,
    lookup: Lookup<Session>,
    now: i64,
    s: Session,
)
    requires
        spec_classify(rules, path, method) == AccessClass::AdminOnly,
        spec_resolve(token, lookup, now) == Resolution::Live(s),
    ensures
        spec_intercept(rules, path, method, token, lookup, now, Lookup::Found(false)) == (
        Outcome::Reject { why: Rejection::Forbidden }),
        spec_intercept(rules, path, method, token, lookup, now, Lookup::Found(true)) == (
        Outcome::Forward { session: Some(s) }),
{
}

/// Repeating a request with the same token against the same persisted
/// state yields the same outcome: the decision depends on nothing else.
pub proof fn lemma_intercept_idempotent(
    rules: Seq<RouteRule>,
    path: Seq<char>,
    method: HttpMethod,
    token: Seq<char>,
    first_lookup: Lookup<Session>,
    first_now: i64,
    first_admin: Lookup<bool>,
    second_lookup: Lookup<Session>,
    second_now: i64,
    second_admin: Lookup<bool>,
)
    requires
        first_lookup == second_lookup,
        first_now == second_now,
        first_admin == second_admin,
    ensures
        spec_intercept(rules, path, method, token, first_lookup, first_now, first_admin)
            == spec_intercept(rules, path, method, token, second_lookup, second_now, second_admin),
{
}

} // verus!
