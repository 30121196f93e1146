//! Session records and session resolution.
//!
//! A session binds a credential to a user on the server side. Resolution is
//! the authoritative authentication signal: a request is authenticated
//! exactly when a live session row matches the presented token. The row
//! itself comes from the persistence layer; the library receives the result
//! of that lookup as a plain value and decides from it.

use crate::strutil::str_eq;
use vstd::prelude::*;
use vstd::string::StrSliceExecFns;

verus! {

/// A persisted session row. Timestamps are Unix seconds; they are optional
/// because the store may omit them.
#[derive(Clone, Debug)]
pub struct Session {
    pub id: String,
    pub user_id: String,
    pub token: String,
    pub created_at: Option<i64>,
    pub expires_at: Option<i64>,
}

/// A session row to insert at login.
#[derive(Clone, Debug)]
pub struct NewSession {
    pub id: String,
    pub user_id: String,
    pub token: String,
    pub created_at: Option<i64>,
    pub expires_at: Option<i64>,
}

/// What a successful login returns to the client.
#[derive(Clone, Debug)]
pub struct SessionResponse {
    pub token: String,
    pub expires_at: Option<i64>,
}

/// A login request payload.
#[derive(Clone, Debug)]
pub struct CreateSession {
    pub user_id: String,
    pub password: String,
}

/// The result of a storage lookup, as handed to the library: the row, a
/// definite miss, or a storage failure. A failure is never conflated with
/// a miss.
pub enum Lookup<T> {
    Found(T),
    Missing,
    Failed,
}

/// Whether a session row is expired at `now`. The expiry is checked only
/// opportunistically: a row without one never expires here.
pub open spec fn session_expired(s: Session, now: i64) -> bool {
    s.expires_at matches Some(e) && e < now
}

/// What session resolution concluded: a live matching session, none, or a
/// storage error.
pub enum Resolution {
    Live(Session),
    Absent,
    Error,
}

/// Resolution of a presented token against the store's answer: an empty
/// token never resolves (no lookup would match it), a storage failure is an
/// error, and a returned row resolves only if it carries exactly the
/// presented token and is not expired.
pub open spec fn spec_resolve(token: Seq<char>, lookup: Lookup<Session>, now: i64) -> Resolution {
    if token.len() == 0 {
        Resolution::Absent
    } else {
        match lookup {
            Lookup::Failed => Resolution::Error,
            Lookup::Missing => Resolution::Absent,
            Lookup::Found(s) => if s.token@ == token && !session_expired(s, now) {
                Resolution::Live(s)
            } else {
                Resolution::Absent
            },
        }
    }
}

/// Decides whether the presented token is authenticated, from the store's
/// answer to the by-token lookup and the current time.
pub fn resolve_session(token: &str, lookup: Lookup<Session>, now: i64) -> (r: Resolution)
    ensures
        r == spec_resolve(token@, lookup, now),
{
    if token.is_empty() {
        return Resolution::Absent;
    }
    match lookup {
        Lookup::Failed => Resolution::Error,
        Lookup::Missing => Resolution::Absent,
        Lookup::Found(s) => {
            let expired = match s.expires_at {
                Some(e) => e < now,
                None => false,
            };
            if str_eq(s.token.as_str(), token) && !expired {
                Resolution::Live(s)
            } else {
                Resolution::Absent
            }
        },
    }
}

/// The token text presented by a request: the remainder of a well-formed
/// `Bearer ` header, and empty when the header is absent or malformed.
pub open spec fn spec_bearer_token(header: Option<&str>) -> Seq<char> {
    match header {
        None => Seq::<char>::empty(),
        Some(h) => if h@.len() >= 7 && h@.subrange(0, 7) == "Bearer "@ {
            h@.subrange(7, h@.len() as int)
        } else {
            Seq::<char>::empty()
        },
    }
}

/// Extracts the bearer token from the value of an `Authorization` header.
pub fn bearer_token(header: Option<&str>) -> (r: String)
    ensures
        r@ == spec_bearer_token(header),
{
    match header {
        None => String::new(),
        Some(h) => {
            let n = h.unicode_len();
            if n >= 7 && str_eq(h.substring_char(0, 7), "Bearer ") {
                h.substring_char(7, n).to_owned()
            } else {
                String::new()
            }
        },
    }
}

} // verus!
