//! Pagination parameters for list endpoints: an optional limit capped at a
//! maximum, and an optional offset defaulting to zero.

use crate::strutil::dec_string;
use crate::strutil::i64_to_string;
use vstd::prelude::*;
use vstd::string::StringExecFns;

verus! {

/// Largest limit a caller may request; also the default when none is given.
pub const MAX_LIMIT: i64 = 100;

/// Default limit applied when the request names none.
pub const DEFAULT_LIMIT: i64 = 100;

/// Query parameters for paginated listings, as they arrive from the request.
#[derive(Clone, Copy, Debug)]
pub struct Pagination {
    pub limit: Option<i64>,
    pub offset: Option<i64>,
}

/// Rejection of out-of-range pagination parameters; the payload is the
/// message shown to the caller.
#[derive(Clone, Debug)]
pub struct PaginationError(pub String);

/// The limit that applies once the default is filled in.
pub open spec fn effective_limit(p: Pagination) -> i64 {
    match p.limit {
        Some(l) => l,
        None => DEFAULT_LIMIT,
    }
}

/// The offset that applies once the default is filled in.
pub open spec fn effective_offset(p: Pagination) -> i64 {
    match p.offset {
        Some(o) => o,
        None => 0,
    }
}

impl Pagination {
    /// The limit to use, or an error when the requested limit exceeds
    /// `MAX_LIMIT`.
    pub fn limit(&self) -> (r: Result<i64, PaginationError>)
        ensures
            effective_limit(*self) <= MAX_LIMIT ==> (r matches Ok(l) && l == effective_limit(*self)),
            effective_limit(*self) > MAX_LIMIT ==> (r matches Err(e) && e.0@
                == "Limit too high: maximum allowed is 100"@),
    {
        let l = match self.limit {
            Some(l) => l,
            None => DEFAULT_LIMIT,
        };
        if l > MAX_LIMIT {
            Err(PaginationError(String::from_str("Limit too high: maximum allowed is 100")))
        } else {
            Ok(l)
        }
    }

    /// The offset to use; absent means zero.
    pub fn offset(&self) -> (r: i64)
        ensures
            r == effective_offset(*self),
    {
        match self.offset {
            Some(o) => o,
            None => 0,
        }
    }

    /// The SQL fragment applying these parameters, or an error when the
    /// requested limit exceeds `MAX_LIMIT`.
    pub fn sql_clause(&self) -> (r: Result<String, PaginationError>)
        ensures
            effective_limit(*self) <= MAX_LIMIT ==> (r matches Ok(s) && s@ == "LIMIT "@
                + dec_string(effective_limit(*self) as int) + " OFFSET "@ + dec_string(
                effective_offset(*self) as int,
            )),
            effective_limit(*self) > MAX_LIMIT ==> r is Err,
    {
        let l = match self.limit() {
            Ok(l) => l,
            Err(e) => return Err(e),
        };
        let o = self.offset();
        let mut s = String::from_str("LIMIT ");
        s.append(i64_to_string(l).as_str());
        s.append(" OFFSET ");
        s.append(i64_to_string(o).as_str());
        Ok(s)
    }
}

/// Checks pagination parameters, returning the effective `(limit, offset)`
/// pair, or an error when the requested limit exceeds `MAX_LIMIT`.
pub fn validate_pagination(p: &Pagination) -> (r: Result<(i64, i64), PaginationError>)
    ensures
        effective_limit(*p) <= MAX_LIMIT ==> (r matches Ok(lo) && lo.0 == effective_limit(*p)
            && lo.1 == effective_offset(*p)),
        effective_limit(*p) > MAX_LIMIT ==> (r matches Err(e) && e.0@
            == "Limit too high: maximum allowed is 100"@),
{
    let limit = match p.limit {
        Some(l) => l,
        None => DEFAULT_LIMIT,
    };
    if limit > MAX_LIMIT {
        return Err(PaginationError(String::from_str("Limit too high: maximum allowed is 100")));
    }
    let offset = match p.offset {
        Some(o) => o,
        None => 0,
    };
    Ok((limit, offset))
}

} // verus!
