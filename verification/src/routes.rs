//! Route classification: which access class a request's `(path, method)`
//! pair falls under.
//!
//! One well-known route is public (`GET /health`), one is reachable only
//! while logged out (`POST /sessions`), a configured set of templates is
//! admin-only, and everything else requires plain authentication.

use crate::strutil::split_path;
use crate::strutil::split_slash;
use crate::strutil::str_eq;
use vstd::prelude::*;
use vstd::string::StrSliceExecFns;
use vstd::string::StringExecFns;

verus! {

/// The request methods the classifier distinguishes.
#[derive(PartialEq, Eq, Structural, Clone, Copy, Debug)]
pub enum HttpMethod {
    Get,
    Post,
    Put,
    Delete,
    Patch,
    Head,
    Options,
}

/// The access class a route requires.
#[derive(PartialEq, Eq, Structural, Clone, Copy, Debug)]
pub enum AccessClass {
    Public,
    LoggedOutOnly,
    Authenticated,
    AdminOnly,
}

/// Whether a template segment is a single-segment placeholder such as
/// `{song_id}`.
pub open spec fn is_wildcard_seg(t: Seq<char>) -> bool {
    t.len() >= 2 && t[0] == '{' && t[t.len() - 1] == '}'
}

/// Whether one template segment accepts one path segment: a placeholder
/// accepts any non-empty segment, a literal only its exact text.
pub open spec fn seg_matches(t: Seq<char>, p: Seq<char>) -> bool {
    if is_wildcard_seg(t) {
        p.len() > 0
    } else {
        t == p
    }
}

/// Whether `p` matches the template `t`: both split into the same number of
/// `/`-separated segments, each accepted in place. Matching is anchored at
/// both ends and case-sensitive.
pub open spec fn template_matches(t: Seq<char>, p: Seq<char>) -> bool {
    let ts = split_path(t);
    let ps = split_path(p);
    ts.len() == ps.len() && (forall|i: int| 0 <= i < ts.len() ==> seg_matches(ts[i], ps[i]))
}

fn is_wildcard_segment(t: &str) -> (r: bool)
    ensures
        r == is_wildcard_seg(t@),
{
    let n = t.unicode_len();
    n >= 2 && t.get_char(0) == '{' && t.get_char(n - 1) == '}'
}

/// Whether `path` matches the route template, segment by segment.
pub fn path_matches_template(template: &str, path: &str) -> (r: bool)
    ensures
        r == template_matches(template@, path@),
{
    let ts = split_slash(template);
    let ps = split_slash(path);
    if ts.len() != ps.len() {
        return false;
    }
    let n = ts.len();
    let mut i: usize = 0;
    while i < n
        invariant
            i <= n,
            n == ts@.len(),
            ts@.len() == ps@.len(),
            ts.deep_view() == split_path(template@),
            ps.deep_view() == split_path(path@),
            forall|j: int| 0 <= j < i ==> seg_matches(ts.deep_view()[j], ps.deep_view()[j]),
        decreases n - i,
    {
        let tseg = &ts[i];
        let pseg = &ps[i];
        proof {
            assert(ts.deep_view()[i as int] == ts@[i as int]@);
            assert(ps.deep_view()[i as int] == ps@[i as int]@);
        }
        let ok = if is_wildcard_segment(tseg.as_str()) {
            !pseg.as_str().is_empty()
        } else {
            str_eq(tseg.as_str(), pseg.as_str())
        };
        if !ok {
            return false;
        }
        i += 1;
    }
    true
}

/// One admin-only route: a path template and the method it restricts.
pub struct RouteRule {
    pub template: String,
    pub method: HttpMethod,
}

/// Whether a rule restricts the given request.
pub open spec fn rule_matches(rule: RouteRule, path: Seq<char>, method: HttpMethod) -> bool {
    rule.method == method && template_matches(rule.template@, path)
}

/// The immutable route-access table, built once at startup.
pub struct RouteTable {
    pub admin_rules: Vec<RouteRule>,
}

/// Whether any rule of the admin-only set restricts the given request. The
/// rules act as a set: overlapping rules are not an error.
pub open spec fn spec_is_admin_route(
    rules: Seq<RouteRule>,
    path: Seq<char>,
    method: HttpMethod,
) -> bool {
    exists|i: int| 0 <= i < rules.len() && rule_matches(rules[i], path, method)
}

/// The access class of a request: the two well-known routes first, then the
/// admin-only set, then the authenticated default.
pub open spec fn spec_classify(
    rules: Seq<RouteRule>,
    path: Seq<char>,
    method: HttpMethod,
) -> AccessClass {
    if path == "/health"@ && method == HttpMethod::Get {
        AccessClass::Public
    } else if path == "/sessions"@ && method == HttpMethod::Post {
        AccessClass::LoggedOutOnly
    } else if spec_is_admin_route(rules, path, method) {
        AccessClass::AdminOnly
    } else {
        AccessClass::Authenticated
    }
}

impl RouteTable {
    /// Whether the request hits a route of the admin-only set.
    pub fn is_admin_route(&self, path: &str, method: HttpMethod) -> (r: bool)
        ensures
            r == spec_is_admin_route(self.admin_rules@, path@, method),
    {
        let n = self.admin_rules.len();
        let mut i: usize = 0;
        while i < n
            invariant
                i <= n,
                n == self.admin_rules@.len(),
                forall|j: int|
                    0 <= j < i ==> !rule_matches(self.admin_rules@[j], path@, method),
            decreases n - i,
        {
            let rule = &self.admin_rules[i];
            if rule.method == method && path_matches_template(rule.template.as_str(), path) {
                proof {
                    assert(rule_matches(self.admin_rules@[i as int], path@, method));
                }
                return true;
            }
            i += 1;
        }
        false
    }

    /// Classifies a request against this table.
    pub fn classify(&self, path: &str, method: HttpMethod) -> (c: AccessClass)
        ensures
            c == spec_classify(self.admin_rules@, path@, method),
    {
        if str_eq(path, "/health") && method == HttpMethod::Get {
            AccessClass::Public
        } else if str_eq(path, "/sessions") && method == HttpMethod::Post {
            AccessClass::LoggedOutOnly
        } else if self.is_admin_route(path, method) {
            AccessClass::AdminOnly
        } else {
            AccessClass::Authenticated
        }
    }
}

/// The statically declared admin-only route set: user creation and
/// song/album mutation.
pub fn admin_only_routes() -> (t: RouteTable)
    ensures
        t.admin_rules@.len() == 7,
        t.admin_rules@[0].template@ == "/users"@ && t.admin_rules@[0].method == HttpMethod::Post,
        t.admin_rules@[1].template@ == "/songs"@ && t.admin_rules@[1].method == HttpMethod::Post,
        t.admin_rules@[2].template@ == "/songs/{song_id}"@ && t.admin_rules@[2].method
            == HttpMethod::Put,
        t.admin_rules@[3].template@ == "/songs/{song_id}"@ && t.admin_rules@[3].method
            == HttpMethod::Delete,
        t.admin_rules@[4].template@ == "/albums"@ && t.admin_rules@[4].method == HttpMethod::Post,
        t.admin_rules@[5].template@ == "/albums/{album_id}"@ && t.admin_rules@[5].method
            == HttpMethod::Put,
        t.admin_rules@[6].template@ == "/albums/{album_id}"@ && t.admin_rules@[6].method
            == HttpMethod::Delete,
{
    let mut rules: Vec<RouteRule> = Vec::new();
    rules.push(RouteRule { template: String::from_str("/users"), method: HttpMethod::Post });
    rules.push(RouteRule { template: String::from_str("/songs"), method: HttpMethod::Post });
    rules.push(RouteRule { template: String::from_str("/songs/{song_id}"), method: HttpMethod::Put });
    rules.push(
        RouteRule { template: String::from_str("/songs/{song_id}"), method: HttpMethod::Delete },
    );
    rules.push(RouteRule { template: String::from_str("/albums"), method: HttpMethod::Post });
    rules.push(
        RouteRule { template: String::from_str("/albums/{album_id}"), method: HttpMethod::Put },
    );
    rules.push(
        RouteRule { template: String::from_str("/albums/{album_id}"), method: HttpMethod::Delete },
    );
    RouteTable { admin_rules: rules }
}

/// A request outside the two well-known routes and the admin-only set is
/// classified as requiring plain authentication.
pub proof fn lemma_classify_default(rules: Seq<RouteRule>, path: Seq<char>, method: HttpMethod)
    requires
        !(path == "/health"@ && method == HttpMethod::Get),
        !(path == "/sessions"@ && method == HttpMethod::Post),
        !spec_is_admin_route(rules, path, method),
    ensures
        spec_classify(rules, path, method) == AccessClass::Authenticated,
{
}

/// A request that any admin rule restricts is classified admin-only, however
/// many rules it matches: the rules act as a set, so overlap is harmless.
pub proof fn lemma_admin_overlap_harmless(
    rules: Seq<RouteRule>,
    path: Seq<char>,
    method: HttpMethod,
    i: int,
)
    requires
        0 <= i < rules.len(),
        rule_matches(rules[i], path, method),
        !(path == "/health"@ && method == HttpMethod::Get),
        !(path == "/sessions"@ && method == HttpMethod::Post),
    ensures
        spec_classify(rules, path, method) == AccessClass::AdminOnly,
{
}

} // verus!
