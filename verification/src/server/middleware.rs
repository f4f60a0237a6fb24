//! Request outcomes for the access log, and trailing-slash redirects.

use vstd::prelude::*;
use vstd::string::StrSliceExecFns;
use crate::telemetry::level::Level;
use crate::text::{push_char, push_str};

verus! {

/// The outcome word for a status code: `failed` from 500, `rejected` for
/// 400–499, `completed` otherwise.
pub open spec fn outcome_text(status: u16) -> Seq<char> {
    if status >= 500 {
        "failed"@
    } else if status >= 400 {
        "rejected"@
    } else {
        "completed"@
    }
}

pub fn request_outcome(status: u16) -> (r: &'static str)
    ensures
        r@ == outcome_text(status),
        status >= 500 ==> r@ == "failed"@,
        400 <= status < 500 ==> r@ == "rejected"@,
        status < 400 ==> r@ == "completed"@,
{
    if status >= 500 {
        "failed"
    } else if status >= 400 {
        "rejected"
    } else {
        "completed"
    }
}

/// How a finished request is logged.
#[derive(Debug)]
pub struct RequestLog {
    pub level: Level,
    pub outcome: &'static str,
    pub message: &'static str,
}

/// The log record of a request with the given status: errors from 500,
/// warnings for 400–499, information otherwise.
pub fn log_request(status: u16) -> (r: RequestLog)
    ensures
        r.outcome@ == outcome_text(status),
        status >= 500 ==> r.level == Level::Error && r.message@ == "request failed"@,
        400 <= status < 500 ==> r.level == Level::Warn && r.message@ == "request rejected"@,
        status < 400 ==> r.level == Level::Info && r.message@ == "request completed"@,
{
    let outcome = request_outcome(status);
    if status >= 500 {
        RequestLog { level: Level::Error, outcome, message: "request failed" }
    } else if status >= 400 {
        RequestLog { level: Level::Warn, outcome, message: "request rejected" }
    } else {
        RequestLog { level: Level::Info, outcome, message: "request completed" }
    }
}

/// Where a request for `path` (with `query`, if any) is redirected: a path
/// longer than `/` that ends with `/` loses that last slash, and the query
/// is kept.
pub open spec fn redirect_target(path: Seq<char>, query: Option<Seq<char>>) -> Option<Seq<char>> {
    if path.len() > 1 && path.last() == '/' {
        Some(
            match query {
                Some(q) => path.drop_last() + seq!['?'] + q,
                None => path.drop_last(),
            },
        )
    } else {
        None
    }
}

/// A redirect always leads to a shorter path, so redirects end; `/` and
/// paths without a trailing slash are never redirected.
pub proof fn lemma_redirect_shortens(path: Seq<char>, query: Option<Seq<char>>)
    ensures
        redirect_target(path, None) matches Some(t) ==> t.len() == path.len() - 1,
        (path.len() <= 1 || path.last() != '/') ==> redirect_target(path, query) is None,
        redirect_target(path, query) is Some <==> redirect_target(path, None) is Some,
{
}

/// The redirect keeps any query unchanged: with a query, the target is the
/// target without it, then `?`, then the query as it came.
pub proof fn lemma_redirect_keeps_query(path: Seq<char>, q: Seq<char>)
    ensures
        match redirect_target(path, None) {
            Some(t) => redirect_target(path, Some(q)) == Some(t + seq!['?'] + q),
            None => redirect_target(path, Some(q)) is None,
        },
        redirect_target(path, None) matches Some(t) ==> t == path.subrange(0, path.len() - 1),
{
    if path.len() > 1 && path.last() == '/' {
        assert(path.drop_last() =~= path.subrange(0, path.len() - 1));
    }
}

/// The permanent redirect for a path with a trailing slash, or `None` when
/// the request goes on unchanged.
pub fn trim_trailing_slash(path: &str, query: Option<&str>) -> (r: Option<String>)
    ensures
        match r {
            Some(l) => redirect_target(path@, match query { Some(q) => Some(q@), None => None }) == Some(l@),
            None => redirect_target(path@, match query { Some(q) => Some(q@), None => None }) is None,
        },
        r is Some <==> (path@.len() > 1 && path@.last() == '/'),
        r matches Some(l) ==> match query {
            Some(q) => l@ == path@.subrange(0, path@.len() - 1) + seq!['?'] + q@,
            None => l@ == path@.subrange(0, path@.len() - 1),
        },
{
    let n = path.unicode_len();
    if n > 1 && path.get_char(n - 1) == '/' {
        let trimmed = path.substring_char(0, n - 1);
        let mut location = crate::text::owned(trimmed);
        match query {
            Some(q) => {
                push_char(&mut location, '?');
                push_str(&mut location, q);
                assert(location@ =~= path@.drop_last() + seq!['?'] + q@);
            },
            None => {
                assert(location@ =~= path@.drop_last());
            },
        }
        Some(location)
    } else {
        None
    }
}

} // verus!
