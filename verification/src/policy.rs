//! The HTTP cache-policy check, behind trusted wrappers.
//!
//! Freshness of a cached response is judged by the `http-cache-semantics`
//! crate from the request and response headers and the response time.
//! Each wrapper hands plain values in, builds the policy from them, and
//! carries one result back as a plain value; since every result is a
//! function of those plain values alone, each is named by an
//! uninterpreted spec function, and the decision logic that consumes
//! the results is verified in the cache layer.
//!
//! The crate's `age` arithmetic panics when a response carries an
//! absurdly large `age` header, its date formatting panics past the
//! year 9999, and the header maps it fills panic when grown past their
//! size cap — so the verdict wrappers require the bounds below; the
//! cache layer establishes them by sanitizing and capping the stored
//! headers and by its own time bound, and the edge keeps request
//! header lists within the cap.

use vstd::prelude::*;

use crate::req::{spec_headers_view, Header};
use http_cache_semantics::{BeforeRequest, CacheOptions, CachePolicy};
use std::time::{Duration, UNIX_EPOCH};

verus! {

/// The largest time, in milliseconds since the epoch, the policy is
/// consulted at: the end of the year 9999, the last the RFC 2822 date
/// format can express.
pub const MAX_POLICY_TIME_MS: u64 = 253_402_300_799_000;

/// The most headers handed to one policy check. An `http::HeaderMap`
/// holds at most 24,576 distinct names and panics when grown past
/// that; this bound keeps both maps well under it even after the
/// policy adds its own headers.
pub const MAX_POLICY_HEADERS: usize = 16_384;

/// What the policy says before a request: the cached response may be
/// used as is; or it is stale but answers this request, so the request
/// should be revalidated; or it does not answer this request at all.
#[derive(Clone, Copy, PartialEq, Eq, Structural, Debug)]
pub enum PolicyState {
    Fresh,
    StaleMatches,
    StaleMismatch,
}

/// The ASCII lower-case image of a character.
pub open spec fn spec_lower_char(c: char) -> char {
    if 65 <= c as u32 <= 90 {
        ((c as u32 + 32) as u8) as char
    } else {
        c
    }
}

/// Whether a header name is `age`, compared ASCII-case-insensitively
/// (header maps normalize names to lower case).
pub open spec fn spec_is_age_name(n: Seq<char>) -> bool {
    n.map_values(|c: char| spec_lower_char(c)) == "age"@
}

/// Every `age`-named header's value is short enough that its parsed
/// seconds stay far from the overflow the crate's age arithmetic would
/// panic on.
pub open spec fn age_headers_ok(h: Seq<(Seq<char>, Seq<char>)>) -> bool {
    forall|i: int| 0 <= i < h.len() ==> (spec_is_age_name(#[trigger] h[i].0) ==> h[i].1.len() <= 15)
}

#[verifier::external_type_specification]
#[verifier::external_body]
pub struct ExRequestParts(http::request::Parts);

#[verifier::external_type_specification]
#[verifier::external_body]
pub struct ExResponseParts(http::response::Parts);

/// Relies on `http::request::Builder`: the request head built from the
/// plain parts, or nothing when they are malformed. A deterministic
/// argument conversion for the policy wrappers below.
#[verifier::external_body]
fn request_parts(m: &str, u: &str, rh: &Vec<Header>) -> (r: Option<http::request::Parts>)
{
    let b = rh.iter().fold(http::Request::builder().method(m).uri(u), |x, h| x.header(h.name.as_str(), h.value.as_str()));
    b.body(()).ok().map(|q| q.into_parts().0)
}

/// Relies on `http::response::Builder`: the response head built from
/// the plain parts, or nothing when they are malformed. A deterministic
/// argument conversion for the policy wrappers below.
#[verifier::external_body]
fn response_parts(st: u16, sh: &Vec<Header>) -> (r: Option<http::response::Parts>)
{
    let b = sh.iter().fold(http::Response::builder().status(st), |x, h| x.header(h.name.as_str(), h.value.as_str()));
    b.body(()).ok().map(|q| q.into_parts().0)
}

/// The freshness lifetime (milliseconds) the policy computes for the
/// response at the moment it was received, or nothing when the plain
/// parts do not form a well-formed request/response pair.
pub uninterp spec fn policy_ttl_of(
    method: Seq<char>,
    uri: Seq<char>,
    req_headers: Seq<(Seq<char>, Seq<char>)>,
    status: u16,
    resp_headers: Seq<(Seq<char>, Seq<char>)>,
    created_ms: u64,
) -> Option<u64>;

/// The policy's verdict on reusing the cached response at `now_ms`;
/// malformed parts count as a mismatch.
pub uninterp spec fn policy_state_of(
    method: Seq<char>,
    uri: Seq<char>,
    req_headers: Seq<(Seq<char>, Seq<char>)>,
    status: u16,
    resp_headers: Seq<(Seq<char>, Seq<char>)>,
    created_ms: u64,
    now_ms: u64,
) -> PolicyState;

/// The headers the policy's verdict prescribes at `now_ms` — updated
/// reply headers when fresh, revalidation headers when stale; empty for
/// malformed parts.
pub uninterp spec fn policy_headers_of(
    method: Seq<char>,
    uri: Seq<char>,
    req_headers: Seq<(Seq<char>, Seq<char>)>,
    status: u16,
    resp_headers: Seq<(Seq<char>, Seq<char>)>,
    created_ms: u64,
    now_ms: u64,
) -> Seq<(Seq<char>, Seq<char>)>;

/// Relies on `CachePolicy::new_options` and `CachePolicy::time_to_live`
/// (private cache, response received at `created_ms`): the lifetime is
/// evaluated at the response time itself, where the crate's age
/// arithmetic cannot overflow. The result depends on the plain parts
/// alone: `policy_ttl_of`.
#[verifier::external_body]
pub fn policy_ttl_ms(
    m: &str,
    u: &str,
    rh: &Vec<Header>,
    st: u16,
    sh: &Vec<Header>,
    c: u64,
) -> (r: Option<u64>)
    ensures
        r == policy_ttl_of(m@, u@, spec_headers_view(rh@), st, spec_headers_view(sh@), c),
{
    let t = UNIX_EPOCH + Duration::from_millis(c);
    let o = CacheOptions { shared: false, ..Default::default() };
    match (request_parts(m, u, rh), response_parts(st, sh)) {
        (Some(q), Some(s)) => {
            Some(CachePolicy::new_options(&q, &s, t, o).time_to_live(t).as_millis() as u64)
        },
        _ => None,
    }
}

/// Relies on `CachePolicy::new_options` and `CachePolicy::before_request`
/// (private cache): the verdict at `now_ms`. The `requires` exclude the
/// crate's panic paths: age-header overflow, date formatting past the
/// year 9999, and the header-map size cap its own header insertions can
/// hit on an over-full map. The result depends on the plain parts
/// alone: `policy_state_of`.
#[verifier::external_body]
pub fn policy_state_ms(
    m: &str,
    u: &str,
    rh: &Vec<Header>,
    st: u16,
    sh: &Vec<Header>,
    c: u64,
    n: u64,
) -> (r: PolicyState)
    requires
        n <= MAX_POLICY_TIME_MS,
        age_headers_ok(spec_headers_view(sh@)),
        rh@.len() <= MAX_POLICY_HEADERS,
        sh@.len() <= MAX_POLICY_HEADERS,
    ensures
        r == policy_state_of(m@, u@, spec_headers_view(rh@), st, spec_headers_view(sh@), c, n),
{
    let o = CacheOptions { shared: false, ..Default::default() };
    match (request_parts(m, u, rh), response_parts(st, sh)) {
        (Some(q), Some(s)) => match CachePolicy::new_options(&q, &s, UNIX_EPOCH + Duration::from_millis(c), o).before_request(&q, UNIX_EPOCH + Duration::from_millis(n)) {
            BeforeRequest::Fresh(_) => PolicyState::Fresh,
            BeforeRequest::Stale { matches: true, .. } => PolicyState::StaleMatches,
            BeforeRequest::Stale { .. } => PolicyState::StaleMismatch,
        },
        _ => PolicyState::StaleMismatch,
    }
}

/// Relies on `CachePolicy::new_options` and `CachePolicy::before_request`
/// (private cache): the verdict's headers at `now_ms`, as plain pairs.
/// Same panic exclusions (age, date format, header-map cap) as the
/// verdict wrapper. The result depends on the plain parts alone:
/// `policy_headers_of`.
#[verifier::external_body]
pub fn policy_headers_ms(
    m: &str,
    u: &str,
    rh: &Vec<Header>,
    st: u16,
    sh: &Vec<Header>,
    c: u64,
    n: u64,
) -> (r: Vec<Header>)
    requires
        n <= MAX_POLICY_TIME_MS,
        age_headers_ok(spec_headers_view(sh@)),
        rh@.len() <= MAX_POLICY_HEADERS,
        sh@.len() <= MAX_POLICY_HEADERS,
    ensures
        spec_headers_view(r@) == policy_headers_of(
            m@,
            u@,
            spec_headers_view(rh@),
            st,
            spec_headers_view(sh@),
            c,
            n,
        ),
{
    let o = CacheOptions { shared: false, ..Default::default() };
    let mut v: Vec<Header> = Vec::new();
    if let (Some(q), Some(s)) = (request_parts(m, u, rh), response_parts(st, sh)) {
        let hm = match CachePolicy::new_options(&q, &s, UNIX_EPOCH + Duration::from_millis(c), o).before_request(&q, UNIX_EPOCH + Duration::from_millis(n)) {
            BeforeRequest::Fresh(x) => x.headers,
            BeforeRequest::Stale { request, .. } => request.headers,
        };
        for (k, w) in hm.iter() { v.push(Header::new(k.as_str(), w.to_str().unwrap_or(""))); }
    }
    v
}

} // verus!
