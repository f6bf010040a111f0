//! The caching middleware.
//!
//! The layer decides, for each request, whether to bypass the cache,
//! answer from it, or forward upstream — and, on the way back, whether
//! to store the response or substitute a cached one for an upstream
//! `304 Not Modified`. The asynchronous edge that actually performs the
//! upstream call drives these two phases.

use vstd::prelude::*;
use vstd::string::StringExecFns;

use crate::cache::entry::{
    duplicate_bytes, duplicate_meta, entry_equiv, headers_equiv, CacheData, CachedResponse,
};
use crate::cache::logic::{
    intent_matches, make_cache_intent, spec_make_cache_intent, CacheIntent, SpecIntent,
};
use crate::cache::store::{spec_get_value, spec_lookup, CacheStore, StoreEntry};
use crate::config::CacheMiddlewareConfig;
use crate::ops::OperationType;
use crate::policy::{
    age_headers_ok, policy_headers_ms, policy_headers_of, policy_state_ms, policy_state_of,
    policy_ttl_ms, policy_ttl_of, spec_is_age_name, spec_lower_char, PolicyState,
    MAX_POLICY_HEADERS, MAX_POLICY_TIME_MS,
};
use crate::req::{
    headers_contains, headers_has_name, spec_headers_view, Header, Method, Request, Response,
    SendError,
};
use crate::s3::{decoded_input_matches, InputMeta, MetaData, ResponseMetaData};

verus! {

/// The result of consulting the cache: a response that may be used as
/// is, a stale response that must be revalidated first, or a miss.
pub enum CacheState<T> {
    Fresh(T),
    Stale(T),
    Miss,
}

/// What the lookup protocol does, given whether a cached entry exists,
/// the policy's computed freshness lifetime, and the policy's verdict.
#[derive(Clone, Copy, PartialEq, Eq, Structural, Debug)]
pub enum LookupAction {
    ReturnMiss,
    ReturnFresh,
    ReturnStale,
    RemoveAndMiss,
}

/// The lookup protocol: a missing entry is a miss; a zero freshness
/// lifetime means the origin sent no caching headers, so the proxy owns
/// the freshness window and the entry counts as fresh; otherwise the
/// policy's verdict decides — fresh is returned, a matching stale entry
/// is revalidated, and a mismatched one is dropped.
pub open spec fn spec_lookup_action(found: bool, ttl_ms: u64, state: PolicyState) -> LookupAction {
    if !found {
        LookupAction::ReturnMiss
    } else if ttl_ms == 0 {
        LookupAction::ReturnFresh
    } else {
        match state {
            PolicyState::Fresh => LookupAction::ReturnFresh,
            PolicyState::StaleMatches => LookupAction::ReturnStale,
            PolicyState::StaleMismatch => LookupAction::RemoveAndMiss,
        }
    }
}

/// Decide what the lookup does; see [`spec_lookup_action`].
pub fn lookup_action(found: bool, ttl_ms: u64, state: PolicyState) -> (r: LookupAction)
    ensures
        r == spec_lookup_action(found, ttl_ms, state),
{
    if !found {
        LookupAction::ReturnMiss
    } else if ttl_ms == 0 {
        LookupAction::ReturnFresh
    } else {
        match state {
            PolicyState::Fresh => LookupAction::ReturnFresh,
            PolicyState::StaleMatches => LookupAction::ReturnStale,
            PolicyState::StaleMismatch => LookupAction::RemoveAndMiss,
        }
    }
}

/// The request URI as one string: the path, then `?` and the query when
/// one is present.
pub open spec fn spec_uri_of(path: Seq<char>, query: Option<Seq<char>>) -> Seq<char> {
    match query {
        Some(q) => path + "?"@ + q,
        None => path,
    }
}

fn build_uri(req: &Request) -> (r: String)
    ensures
        r@ == spec_uri_of(
            req.uri_path@,
            match req.uri_query {
                Some(q) => Some(q@),
                None => None,
            },
        ),
{
    let mut s = req.uri_path.clone();
    match &req.uri_query {
        Some(q) => {
            s.append("?");
            s.append(q.as_str());
        },
        None => {},
    }
    s
}

/// A header kept for the policy check: everything but an `age` header
/// whose value is too long for the policy crate's age arithmetic.
pub open spec fn spec_keep_header(p: (Seq<char>, Seq<char>)) -> bool {
    !(spec_is_age_name(p.0) && p.1.len() > 15)
}

/// The headers the policy check sees: the list with oversized `age`
/// headers dropped.
pub open spec fn spec_sanitized(h: Seq<(Seq<char>, Seq<char>)>) -> Seq<(Seq<char>, Seq<char>)>
    decreases h.len(),
{
    if h.len() == 0 {
        Seq::empty()
    } else if spec_keep_header(h[0]) {
        seq![h[0]] + spec_sanitized(h.skip(1))
    } else {
        spec_sanitized(h.skip(1))
    }
}

proof fn lemma_sanitized_ok(h: Seq<(Seq<char>, Seq<char>)>)
    ensures
        age_headers_ok(spec_sanitized(h)),
    decreases h.len(),
{
    if h.len() > 0 {
        lemma_sanitized_ok(h.skip(1));
        if spec_keep_header(h[0]) {
            let t = seq![h[0]] + spec_sanitized(h.skip(1));
            assert forall|i: int|
                0 <= i < t.len() && spec_is_age_name(#[trigger] t[i].0) implies t[i].1.len()
                <= 15 by {
                if i > 0 {
                    assert(t[i] == spec_sanitized(h.skip(1))[i - 1]);
                }
            }
        }
    }
}

fn lower_char(c: char) -> (r: char)
    ensures
        r == spec_lower_char(c),
{
    let u = c as u32;
    if 65 <= u && u <= 90 {
        ((u + 32) as u8) as char
    } else {
        c
    }
}

fn is_age_name(n: &str) -> (r: bool)
    ensures
        r == spec_is_age_name(n@),
{
    proof {
        reveal_strlit("age");
    }
    let len = n.unicode_len();
    if len != 3 {
        proof {
            assert(n@.map_values(|c: char| spec_lower_char(c)).len() == n@.len());
        }
        return false;
    }
    let ok = lower_char(n.get_char(0)) == 'a' && lower_char(n.get_char(1)) == 'g' && lower_char(
        n.get_char(2),
    ) == 'e';
    proof {
        let m = n@.map_values(|c: char| spec_lower_char(c));
        assert(m.len() == 3);
        assert(m[0] == spec_lower_char(n@[0]));
        assert(m[1] == spec_lower_char(n@[1]));
        assert(m[2] == spec_lower_char(n@[2]));
        if ok {
            assert(m =~= "age"@);
        } else {
            assert(m != "age"@);
        }
    }
    ok
}

/// A header-pair view cut to the most the policy check takes.
pub open spec fn spec_capped(h: Seq<(Seq<char>, Seq<char>)>) -> Seq<(Seq<char>, Seq<char>)> {
    if h.len() <= MAX_POLICY_HEADERS {
        h
    } else {
        h.take(MAX_POLICY_HEADERS as int)
    }
}

/// Drop every `age` header the policy crate's arithmetic could not
/// take and cut the list to the policy's header-count cap; everything
/// else is kept in order. Only the copy handed to the policy check is
/// sanitized — the response itself keeps its headers.
fn sanitize_age_headers(h: &Vec<Header>) -> (r: Vec<Header>)
    ensures
        spec_headers_view(r@) == spec_capped(spec_sanitized(spec_headers_view(h@))),
        age_headers_ok(spec_headers_view(r@)),
        r@.len() <= MAX_POLICY_HEADERS,
{
    let ghost hv = spec_headers_view(h@);
    let n = h.len();
    let mut out: Vec<Header> = Vec::new();
    let mut i: usize = 0;
    proof {
        assert(hv.skip(0) =~= hv);
        assert(spec_headers_view(out@) =~= Seq::<(Seq<char>, Seq<char>)>::empty());
        assert(spec_headers_view(out@) + spec_sanitized(hv) =~= spec_sanitized(hv));
    }
    while i < n
        invariant
            0 <= i <= n,
            n == h@.len(),
            hv == spec_headers_view(h@),
            spec_sanitized(hv) == spec_headers_view(out@) + spec_sanitized(hv.skip(i as int)),
        decreases n - i,
    {
        proof {
            assert(hv[i as int] == (h@[i as int].name@, h@[i as int].value@));
            assert(hv.skip(i as int)[0] == hv[i as int]);
            assert(hv.skip(i as int).skip(1) =~= hv.skip(i + 1));
        }
        let keep = !(is_age_name(h[i].name.as_str()) && h[i].value.as_str().unicode_len() > 15);
        if keep {
            let ghost pre = out@;
            out.push(Header { name: h[i].name.clone(), value: h[i].value.clone() });
            proof {
                assert(spec_headers_view(out@) =~= spec_headers_view(pre) + seq![hv[i as int]]);
                assert(spec_headers_view(pre) + (seq![hv[i as int]] + spec_sanitized(
                    hv.skip(i + 1),
                )) =~= (spec_headers_view(pre) + seq![hv[i as int]]) + spec_sanitized(
                    hv.skip(i + 1),
                ));
            }
        }
        i = i + 1;
    }
    proof {
        assert(hv.skip(n as int) =~= Seq::<(Seq<char>, Seq<char>)>::empty());
        lemma_sanitized_ok(hv);
    }
    let ghost full = spec_headers_view(out@);
    out.truncate(MAX_POLICY_HEADERS);
    proof {
        if full.len() > MAX_POLICY_HEADERS {
            assert(spec_headers_view(out@) =~= full.take(MAX_POLICY_HEADERS as int));
        }
        assert(spec_headers_view(out@) == spec_capped(spec_sanitized(hv)));
        assert forall|i: int|
            0 <= i < spec_headers_view(out@).len() && spec_is_age_name(
                #[trigger] spec_headers_view(out@)[i].0,
            ) implies spec_headers_view(out@)[i].1.len() <= 15 by {
            assert(spec_headers_view(out@)[i] == full[i]);
        }
    }
    out
}

/// Position-wise header agreement gives equal plain views.
proof fn lemma_equiv_view(a: Seq<Header>, b: Seq<Header>)
    requires
        headers_equiv(a, b),
    ensures
        spec_headers_view(a) == spec_headers_view(b),
{
    assert(spec_headers_view(a) =~= spec_headers_view(b));
}

/// The plain view of a header list splits at any point.
proof fn lemma_view_concat(a: Seq<Header>, n: int)
    requires
        0 <= n <= a.len(),
    ensures
        spec_headers_view(a) == spec_headers_view(a.take(n)) + spec_headers_view(a.skip(n)),
{
    assert(spec_headers_view(a) =~= spec_headers_view(a.take(n)) + spec_headers_view(a.skip(n)));
}

/// Equivalent entries agree on everything the policy check reads.
proof fn lemma_entry_equiv_facts(a: CachedResponse, b: CachedResponse)
    requires
        entry_equiv(a, b),
    ensures
        a.updated_at == b.updated_at,
        a.ttl == b.ttl,
        a.tti == b.tti,
        a.spec_meta().status == b.spec_meta().status,
        spec_headers_view(a.spec_meta().headers@) == spec_headers_view(b.spec_meta().headers@),
        a.spec_body() == b.spec_body(),
{
    match (a.data, b.data) {
        (CacheData::GetObject { meta: m1, .. }, CacheData::GetObject { meta: m2, .. }) => {
            lemma_equiv_view(m1.headers@, m2.headers@);
        },
        (CacheData::HeadObject { meta: m1 }, CacheData::HeadObject { meta: m2 }) => {
            lemma_equiv_view(m1.headers@, m2.headers@);
        },
        (CacheData::ListObjects { meta: m1, .. }, CacheData::ListObjects { meta: m2, .. }) => {
            lemma_equiv_view(m1.headers@, m2.headers@);
        },
        (
            CacheData::ListObjectVersions { meta: m1, .. },
            CacheData::ListObjectVersions { meta: m2, .. },
        ) => {
            lemma_equiv_view(m1.headers@, m2.headers@);
        },
        (CacheData::Bucket { meta: m1 }, CacheData::Bucket { meta: m2 }) => {
            lemma_equiv_view(m1.headers@, m2.headers@);
        },
        (CacheData::ListBuckets { meta: m1, .. }, CacheData::ListBuckets { meta: m2, .. }) => {
            lemma_equiv_view(m1.headers@, m2.headers@);
        },
        _ => {
            assert(false);
        },
    }
}

/// The sanitized, capped stored headers the policy check of an entry
/// sees.
pub open spec fn spec_policy_resp_headers(v: CachedResponse) -> Seq<(Seq<char>, Seq<char>)> {
    spec_capped(spec_sanitized(spec_headers_view(v.spec_meta().headers@)))
}

/// What the policy decides for a stored entry `v`, a request described
/// by method name `mn`, URI `u` and header view `rh`, at time `now`:
/// nothing when the parts do not form a policy, else the computed
/// lifetime, the lookup action, and the verdict's headers.
pub open spec fn spec_policy_action(
    v: CachedResponse,
    mn: Seq<char>,
    u: Seq<char>,
    rh: Seq<(Seq<char>, Seq<char>)>,
    now: u64,
) -> Option<(u64, LookupAction, Seq<(Seq<char>, Seq<char>)>)> {
    let sh = spec_policy_resp_headers(v);
    let st = v.spec_meta().status;
    match policy_ttl_of(mn, u, rh, st, sh, v.updated_at) {
        None => None,
        Some(ttl) => Some(
            (
                ttl,
                spec_lookup_action(true, ttl, policy_state_of(mn, u, rh, st, sh, v.updated_at, now)),
                policy_headers_of(mn, u, rh, st, sh, v.updated_at, now),
            ),
        ),
    }
}

/// Append every header of `src` to `dst`; a later pair wins where the
/// edge serializes the list back into a header map.
pub fn extend_headers(dst: &mut Vec<Header>, src: Vec<Header>)
    ensures
        final(dst)@.len() == old(dst)@.len() + src@.len(),
        headers_equiv(final(dst)@.take(old(dst)@.len() as int), old(dst)@),
        headers_equiv(final(dst)@.skip(old(dst)@.len() as int), src@),
{
    let n = src.len();
    let ghost d0 = dst@;
    let mut i: usize = 0;
    let mut src = src;
    proof {
        assert(dst@.take(d0.len() as int) =~= d0);
    }
    while i < n
        invariant
            0 <= i <= n,
            n == src@.len(),
            dst@.len() == d0.len() + i,
            dst@.take(d0.len() as int) =~= d0,
            headers_equiv(dst@.skip(d0.len() as int), src@.take(i as int)),
        decreases n - i,
    {
        let ghost dpre = dst@;
        let h = Header { name: src[i].name.clone(), value: src[i].value.clone() };
        dst.push(h);
        proof {
            assert(dst@.take(d0.len() as int) =~= d0);
            let a = dst@.skip(d0.len() as int);
            let b = src@.take(i + 1);
            assert(a.len() == b.len());
            assert forall|j: int| 0 <= j < a.len() implies #[trigger] a[j].name@ == b[j].name@
                && a[j].value@ == b[j].value@ by {
                if j < i {
                    assert(a[j] == dpre.skip(d0.len() as int)[j]);
                    assert(b[j] == src@.take(i as int)[j]);
                } else {
                    assert(a[j] == dst@[dst@.len() - 1]);
                    assert(b[j] == src@[i as int]);
                }
            }
        }
        i = i + 1;
    }
    proof {
        assert(src@.take(n as int) =~= src@);
    }
}

/// Whether `d` is the payload built for operation `op` from encoded
/// response metadata `meta` and body bytes `body`: the same status and
/// headers, the body bytes kept for the operations whose responses
/// carry one, and the listing flavor flag set for `ListObjectsV2`.
pub open spec fn spec_built_data(
    op: OperationType,
    meta: ResponseMetaData,
    body: Seq<u8>,
    d: CacheData,
) -> bool {
    match op {
        OperationType::GetObject => d matches CacheData::GetObject { meta: m, bytes } && m.status
            == meta.status && headers_equiv(m.headers@, meta.headers@) && bytes@ == body,
        OperationType::HeadObject => d matches CacheData::HeadObject { meta: m } && m.status
            == meta.status && headers_equiv(m.headers@, meta.headers@),
        OperationType::ListObjects => d matches CacheData::ListObjects { meta: m, bytes, v2 }
            && m.status == meta.status && headers_equiv(m.headers@, meta.headers@) && bytes@
            == body && !v2,
        OperationType::ListObjectsV2 => d matches CacheData::ListObjects { meta: m, bytes, v2 }
            && m.status == meta.status && headers_equiv(m.headers@, meta.headers@) && bytes@
            == body && v2,
        OperationType::ListObjectVersions => d matches CacheData::ListObjectVersions {
            meta: m,
            bytes,
        } && m.status == meta.status && headers_equiv(m.headers@, meta.headers@) && bytes@ == body,
        OperationType::HeadBucket => d matches CacheData::Bucket { meta: m } && m.status
            == meta.status && headers_equiv(m.headers@, meta.headers@),
        OperationType::ListBuckets => d matches CacheData::ListBuckets { meta: m, bytes }
            && m.status == meta.status && headers_equiv(m.headers@, meta.headers@) && bytes@
            == body,
        _ => false,
    }
}

/// Build the cache payload for a cacheable operation from the encoded
/// response metadata and the buffered body bytes. Only the seven
/// cacheable operations get a payload.
pub fn build_cache_data(op: OperationType, meta: &ResponseMetaData, body: &Vec<u8>) -> (r: Option<
    CacheData,
>)
    ensures
        op.spec_cacheable() ==> (r matches Some(d) && spec_built_data(op, *meta, body@, d)),
        !op.spec_cacheable() ==> r is None,
{
    match op {
        OperationType::GetObject => Some(
            CacheData::GetObject { meta: duplicate_meta(meta), bytes: duplicate_bytes(body) },
        ),
        OperationType::HeadObject => Some(CacheData::HeadObject { meta: duplicate_meta(meta) }),
        OperationType::ListObjects => Some(
            CacheData::ListObjects {
                meta: duplicate_meta(meta),
                bytes: duplicate_bytes(body),
                v2: false,
            },
        ),
        OperationType::ListObjectsV2 => Some(
            CacheData::ListObjects {
                meta: duplicate_meta(meta),
                bytes: duplicate_bytes(body),
                v2: true,
            },
        ),
        OperationType::ListObjectVersions => Some(
            CacheData::ListObjectVersions {
                meta: duplicate_meta(meta),
                bytes: duplicate_bytes(body),
            },
        ),
        OperationType::HeadBucket => Some(CacheData::Bucket { meta: duplicate_meta(meta) }),
        OperationType::ListBuckets => Some(
            CacheData::ListBuckets { meta: duplicate_meta(meta), bytes: duplicate_bytes(body) },
        ),
        _ => None,
    }
}

/// What the layer does with the upstream's answer before any storing:
/// deliver it; deliver the cached stale response in its place; or fail.
pub enum UpstreamOutcome {
    Deliver(Response),
    DeliverCached(Response),
    Fail(SendError),
}

/// The revalidation rule: a successful response is delivered. An
/// upstream error response of `304 Not Modified`, when the lookup was
/// stale, answers the cached response — unless the client supplied its
/// own conditional, which is honored by passing the `304` through.
/// Every other error propagates unchanged.
pub open spec fn spec_on_upstream(
    stale: Option<Response>,
    client_conditional: bool,
    result: Result<Response, SendError>,
) -> UpstreamOutcome {
    match result {
        Ok(resp) => UpstreamOutcome::Deliver(resp),
        Err(e) => match e {
            SendError::ResponseErr(resp, msg) => if resp.status == 304 && stale is Some {
                if client_conditional {
                    UpstreamOutcome::Deliver(resp)
                } else {
                    UpstreamOutcome::DeliverCached(stale->Some_0)
                }
            } else {
                UpstreamOutcome::Fail(SendError::ResponseErr(resp, msg))
            },
            _ => UpstreamOutcome::Fail(e),
        },
    }
}

/// Apply the revalidation rule; see [`spec_on_upstream`].
pub fn on_upstream_result(
    stale: Option<Response>,
    client_conditional: bool,
    result: Result<Response, SendError>,
) -> (r: UpstreamOutcome)
    ensures
        r == spec_on_upstream(stale, client_conditional, result),
{
    match result {
        Ok(resp) => UpstreamOutcome::Deliver(resp),
        Err(e) => match e {
            SendError::ResponseErr(resp, msg) => {
                if resp.status == 304 && stale.is_some() {
                    if client_conditional {
                        UpstreamOutcome::Deliver(resp)
                    } else {
                        match stale {
                            Some(c) => UpstreamOutcome::DeliverCached(c),
                            None => UpstreamOutcome::Fail(SendError::ResponseErr(resp, msg)),
                        }
                    }
                } else {
                    UpstreamOutcome::Fail(SendError::ResponseErr(resp, msg))
                }
            },
            _ => UpstreamOutcome::Fail(e),
        },
    }
}

/// The caching middleware: the store and its configuration.
pub struct CacheLayer {
    pub store: CacheStore,
    pub config: CacheMiddlewareConfig,
}

/// What the request phase tells the driving edge to do.
pub enum RequestPhase {
    /// The request is not cacheable: forward it untouched, return the
    /// answer untouched.
    Bypass,
    /// A fresh cached response answers the request.
    Respond(Response),
    /// Forward the request (possibly now carrying revalidation
    /// headers), then hand the answer to the response phase together
    /// with these values.
    Forward {
        key: String,
        ttl: Option<u64>,
        tti: Option<u64>,
        client_conditional: bool,
        stale: Option<Response>,
    },
}

impl CacheLayer {
    /// The layer's invariant: its store is well formed and its budget
    /// and expiry defaults are exactly the configured ones — so the
    /// store's weight bound is a bound by the configured cache size.
    pub open spec fn wf(&self) -> bool {
        &&& self.store.wf()
        &&& self.store.cache_size == self.config.cache_size
        &&& self.store.ttl == self.config.ttl
        &&& self.store.tti == self.config.tti
    }

    /// A layer over a fresh store built from the configuration.
    pub fn from_config(config: CacheMiddlewareConfig) -> (r: CacheLayer)
        ensures
            r.wf(),
            r.store.entries@.len() == 0,
            r.store.cache_size == config.cache_size,
            r.store.ttl == config.ttl,
            r.store.tti == config.tti,
            r.config == config,
    {
        let store = CacheStore::new(config.cache_size, config.ttl, config.tti);
        CacheLayer { store, config }
    }

    /// A layer with the given weight budget and cache-wide expiry
    /// defaults, all operations enabled.
    pub fn new(capacity: u64, ttl: Option<u64>, tti: Option<u64>) -> (r: CacheLayer)
        ensures
            r.wf(),
            r.store.entries@.len() == 0,
            r.store.cache_size == capacity,
            r.store.ttl == ttl,
            r.store.tti == tti,
            r.config.cache_size == capacity,
            r.config.ttl == ttl,
            r.config.tti == tti,
    {
        let mut config: CacheMiddlewareConfig = Default::default();
        config.cache_size = capacity;
        config.ttl = ttl;
        config.tti = tti;
        Self::from_config(config)
    }

    /// Decide cacheability of the request: decode its input metadata
    /// (memoized on the envelope) and consult the per-operation
    /// configuration.
    pub fn make_cache_intent(&self, req: &mut Request) -> (r: Option<CacheIntent>)
        ensures
            final(req).method == old(req).method,
            final(req).uri_path == old(req).uri_path,
            final(req).uri_query == old(req).uri_query,
            final(req).headers == old(req).headers,
            final(req).body == old(req).body,
            old(req).s3_ext is None ==> r is None,
            match old(req).s3_ext {
                Some(e) => match (e.data, e.op) {
                    (Some(MetaData::Input(m)), _) => intent_matches(
                        r,
                        spec_make_cache_intent(m, self.config),
                    ),
                    (None, Some(op)) => match r {
                        Some(i) => exists|m: InputMeta|
                            #[trigger] decoded_input_matches(op, e, old(req).headers@, Some(m))
                                && intent_matches(Some(i), spec_make_cache_intent(m, self.config)),
                        None => decoded_input_matches(op, e, old(req).headers@, None) || (exists|
                            m: InputMeta,
                        |
                            #[trigger] decoded_input_matches(op, e, old(req).headers@, Some(m))
                                && spec_make_cache_intent(m, self.config) is None),
                    },
                    (None, None) => r is None,
                    _ => true,
                },
                None => r is None,
            },
    {
        let ghost e0 = req.s3_ext;
        let meta = req.try_get_input();
        match meta {
            Some(m) => {
                let r = make_cache_intent(m, &self.config);
                proof {
                    match e0 {
                        Some(e) => if e.data is None && e.op is Some {
                            let op = e.op->Some_0;
                            assert(decoded_input_matches(op, e, old(req).headers@, Some(*m)));
                        },
                        None => (),
                    }
                }
                r
            },
            None => None,
        }
    }

    /// Read the cache without any freshness check: rebuild the stored
    /// response under `key`, or fail when nothing (live) is stored.
    pub fn get_cached_response(&mut self, key: &str, now: u64) -> (r: Result<Response, SendError>)
        requires
            old(self).wf(),
        ensures
            final(self).wf(),
            final(self).config == old(self).config,
            match spec_get_value(old(self).store.entries@, key@, now) {
                Some(v) => r matches Ok(resp) && resp.status == v.spec_meta().status && resp.body@
                    == v.spec_body() && spec_headers_view(resp.headers@) == spec_headers_view(
                    v.spec_meta().headers@,
                ),
                None => r matches Err(SendError::Internal(_)),
            },
    {
        let ghost s0 = self.store.entries@;
        match self.store.get(key, now) {
            Some(v) => {
                proof {
                    let gv = spec_get_value(s0, key@, now)->Some_0;
                    lemma_entry_equiv_facts(gv, v);
                }
                let resp = v.to_response();
                proof {
                    lemma_equiv_view(resp.headers@, v.spec_meta().headers@);
                }
                Ok(resp)
            },
            None => Err(SendError::Internal("no cache entry found".to_owned())),
        }
    }

    /// Consult the cache under the HTTP freshness policy.
    ///
    /// A hit is judged by a cache policy built from the request, the
    /// stored response (its headers sanitized of oversized `age`
    /// values) and its write time; the lookup protocol of
    /// [`spec_lookup_action`] then decides, with a zero computed
    /// lifetime counting as fresh. A fresh entry is answered with the
    /// policy's extra reply headers merged in; a stale match is
    /// answered as stale after the revalidation headers are appended to
    /// the request; a mismatch drops the entry.
    pub fn get_matching_response(&mut self, key: &str, req: &mut Request, now: u64) -> (r:
        CacheState<Response>)
        requires
            old(self).wf(),
            now <= MAX_POLICY_TIME_MS,
            old(req).headers@.len() <= MAX_POLICY_HEADERS,
        ensures
            final(self).wf(),
            final(self).config == old(self).config,
            final(self).store.cache_size == old(self).store.cache_size,
            final(self).store.ttl == old(self).store.ttl,
            final(self).store.tti == old(self).store.tti,
            forall|k2: Seq<char>|
                k2 != key@ ==> #[trigger] spec_lookup(final(self).store.entries@, k2)
                    == spec_lookup(old(self).store.entries@, k2),
            final(req).method == old(req).method,
            final(req).uri_path == old(req).uri_path,
            final(req).uri_query == old(req).uri_query,
            final(req).body == old(req).body,
            final(req).s3_ext == old(req).s3_ext,
            final(req).headers@.len() >= old(req).headers@.len(),
            headers_equiv(final(req).headers@.take(old(req).headers@.len() as int), old(req).headers@),
            match spec_get_value(old(self).store.entries@, key@, now) {
                None => r is Miss && final(req).headers == old(req).headers,
                Some(v) => match spec_policy_action(
                    v,
                    spec_method_name(old(req).method),
                    spec_uri_of(
                        old(req).uri_path@,
                        match old(req).uri_query {
                            Some(q) => Some(q@),
                            None => None,
                        },
                    ),
                    spec_headers_view(old(req).headers@),
                    now,
                ) {
                    None => r is Miss && final(req).headers == old(req).headers,
                    Some((ttl_ms, action, ph)) => match action {
                        LookupAction::ReturnFresh => {
                            &&& r matches CacheState::Fresh(resp) && resp.status
                                == v.spec_meta().status && resp.body@ == v.spec_body()
                                && spec_headers_view(resp.headers@) == (if ttl_ms == 0 {
                                spec_headers_view(v.spec_meta().headers@)
                            } else {
                                spec_headers_view(v.spec_meta().headers@) + ph
                            })
                            &&& final(req).headers == old(req).headers
                            &&& spec_lookup(final(self).store.entries@, key@) matches Some(e2)
                                && e2.value == v
                        },
                        LookupAction::ReturnStale => {
                            &&& r matches CacheState::Stale(resp) && resp.status
                                == v.spec_meta().status && resp.body@ == v.spec_body()
                                && spec_headers_view(resp.headers@) == spec_headers_view(
                                v.spec_meta().headers@,
                            )
                            &&& spec_headers_view(final(req).headers@) == spec_headers_view(
                                old(req).headers@,
                            ) + ph
                            &&& spec_lookup(final(self).store.entries@, key@) matches Some(e2)
                                && e2.value == v
                        },
                        LookupAction::RemoveAndMiss => r is Miss && spec_lookup(
                            final(self).store.entries@,
                            key@,
                        ) is None && final(req).headers == old(req).headers,
                        LookupAction::ReturnMiss => false,
                    },
                },
            },
    {
        proof {
            assert(req.headers@.take(req.headers@.len() as int) =~= req.headers@);
        }
        let ghost s0 = self.store.entries@;
        let entry = self.store.get(key, now);
        let uri = build_uri(req);
        let v = match entry {
            Some(v) => v,
            None => { return CacheState::Miss; },
        };
        let ghost gv = spec_get_value(s0, key@, now)->Some_0;
        proof {
            lemma_entry_equiv_facts(gv, v);
        }
        let mut resp = v.to_response();
        let method = method_name(req.method);
        let ph_headers = sanitize_age_headers(&resp.headers);
        proof {
            assert(headers_equiv(resp.headers@, v.spec_meta().headers@));
            lemma_equiv_view(resp.headers@, v.spec_meta().headers@);
            assert(spec_headers_view(ph_headers@) == spec_policy_resp_headers(gv));
        }
        let ttl_opt = policy_ttl_ms(
            method,
            uri.as_str(),
            &req.headers,
            resp.status,
            &ph_headers,
            v.updated_at,
        );
        let ttl_ms = match ttl_opt {
            Some(t) => t,
            None => { return CacheState::Miss; },
        };
        let state = policy_state_ms(
            method,
            uri.as_str(),
            &req.headers,
            resp.status,
            &ph_headers,
            v.updated_at,
            now,
        );
        let action = lookup_action(true, ttl_ms, state);
        proof {
            assert(spec_policy_action(
                gv,
                spec_method_name(req.method),
                uri@,
                spec_headers_view(req.headers@),
                now,
            ) == Some((ttl_ms, action, policy_headers_of(
                spec_method_name(req.method),
                uri@,
                spec_headers_view(req.headers@),
                gv.spec_meta().status,
                spec_policy_resp_headers(gv),
                gv.updated_at,
                now,
            ))));
        }
        match action {
            LookupAction::ReturnMiss => CacheState::Miss,
            LookupAction::ReturnFresh => {
                if ttl_ms != 0 {
                    let ghost pre = resp.headers@;
                    let extra = policy_headers_ms(
                        method,
                        uri.as_str(),
                        &req.headers,
                        resp.status,
                        &ph_headers,
                        v.updated_at,
                        now,
                    );
                    extend_headers(&mut resp.headers, extra);
                    proof {
                        lemma_view_concat(resp.headers@, pre.len() as int);
                        lemma_equiv_view(resp.headers@.take(pre.len() as int), pre);
                        lemma_equiv_view(resp.headers@.skip(pre.len() as int), extra@);
                    }
                }
                CacheState::Fresh(resp)
            },
            LookupAction::ReturnStale => {
                let ghost pre = req.headers@;
                let extra = policy_headers_ms(
                    method,
                    uri.as_str(),
                    &req.headers,
                    resp.status,
                    &ph_headers,
                    v.updated_at,
                    now,
                );
                extend_headers(&mut req.headers, extra);
                proof {
                    lemma_view_concat(req.headers@, pre.len() as int);
                    lemma_equiv_view(req.headers@.take(pre.len() as int), pre);
                    lemma_equiv_view(req.headers@.skip(pre.len() as int), extra@);
                }
                CacheState::Stale(resp)
            },
            LookupAction::RemoveAndMiss => {
                self.store.remove(key);
                CacheState::Miss
            },
        }
    }
}

/// A `Forward` answer carrying exactly this intent and conditional
/// flag, with no stale response attached.
pub open spec fn spec_forward_miss(r: RequestPhase, intent: SpecIntent, cc: bool) -> bool {
    r matches RequestPhase::Forward { key, ttl, tti, client_conditional, stale } && key@
        == intent.key && ttl == intent.ttl && tti == intent.tti && client_conditional == cc
        && stale is None
}

/// A `Forward` answer carrying exactly this intent and conditional
/// flag, with the stored payload of `v` attached as the stale response.
pub open spec fn spec_forward_stale(
    r: RequestPhase,
    intent: SpecIntent,
    cc: bool,
    v: CachedResponse,
) -> bool {
    r matches RequestPhase::Forward { key, ttl, tti, client_conditional, stale } && key@
        == intent.key && ttl == intent.ttl && tti == intent.tti && client_conditional == cc && (
    stale matches Some(resp) && resp.status == v.spec_meta().status && resp.body@ == v.spec_body()
        && spec_headers_view(resp.headers@) == spec_headers_view(v.spec_meta().headers@))
}

/// What the request phase answers, given the cacheability intent the
/// request denotes: no intent bypasses; with an intent, the stored
/// entry under its key and the policy's action decide — a fresh hit is
/// answered with the stored payload (and the policy's extra headers
/// when the lifetime is not the proxy-owned zero), a stale match
/// forwards with the stored payload attached, and everything else
/// forwards plainly.
pub open spec fn spec_phase_outcome(
    si: Option<SpecIntent>,
    s0: Seq<StoreEntry>,
    req0: Request,
    r: RequestPhase,
    now: u64,
) -> bool {
    match si {
        None => r is Bypass,
        Some(intent) => {
            let mn = spec_method_name(req0.method);
            let u = spec_uri_of(
                req0.uri_path@,
                match req0.uri_query {
                    Some(q) => Some(q@),
                    None => None,
                },
            );
            let rh = spec_headers_view(req0.headers@);
            let cc = crate::req::headers_has_name(req0.headers@, "if-none-match"@);
            match spec_get_value(s0, intent.key, now) {
                None => spec_forward_miss(r, intent, cc),
                Some(v) => match spec_policy_action(v, mn, u, rh, now) {
                    None => spec_forward_miss(r, intent, cc),
                    Some((ttl_ms, action, ph)) => match action {
                        LookupAction::ReturnFresh => r matches RequestPhase::Respond(resp)
                            && resp.status == v.spec_meta().status && resp.body@ == v.spec_body()
                            && spec_headers_view(resp.headers@) == (if ttl_ms == 0 {
                            spec_headers_view(v.spec_meta().headers@)
                        } else {
                            spec_headers_view(v.spec_meta().headers@) + ph
                        }),
                        LookupAction::ReturnStale => spec_forward_stale(r, intent, cc, v),
                        LookupAction::RemoveAndMiss => spec_forward_miss(r, intent, cc),
                        LookupAction::ReturnMiss => false,
                    },
                },
            }
        },
    }
}

impl CacheLayer {
    /// The request side of the caching call: bypass when the request is
    /// not cacheable, answer a fresh hit, otherwise have the request
    /// forwarded, remembering what the response phase needs.
    pub fn request_phase(&mut self, req: &mut Request, now: u64) -> (r: RequestPhase)
        requires
            old(self).wf(),
            now <= MAX_POLICY_TIME_MS,
            old(req).headers@.len() <= MAX_POLICY_HEADERS,
        ensures
            final(self).wf(),
            final(self).config == old(self).config,
            final(self).store.cache_size == old(self).store.cache_size,
            final(self).store.ttl == old(self).store.ttl,
            final(self).store.tti == old(self).store.tti,
            r is Bypass ==> final(self).store.entries@ == old(self).store.entries@,
            old(req).s3_ext is None ==> r is Bypass,
            match old(req).s3_ext {
                Some(e) => match (e.data, e.op) {
                    (Some(MetaData::Input(m)), _) => spec_phase_outcome(
                        spec_make_cache_intent(m, old(self).config),
                        old(self).store.entries@,
                        *old(req),
                        r,
                        now,
                    ),
                    (None, Some(op)) => (decoded_input_matches(op, e, old(req).headers@, None)
                        && r is Bypass) || (exists|m: InputMeta|
                        #[trigger] decoded_input_matches(op, e, old(req).headers@, Some(m))
                            && spec_phase_outcome(
                            spec_make_cache_intent(m, old(self).config),
                            old(self).store.entries@,
                            *old(req),
                            r,
                            now,
                        )),
                    (None, None) => r is Bypass,
                    _ => true,
                },
                None => r is Bypass,
            },
            final(req).method == old(req).method,
            final(req).uri_path == old(req).uri_path,
            final(req).uri_query == old(req).uri_query,
            final(req).headers@.len() >= old(req).headers@.len(),
            headers_equiv(final(req).headers@.take(old(req).headers@.len() as int), old(req).headers@),
            r matches RequestPhase::Forward { key, ttl, tti, client_conditional, stale } ==> (
            client_conditional == crate::req::headers_has_name(old(req).headers@, "if-none-match"@)),
    {
        proof {
            assert(req.headers@.take(req.headers@.len() as int) =~= req.headers@);
        }
        let ghost e0 = req.s3_ext;
        let intent = match self.make_cache_intent(req) {
            Some(i) => i,
            None => {
                proof {
                    match e0 {
                        Some(e) => match (e.data, e.op) {
                            (Option::<MetaData>::None, Some(op)) => {
                                if !decoded_input_matches(op, e, old(req).headers@, None) {
                                    let m = choose|m: InputMeta|
                                        #[trigger] decoded_input_matches(
                                            op,
                                            e,
                                            old(req).headers@,
                                            Some(m),
                                        ) && spec_make_cache_intent(m, self.config) is None;
                                    assert(spec_phase_outcome(
                                        spec_make_cache_intent(m, self.config),
                                        self.store.entries@,
                                        *old(req),
                                        RequestPhase::Bypass,
                                        now,
                                    ));
                                }
                            },
                            _ => (),
                        },
                        None => (),
                    }
                }
                return RequestPhase::Bypass;
            },
        };
        let client_conditional = headers_contains(&req.headers, "if-none-match");
        proof {
            match e0 {
                Some(e) => match (e.data, e.op) {
                    (Option::<MetaData>::None, Some(op)) => {
                        assert(exists|m: InputMeta|
                            #[trigger] decoded_input_matches(op, e, old(req).headers@, Some(m))
                                && intent_matches(
                                Some(intent),
                                spec_make_cache_intent(m, self.config),
                            ));
                    },
                    _ => (),
                },
                None => (),
            }
        }
        match self.get_matching_response(intent.key.as_str(), req, now) {
            CacheState::Fresh(resp) => RequestPhase::Respond(resp),
            CacheState::Stale(resp) => RequestPhase::Forward {
                key: intent.key,
                ttl: intent.ttl,
                tti: intent.tti,
                client_conditional,
                stale: Some(resp),
            },
            CacheState::Miss => RequestPhase::Forward {
                key: intent.key,
                ttl: intent.ttl,
                tti: intent.tti,
                client_conditional,
                stale: None,
            },
        }
    }

    /// The response side of the caching call.
    ///
    /// The revalidation rule of [`spec_on_upstream`] is applied first.
    /// A delivered response of a cacheable operation with status 200
    /// whose envelope carries the decoded output metadata is buffered
    /// and written to the cache under `key` with the intent's expiry
    /// settings; a delivered response without an envelope is passed
    /// through untouched; one whose envelope lacks the operation tag or
    /// the output metadata is an internal fault.
    pub fn response_phase(
        &mut self,
        key: String,
        ttl: Option<u64>,
        tti: Option<u64>,
        client_conditional: bool,
        stale: Option<Response>,
        result: Result<Response, SendError>,
        now: u64,
    ) -> (r: Result<Response, SendError>)
        requires
            old(self).wf(),
        ensures
            final(self).wf(),
            final(self).config == old(self).config,
            final(self).store.cache_size == old(self).store.cache_size,
            final(self).store.ttl == old(self).store.ttl,
            final(self).store.tti == old(self).store.tti,
            match spec_on_upstream(stale, client_conditional, result) {
                UpstreamOutcome::Fail(e) => r == Err::<Response, SendError>(e) && final(self).store.entries@
                    == old(self).store.entries@,
                UpstreamOutcome::DeliverCached(c) => r == Ok::<Response, SendError>(c) && final(self).store.entries@
                    == old(self).store.entries@,
                UpstreamOutcome::Deliver(resp) => match resp.s3_ext {
                    None => r == Ok::<Response, SendError>(resp) && final(self).store.entries@
                        == old(self).store.entries@,
                    Some(ext) => {
                        if ext.op is None {
                            r matches Err(SendError::Internal(_))
                        } else if !ext.op->Some_0.spec_cacheable() || resp.status != 200 {
                            r == Ok::<Response, SendError>(resp) && final(self).store.entries@
                                == old(self).store.entries@
                        } else {
                            match ext.data {
                                Some(MetaData::Output(om)) => {
                                    &&& r == Ok::<Response, SendError>(resp)
                                    &&& ({
                                        let w: int = if ext.op->Some_0
                                            == OperationType::GetObject {
                                            resp.body@.len() as int
                                        } else {
                                            1
                                        };
                                        w <= old(self).store.cache_size ==> (spec_lookup(
                                            final(self).store.entries@,
                                            key@,
                                        ) matches Some(e2) && e2.value.ttl == ttl && e2.value.tti
                                            == tti && e2.value.updated_at == now
                                            && spec_built_data(
                                            ext.op->Some_0,
                                            om,
                                            resp.body@,
                                            e2.value.data,
                                        ))
                                    })
                                },
                                _ => r matches Err(SendError::Internal(_)),
                            }
                        }
                    },
                },
            },
    {
        let outcome = on_upstream_result(stale, client_conditional, result);
        let resp = match outcome {
            UpstreamOutcome::Fail(e) => { return Err(e); },
            UpstreamOutcome::DeliverCached(c) => { return Ok(c); },
            UpstreamOutcome::Deliver(resp) => resp,
        };
        match &resp.s3_ext {
            None => Ok(resp),
            Some(ext) => {
                let op = match ext.op {
                    Some(op) => op,
                    None => { return Err(SendError::Internal("missing operation tag".to_owned())) },
                };
                if !op.is_cacheable() || resp.status != 200 {
                    return Ok(resp);
                }
                let meta = match &ext.data {
                    Some(MetaData::Output(m)) => m,
                    _ => {
                        return Err(
                            SendError::Internal("missing decoded output metadata".to_owned()),
                        );
                    },
                };
                let data = match build_cache_data(op, meta, &resp.body) {
                    Some(d) => d,
                    None => { return Ok(resp) },
                };
                let entry = CachedResponse::new(data, now).time_to_live(ttl).time_to_idle(tti);
                proof {
                    assert(entry.spec_size() == (if op == OperationType::GetObject {
                        resp.body@.len() as int
                    } else {
                        1int
                    }));
                }
                self.store.insert(key, entry, now);
                Ok(resp)
            },
        }
    }
}

/// The wire name of a method.
pub open spec fn spec_method_name(m: Method) -> Seq<char> {
    match m {
        Method::Head => "HEAD"@,
        Method::Get => "GET"@,
        Method::Post => "POST"@,
        Method::Put => "PUT"@,
        Method::Delete => "DELETE"@,
        Method::Other => "OTHER"@,
    }
}

/// The wire name of a method.
pub fn method_name(m: Method) -> (r: &'static str)
    ensures
        r@ == spec_method_name(m),
{
    match m {
        Method::Head => "HEAD",
        Method::Get => "GET",
        Method::Post => "POST",
        Method::Put => "PUT",
        Method::Delete => "DELETE",
        Method::Other => "OTHER",
    }
}

} // verus!
