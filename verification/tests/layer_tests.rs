use s3p::cache::layer::{LookupAction, RequestPhase, UpstreamOutcome};
use s3p::cache::layer::{lookup_action, on_upstream_result};
use s3p::policy::PolicyState;
use s3p::s3::{MetaData, ResponseMetaData};
use s3p::{CacheLayer, Header, Method, OperationType, Request, Response, SendError};

fn get_request(path: &str, headers: Vec<(&str, &str)>) -> Request {
    let hs: Vec<Header> = headers.iter().map(|(n, v)| Header::new(n, v)).collect();
    let mut req = Request::from_wire(Method::Get, path, None, hs, Vec::new());
    req.s3_ext.as_mut().unwrap().op = Some(OperationType::GetObject);
    req
}

fn upstream_ok(headers: Vec<(&str, &str)>, body: &[u8]) -> Response {
    let hs: Vec<Header> = headers.iter().map(|(n, v)| Header::new(n, v)).collect();
    let meta_headers: Vec<Header> = headers.iter().map(|(n, v)| Header::new(n, v)).collect();
    let ext = s3p::S3Extension {
        s3_path: None,
        qs: None,
        credentials: None,
        op: Some(OperationType::GetObject),
        data: Some(MetaData::Output(ResponseMetaData { status: 200, headers: meta_headers })),
    };
    Response { status: 200, headers: hs, body: body.to_vec(), s3_ext: Some(ext) }
}

fn forward(layer: &mut CacheLayer, req: &mut Request, now: u64) -> (String, Option<u64>, Option<u64>, bool, Option<Response>) {
    match layer.request_phase(req, now) {
        RequestPhase::Forward { key, ttl, tti, client_conditional, stale } => {
            (key, ttl, tti, client_conditional, stale)
        }
        RequestPhase::Respond(_) => panic!("expected a forward, got a cached response"),
        RequestPhase::Bypass => panic!("expected a forward, got a bypass"),
    }
}

#[test]
fn cold_get_misses_then_serves_from_cache() {
    let mut layer = CacheLayer::new(1_000_000, None, None);

    // first request: a miss that forwards upstream
    let mut req = get_request("/b/o", vec![]);
    let (key, ttl, tti, cc, stale) = forward(&mut layer, &mut req, 1_000);
    assert_eq!(key, "GetObject b, o, ");
    assert!(stale.is_none());
    assert!(!cc);

    // upstream answers 200 "hello" with no cache-control; the layer stores it
    let resp = upstream_ok(vec![], b"hello");
    let out = layer.response_phase(key, ttl, tti, cc, stale, Ok(resp), 1_000);
    let delivered = out.ok().expect("the upstream response is delivered");
    assert_eq!(delivered.status, 200);
    assert_eq!(delivered.body, b"hello".to_vec());

    // second request: answered from the cache without any upstream call
    let mut req2 = get_request("/b/o", vec![]);
    match layer.request_phase(&mut req2, 2_000) {
        RequestPhase::Respond(resp) => {
            assert_eq!(resp.status, 200);
            assert_eq!(resp.body, b"hello".to_vec());
        }
        _ => panic!("expected a cached response"),
    }
}

fn prime_stale_entry(layer: &mut CacheLayer) {
    // prime with a short freshness lifetime and a validator
    let mut req = get_request("/b/o", vec![]);
    let (key, ttl, tti, cc, stale) = forward(layer, &mut req, 1_000_000);
    let resp = upstream_ok(vec![("cache-control", "max-age=1"), ("etag", "\"abc\"")], b"hello");
    layer
        .response_phase(key, ttl, tti, cc, stale, Ok(resp), 1_000_000)
        .ok()
        .expect("priming must deliver");
}

#[test]
fn stale_entry_revalidates_and_304_answers_the_cached_body() {
    let mut layer = CacheLayer::new(1_000_000, None, None);
    prime_stale_entry(&mut layer);

    // much later the entry is stale: the request is forwarded with the
    // proxy's own conditional header added
    let mut req = get_request("/b/o", vec![]);
    let (key, ttl, tti, cc, stale) = forward(&mut layer, &mut req, 5_000_000);
    assert!(!cc);
    let cached = stale.as_ref().expect("the stale response is carried along");
    assert_eq!(cached.status, 200);
    let added = req
        .headers
        .iter()
        .find(|h| h.name == "if-none-match")
        .expect("the proxy adds its conditional");
    assert_eq!(added.value, "\"abc\"");

    // upstream says 304: the proxy answers the cached 200 body
    let not_modified = Response::with_status(304);
    let out = layer.response_phase(
        key,
        ttl,
        tti,
        cc,
        stale,
        Err(SendError::ResponseErr(not_modified, "not modified".to_string())),
        5_000_000,
    );
    let delivered = out.ok().expect("the cached response is delivered");
    assert_eq!(delivered.status, 200);
    assert_eq!(delivered.body, b"hello".to_vec());
}

#[test]
fn client_conditional_is_honored_with_304() {
    let mut layer = CacheLayer::new(1_000_000, None, None);
    prime_stale_entry(&mut layer);

    // the client brings its own conditional
    let mut req = get_request("/b/o", vec![("if-none-match", "\"abc\"")]);
    let (key, ttl, tti, cc, stale) = forward(&mut layer, &mut req, 5_000_000);
    assert!(cc);
    assert!(stale.is_some());

    // upstream says 304: the client gets the 304, not the cached body
    let not_modified = Response::with_status(304);
    let out = layer.response_phase(
        key,
        ttl,
        tti,
        cc,
        stale,
        Err(SendError::ResponseErr(not_modified, "not modified".to_string())),
        5_000_000,
    );
    let delivered = out.ok().expect("the 304 passes through");
    assert_eq!(delivered.status, 304);
}

#[test]
fn range_request_bypasses_the_cache() {
    let mut layer = CacheLayer::new(1_000_000, None, None);
    let mut req = get_request("/b/o", vec![("range", "bytes=0-10")]);
    match layer.request_phase(&mut req, 1_000) {
        RequestPhase::Bypass => {}
        _ => panic!("a range request must bypass the cache"),
    }
    assert_eq!(layer.store.entries.len(), 0);
}

#[test]
fn non_cacheable_status_is_not_stored() {
    let mut layer = CacheLayer::new(1_000_000, None, None);
    let mut req = get_request("/b/o", vec![]);
    let (key, ttl, tti, cc, stale) = forward(&mut layer, &mut req, 1_000);
    let mut resp = upstream_ok(vec![], b"missing");
    resp.status = 404;
    if let Some(MetaData::Output(m)) = &mut resp.s3_ext.as_mut().unwrap().data {
        m.status = 404;
    }
    let out = layer.response_phase(key, ttl, tti, cc, stale, Ok(resp), 1_000);
    assert_eq!(out.ok().expect("the 404 is delivered").status, 404);
    assert_eq!(layer.store.entries.len(), 0);
}

#[test]
fn missing_operation_tag_is_an_internal_fault() {
    let mut layer = CacheLayer::new(1_000_000, None, None);
    let mut req = get_request("/b/o", vec![]);
    let (key, ttl, tti, cc, stale) = forward(&mut layer, &mut req, 1_000);
    let mut resp = upstream_ok(vec![], b"hello");
    resp.s3_ext.as_mut().unwrap().op = None;
    let out = layer.response_phase(key, ttl, tti, cc, stale, Ok(resp), 1_000);
    match out {
        Err(SendError::Internal(_)) => {}
        _ => panic!("a response-side envelope without an operation tag is internal"),
    }
}

#[test]
fn lookup_action_follows_the_protocol() {
    assert_eq!(lookup_action(false, 7, PolicyState::Fresh), LookupAction::ReturnMiss);
    assert_eq!(lookup_action(true, 0, PolicyState::StaleMismatch), LookupAction::ReturnFresh);
    assert_eq!(lookup_action(true, 5, PolicyState::Fresh), LookupAction::ReturnFresh);
    assert_eq!(lookup_action(true, 5, PolicyState::StaleMatches), LookupAction::ReturnStale);
    assert_eq!(lookup_action(true, 5, PolicyState::StaleMismatch), LookupAction::RemoveAndMiss);
}

#[test]
fn upstream_errors_propagate_unchanged() {
    let err = SendError::Internal("boom".to_string());
    match on_upstream_result(None, false, Err(err)) {
        UpstreamOutcome::Fail(SendError::Internal(m)) => assert_eq!(m, "boom"),
        _ => panic!("internal errors propagate"),
    }
    // a 304 without a stale entry also propagates
    let resp = Response::with_status(304);
    match on_upstream_result(None, false, Err(SendError::ResponseErr(resp, "m".to_string()))) {
        UpstreamOutcome::Fail(SendError::ResponseErr(r, _)) => assert_eq!(r.status, 304),
        _ => panic!("a 304 without a stale entry propagates"),
    }
}

#[test]
fn list_responses_keep_their_bodies() {
    let mut layer = CacheLayer::new(1_000_000, None, None);
    let mut req = Request::from_wire(Method::Get, "/b", None, Vec::new(), Vec::new());
    req.s3_ext.as_mut().unwrap().op = Some(OperationType::ListObjectsV2);
    let (key, ttl, tti, cc, stale) = forward(&mut layer, &mut req, 1_000);
    assert_eq!(key, "ObjectList b, , ");
    let listing = b"<ListBucketResult><Name>b</Name></ListBucketResult>";
    let mut resp = upstream_ok(vec![], listing);
    resp.s3_ext.as_mut().unwrap().op = Some(OperationType::ListObjectsV2);
    layer.response_phase(key, ttl, tti, cc, stale, Ok(resp), 1_000).ok().unwrap();

    let mut req2 = Request::from_wire(Method::Get, "/b", None, Vec::new(), Vec::new());
    req2.s3_ext.as_mut().unwrap().op = Some(OperationType::ListObjectsV2);
    match layer.request_phase(&mut req2, 2_000) {
        RequestPhase::Respond(resp) => {
            assert_eq!(resp.status, 200);
            assert_eq!(resp.body, listing.to_vec());
        }
        _ => panic!("expected the cached listing"),
    }
}

#[test]
fn absurd_age_header_does_not_break_the_lookup() {
    let mut layer = CacheLayer::new(1_000_000, None, None);
    let mut req = get_request("/b/o", vec![]);
    let (key, ttl, tti, cc, stale) = forward(&mut layer, &mut req, 1_000_000);
    // an origin that sends an age far past any representable duration
    let resp = upstream_ok(
        vec![
            ("cache-control", "max-age=1"),
            ("age", "18446744073709551615"),
            ("etag", "\"abc\""),
        ],
        b"hello",
    );
    layer.response_phase(key, ttl, tti, cc, stale, Ok(resp), 1_000_000).ok().unwrap();

    // a much later lookup exercises the policy on the stored headers
    let mut req2 = get_request("/b/o", vec![]);
    match layer.request_phase(&mut req2, 5_000_000) {
        RequestPhase::Forward { stale, .. } => assert!(stale.is_some()),
        RequestPhase::Respond(resp) => assert_eq!(resp.status, 200),
        RequestPhase::Bypass => panic!("the request is cacheable"),
    }
}

#[test]
fn header_heavy_response_does_not_break_the_lookup() {
    // an origin response with far more headers than one policy check
    // takes: the stored copy handed to the policy is capped, so the
    // policy crate's header map never overflows
    let mut layer = CacheLayer::new(1_000_000, None, None);
    let mut req = get_request("/b/o", vec![]);
    let (key, ttl, tti, cc, stale) = forward(&mut layer, &mut req, 1_000_000);
    let mut resp = upstream_ok(vec![("cache-control", "max-age=1")], b"hello");
    for i in 0..20_000 {
        let name = format!("x-extra-{}", i);
        resp.headers.push(Header::new(&name, "1"));
        if let Some(MetaData::Output(m)) = &mut resp.s3_ext.as_mut().unwrap().data {
            m.headers.push(Header::new(&name, "1"));
        }
    }
    layer.response_phase(key, ttl, tti, cc, stale, Ok(resp), 1_000_000).ok().unwrap();

    // a much later lookup runs the policy over the stored headers
    let mut req2 = get_request("/b/o", vec![]);
    match layer.request_phase(&mut req2, 5_000_000) {
        RequestPhase::Forward { stale, .. } => assert!(stale.is_some()),
        RequestPhase::Respond(resp) => assert_eq!(resp.status, 200),
        RequestPhase::Bypass => panic!("the request is cacheable"),
    }
}

#[test]
fn get_cached_response_reads_without_policy() {
    let mut layer = CacheLayer::new(1_000_000, None, None);
    match layer.get_cached_response("GetObject b, o, ", 1_000) {
        Err(SendError::Internal(_)) => {}
        _ => panic!("an empty cache answers an internal error"),
    }
    let mut req = get_request("/b/o", vec![]);
    let (key, ttl, tti, cc, stale) = forward(&mut layer, &mut req, 1_000);
    let resp = upstream_ok(vec![], b"hello");
    layer.response_phase(key, ttl, tti, cc, stale, Ok(resp), 1_000).ok().unwrap();
    let got = layer.get_cached_response("GetObject b, o, ", 1_500).ok().unwrap();
    assert_eq!(got.status, 200);
    assert_eq!(got.body, b"hello".to_vec());
}
