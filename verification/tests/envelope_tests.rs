use s3p::cache::entry::{CacheData, CachedResponse, PerItemExpiration};
use s3p::error::{send_error_of, unknown_operation, xml_error_body, S3Error, S3ErrorData};
use s3p::middleware::Identity;
use s3p::s3::{InputMeta, MetaData, ResponseMetaData};
use s3p::{CacheIntent, Header, Method, OperationType, Request, Response, S3Extension, SendError};

fn object_request(headers: Vec<(&str, &str)>, query: Option<&str>) -> Request {
    let hs: Vec<Header> = headers.iter().map(|(n, v)| Header::new(n, v)).collect();
    let mut req = Request::from_wire(Method::Get, "/b/o", query, hs, Vec::new());
    req.s3_ext.as_mut().unwrap().op = Some(OperationType::GetObject);
    req
}

#[test]
fn with_status_builds_an_empty_response() {
    let r = Response::with_status(204);
    assert_eq!(r.status, 204);
    assert!(r.headers.is_empty());
    assert!(r.body.is_empty());
    assert!(r.s3_ext.is_none());
}

#[test]
fn new_from_carries_identity_but_not_data() {
    let mut req = object_request(vec![], Some("versionId=7"));
    // memoize the decoded input in the cell
    assert!(req.try_get_input().is_some());
    let old = req.s3_ext.as_ref().unwrap();
    let fresh = S3Extension::new_from(old);
    assert!(fresh.data.is_none());
    assert_eq!(fresh.op, Some(OperationType::GetObject));
    assert!(fresh.s3_path.is_some());
    assert!(fresh.qs.is_some());
}

#[test]
fn the_metadata_cell_is_write_once() {
    let mut ext = S3Extension::new();
    let first = MetaData::Output(ResponseMetaData { status: 200, headers: Vec::new() });
    let second = MetaData::Output(ResponseMetaData { status: 500, headers: Vec::new() });
    assert!(ext.set_data(first));
    assert!(!ext.set_data(second));
    match ext.data {
        Some(MetaData::Output(m)) => assert_eq!(m.status, 200),
        _ => panic!("the first write stays"),
    }
}

#[test]
fn try_get_input_decodes_and_memoizes() {
    let mut req = object_request(vec![("range", "bytes=0-5")], Some("versionId=7"));
    match req.try_get_input() {
        Some(InputMeta::GetObject(m)) => {
            assert_eq!(m.bucket, "b");
            assert_eq!(m.key, "o");
            assert_eq!(m.version_id.as_deref(), Some("7"));
            assert_eq!(m.range.as_deref(), Some("bytes=0-5"));
            assert!(m.part_number.is_none());
        }
        _ => panic!("the input must decode"),
    }
    // the second read answers the memoized value
    assert!(matches!(req.try_get_input(), Some(InputMeta::GetObject(_))));
}

#[test]
fn identity_layer_changes_nothing() {
    let layer = Identity;
    let req = object_request(vec![("a", "1")], None);
    let out = layer.process_request(req);
    assert_eq!(out.uri_path, "/b/o");
    assert_eq!(out.headers.len(), 1);
    let resp = layer.process_response(Response::with_status(200));
    assert_eq!(resp.status, 200);
}

#[test]
fn cache_intent_setters() {
    let i = CacheIntent::new("k".to_string()).time_to_live(Some(5)).time_to_idle(Some(7));
    assert_eq!(i.key, "k");
    assert_eq!(i.ttl, Some(5));
    assert_eq!(i.tti, Some(7));
}

#[test]
fn cached_response_setters_and_size() {
    let meta = ResponseMetaData { status: 200, headers: Vec::new() };
    let v = CachedResponse::new(
        CacheData::GetObject { meta, bytes: b"12345".to_vec() },
        9,
    );
    assert_eq!(v.size(), 5);
    let v = v.time_to_live(Some(100)).time_to_idle(Some(50));
    assert_eq!(v.ttl, Some(100));
    assert_eq!(v.tti, Some(50));
    assert_eq!(v.updated_at, 9);
    let meta = ResponseMetaData { status: 200, headers: Vec::new() };
    let small = CachedResponse::new(CacheData::HeadObject { meta }, 9);
    assert_eq!(small.size(), 1);
}

#[test]
fn per_item_expiration_rules() {
    let meta = ResponseMetaData { status: 200, headers: Vec::new() };
    let v = CachedResponse::new(CacheData::HeadObject { meta }, 0)
        .time_to_live(Some(100))
        .time_to_idle(Some(50));
    assert_eq!(PerItemExpiration::expire_after_create(&v), Some(100));
    assert_eq!(PerItemExpiration::expire_after_read(&v, Some(30)), Some(50));
    assert_eq!(PerItemExpiration::expire_after_update(&v, Some(30)), Some(100));
    let meta = ResponseMetaData { status: 200, headers: Vec::new() };
    let bare = CachedResponse::new(CacheData::HeadObject { meta }, 0);
    assert_eq!(PerItemExpiration::expire_after_read(&bare, Some(30)), Some(30));
    assert_eq!(PerItemExpiration::expire_after_update(&bare, None), None);
}

#[test]
fn error_documents_are_wire_compatible() {
    let body = xml_error_body("NoSuchKey", "The key does not exist");
    assert_eq!(
        body,
        "<Error><Code>NoSuchKey</Code><Message>The key does not exist</Message></Error>"
    );
}

#[test]
fn send_error_mapping() {
    match send_error_of(S3Error::MissingOp) {
        SendError::Internal(_) => {}
        _ => panic!("a missing operation is internal"),
    }
    let d = S3ErrorData {
        code: "InvalidArgument".to_string(),
        message: "bad input".to_string(),
        status: 400,
    };
    match send_error_of(S3Error::InputErr(d)) {
        SendError::RequestErr(resp, _) => {
            assert_eq!(resp.status, 400);
            assert_eq!(
                resp.body,
                b"<Error><Code>InvalidArgument</Code><Message>bad input</Message></Error>".to_vec()
            );
        }
        _ => panic!("an input fault answers a request error"),
    }
    let d = S3ErrorData { code: "X".to_string(), message: "y".to_string(), status: 502 };
    match send_error_of(S3Error::ResponseErr(d)) {
        SendError::ResponseErr(resp, _) => assert_eq!(resp.status, 502),
        _ => panic!("an upstream fault answers a response error"),
    }
    // a response that does not encode has no upstream response to pass
    // through: it is an internal fault
    let d = S3ErrorData { code: "X".to_string(), message: "cannot encode".to_string(), status: 500 };
    match send_error_of(S3Error::OutputErr(d)) {
        SendError::Internal(_) => {}
        _ => panic!("an encode failure is internal"),
    }
}

#[test]
fn unknown_operation_error() {
    match unknown_operation() {
        SendError::RequestErr(resp, _) => {
            assert_eq!(resp.status, 400);
            let text = String::from_utf8(resp.body).unwrap();
            assert!(text.contains("<Code>NoSuchOperation</Code>"));
        }
        _ => panic!("an unroutable request answers a request error"),
    }
}

#[test]
fn put_bucket_policy_answers_204() {
    assert_eq!(OperationType::PutBucketPolicy.success_status(), 204);
    assert_eq!(OperationType::PutObject.success_status(), 200);
    assert_eq!(OperationType::GetObject.success_status(), 200);
}

#[test]
fn metadata_only_view_drops_the_body() {
    let hs = vec![Header::new("a", "1")];
    let mut req = Request::from_wire(Method::Get, "/b/o", Some("versionId=7"), hs, b"data".to_vec());
    req.s3_ext.as_mut().unwrap().op = Some(OperationType::GetObject);
    let view = req.try_as_metadata_only();
    assert_eq!(view.method, Method::Get);
    assert_eq!(view.uri_path, "/b/o");
    assert_eq!(view.uri_query.as_deref(), Some("versionId=7"));
    assert_eq!(view.headers.len(), 1);
    assert!(view.body.is_empty());
    let ext = view.s3_ext.as_ref().unwrap();
    assert_eq!(ext.op, Some(OperationType::GetObject));
    assert!(ext.data.is_none());
}

#[test]
fn is_same_uri_ignores_trailing_slashes() {
    let req = object_request(vec![], None);
    assert!(req.is_same_uri("/b/o", None));
    assert!(req.is_same_uri("/b/o/", None));
    assert!(!req.is_same_uri("/b/other", None));
    assert!(!req.is_same_uri("/b/o", Some(&"q=1".to_string())));
}
