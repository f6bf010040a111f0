use s3p::cache::entry::{CacheData, CachedResponse};
use s3p::cache::store::CacheStore;
use s3p::s3::ResponseMetaData;
use s3p::webhook::{
    apply_event, keys_to_invalidate, parse_event_name, LifecycleExpirationEvent,
    ObjectCreatedEvent, ObjectRemovedEvent, ObjectRestoreEvent, S3EventRecord, S3EventType,
    WebhookEvent,
};

#[test]
fn event_names_parse_to_their_kinds() {
    assert_eq!(
        parse_event_name("s3:ObjectCreated:Put"),
        Some(S3EventType::ObjectCreated(ObjectCreatedEvent::Put))
    );
    assert_eq!(
        parse_event_name("s3:ObjectCreated:CompleteMultipartUpload"),
        Some(S3EventType::ObjectCreated(ObjectCreatedEvent::CompleteMultipartUpload))
    );
    assert_eq!(
        parse_event_name("s3:ObjectRemoved:Delete"),
        Some(S3EventType::ObjectRemoved(ObjectRemovedEvent::Delete))
    );
    assert_eq!(
        parse_event_name("s3:LifecycleExpiration:Delete"),
        Some(S3EventType::LifecycleExpiration(LifecycleExpirationEvent::Delete))
    );
    assert_eq!(
        parse_event_name("s3:ObjectRestore:Completed"),
        Some(S3EventType::ObjectRestore(ObjectRestoreEvent::Completed))
    );
}

#[test]
fn unknown_kinds_fall_to_any_or_are_discarded() {
    assert_eq!(
        parse_event_name("s3:ObjectCreated:SomethingNew"),
        Some(S3EventType::ObjectCreated(ObjectCreatedEvent::Any))
    );
    assert_eq!(
        parse_event_name("s3:ObjectRemoved:DeleteMarkerCreated"),
        Some(S3EventType::ObjectRemoved(ObjectRemovedEvent::Any))
    );
    assert_eq!(
        parse_event_name("s3:ObjectRestore:Whatever"),
        Some(S3EventType::ObjectRestore(ObjectRestoreEvent::Any))
    );
    // the expiration family has no catch-all kind
    assert_eq!(parse_event_name("s3:LifecycleExpiration:Other"), None);
    assert_eq!(parse_event_name("s3:ReducedRedundancyLostObject"), None);
    assert_eq!(parse_event_name("not an event"), None);
}

#[test]
fn record_invalidates_both_object_keys() {
    let r = S3EventRecord {
        event_type: S3EventType::ObjectRemoved(ObjectRemovedEvent::Delete),
        bucket: "b".to_string(),
        object_key: "o".to_string(),
        version_id: String::new(),
    };
    let keys = keys_to_invalidate(&r);
    assert_eq!(keys.len(), 2);
    assert_eq!(keys[0], "GetObject b, o, ");
    assert_eq!(keys[1], "HeadObject b, o, ");
}

fn small_entry(now: u64) -> CachedResponse {
    CachedResponse::new(
        CacheData::HeadObject { meta: ResponseMetaData { status: 200, headers: Vec::new() } },
        now,
    )
}

#[test]
fn webhook_event_invalidates_the_primed_keys() {
    let mut store = CacheStore::new(1000, None, None);
    assert!(store.insert("GetObject b, o, ".to_string(), small_entry(1), 1));
    assert!(store.insert("HeadObject b, o, ".to_string(), small_entry(1), 1));
    assert!(store.insert("GetObject b, other, ".to_string(), small_entry(1), 1));

    let body = br#"{"Records":[{"eventName":"s3:ObjectRemoved:Delete","s3":{"bucket":{"name":"b"},"object":{"key":"o","versionId":""}}}]}"#;
    let event = WebhookEvent::from_body(Vec::new(), body.to_vec());
    let s3_event = match event {
        WebhookEvent::S3(e) => e,
        _ => panic!("the notification must decode as an S3 event"),
    };
    assert_eq!(s3_event.records.len(), 1);
    assert_eq!(s3_event.records[0].bucket, "b");
    assert_eq!(s3_event.records[0].object_key, "o");

    apply_event(&mut store, &s3_event);
    assert!(store.get("GetObject b, o, ", 2).is_none());
    assert!(store.get("HeadObject b, o, ", 2).is_none());
    // an unrelated key stays
    assert!(store.get("GetObject b, other, ", 2).is_some());
}

#[test]
fn invalid_json_falls_back_to_a_raw_http_event() {
    let body = b"this is not json".to_vec();
    match WebhookEvent::from_body(Vec::new(), body.clone()) {
        WebhookEvent::Http { headers, body: b } => {
            assert!(headers.is_empty());
            assert_eq!(b, body);
        }
        _ => panic!("undecodable bodies are kept raw"),
    }
}

#[test]
fn json_without_records_falls_back_to_a_raw_http_event() {
    let body = br#"{"something":"else"}"#.to_vec();
    match WebhookEvent::from_body(Vec::new(), body.clone()) {
        WebhookEvent::Http { body: b, .. } => assert_eq!(b, body),
        _ => panic!("a JSON body without records is kept raw"),
    }
}

#[test]
fn malformed_records_are_skipped() {
    let body = br#"{"Records":[{"eventName":"s3:ObjectRemoved:Delete","s3":{"bucket":{"name":"b"},"object":{"key":"o"}}},{"eventName":"nonsense"}]}"#.to_vec();
    match WebhookEvent::from_body(Vec::new(), body) {
        WebhookEvent::S3(e) => {
            assert_eq!(e.records.len(), 1);
            // a missing version decodes as the empty version
            assert_eq!(e.records[0].version_id, "");
        }
        _ => panic!("the notification must decode as an S3 event"),
    }
}
