use s3p::cache::logic::{make_cache_intent, KeyData};
use s3p::config::CacheMiddlewareConfig;
use s3p::s3::{GetObjectInputMeta, InputMeta, ListObjectsInputMeta};

#[test]
fn get_object_key_format() {
    let k = KeyData::GetObject { bucket: "b", object: "o", version_id: "v1" }.as_key();
    assert_eq!(k, "GetObject b, o, v1");
}

#[test]
fn head_object_key_format() {
    let k = KeyData::HeadObject { bucket: "b", object: "o", version_id: "" }.as_key();
    assert_eq!(k, "HeadObject b, o, ");
}

#[test]
fn object_list_key_format() {
    let k = KeyData::ObjectList { bucket: "b", prefix: Some("p/"), delim: Some("/") }.as_key();
    assert_eq!(k, "ObjectList b, p/, /");
    let k = KeyData::ObjectList { bucket: "b", prefix: None, delim: None }.as_key();
    assert_eq!(k, "ObjectList b, , ");
}

#[test]
fn object_version_list_key_format() {
    let k = KeyData::ObjectVersionList { bucket: "b", prefix: None, delim: None }.as_key();
    assert_eq!(k, "ObjectVersionList b, , ");
}

#[test]
fn bucket_key_formats() {
    assert_eq!(KeyData::Bucket { bucket: "mybucket" }.as_key(), "Bucket mybucket");
    assert_eq!(KeyData::BucketList.as_key(), "BucketList");
}

#[test]
fn keys_differ_when_any_identity_field_differs() {
    let base = KeyData::GetObject { bucket: "b", object: "o", version_id: "" }.as_key();
    let other_bucket = KeyData::GetObject { bucket: "b2", object: "o", version_id: "" }.as_key();
    let other_key = KeyData::GetObject { bucket: "b", object: "o2", version_id: "" }.as_key();
    let other_version = KeyData::GetObject { bucket: "b", object: "o", version_id: "v" }.as_key();
    let other_op = KeyData::HeadObject { bucket: "b", object: "o", version_id: "" }.as_key();
    assert_ne!(base, other_bucket);
    assert_ne!(base, other_key);
    assert_ne!(base, other_version);
    assert_ne!(base, other_op);
}

fn get_object_meta() -> GetObjectInputMeta {
    GetObjectInputMeta {
        bucket: "b".to_string(),
        key: "o".to_string(),
        version_id: None,
        range: None,
        part_number: None,
    }
}

#[test]
fn intent_for_plain_get_object() {
    let cfg = CacheMiddlewareConfig::default();
    let i = make_cache_intent(&InputMeta::GetObject(get_object_meta()), &cfg)
        .expect("a plain read is cacheable");
    assert_eq!(i.key, "GetObject b, o, ");
    assert!(i.ttl.is_none());
    assert!(i.tti.is_none());
}

#[test]
fn range_and_part_number_bypass() {
    let cfg = CacheMiddlewareConfig::default();
    let mut m = get_object_meta();
    m.range = Some("bytes=0-10".to_string());
    assert!(make_cache_intent(&InputMeta::GetObject(m), &cfg).is_none());
    let mut m = get_object_meta();
    m.part_number = Some("1".to_string());
    assert!(make_cache_intent(&InputMeta::GetObject(m), &cfg).is_none());
}

#[test]
fn disabled_operation_bypasses() {
    let mut cfg = CacheMiddlewareConfig::default();
    cfg.ops.get_object.enabled = false;
    assert!(make_cache_intent(&InputMeta::GetObject(get_object_meta()), &cfg).is_none());
}

#[test]
fn expected_bucket_owner_bypasses_listing() {
    let cfg = CacheMiddlewareConfig::default();
    let m = ListObjectsInputMeta {
        bucket: "b".to_string(),
        prefix: None,
        delimiter: None,
        expected_bucket_owner: Some("owner".to_string()),
    };
    assert!(make_cache_intent(&InputMeta::ListObjects(m), &cfg).is_none());
}

#[test]
fn intent_carries_per_operation_expiry() {
    let mut cfg = CacheMiddlewareConfig::default();
    cfg.ops.get_object.ttl = Some(60_000);
    cfg.ops.get_object.tti = Some(10_000);
    let i = make_cache_intent(&InputMeta::GetObject(get_object_meta()), &cfg).unwrap();
    assert_eq!(i.ttl, Some(60_000));
    assert_eq!(i.tti, Some(10_000));
}
