use s3p::path::parse_path;
use s3p::query::parse_query;
use s3p::S3PathData;

#[test]
fn path_root() {
    match parse_path("/") {
        Some(S3PathData::Root) => {}
        _ => panic!("expected root"),
    }
}

#[test]
fn path_bucket() {
    match parse_path("/mybucket") {
        Some(S3PathData::Bucket { name }) => assert_eq!(name, "mybucket"),
        _ => panic!("expected bucket"),
    }
}

#[test]
fn path_object_simple() {
    match parse_path("/b/o") {
        Some(S3PathData::Object { bucket, key }) => {
            assert_eq!(bucket, "b");
            assert_eq!(key, "o");
        }
        _ => panic!("expected object"),
    }
}

#[test]
fn path_object_nested_key_kept_verbatim() {
    match parse_path("/b/dir/sub/file.txt") {
        Some(S3PathData::Object { bucket, key }) => {
            assert_eq!(bucket, "b");
            assert_eq!(key, "dir/sub/file.txt");
        }
        _ => panic!("expected object"),
    }
}

#[test]
fn path_trailing_slash_is_object_with_empty_key() {
    match parse_path("/b/") {
        Some(S3PathData::Object { bucket, key }) => {
            assert_eq!(bucket, "b");
            assert_eq!(key, "");
        }
        _ => panic!("expected object"),
    }
}

#[test]
fn path_without_leading_slash_is_rejected() {
    assert!(parse_path("b/o").is_none());
    assert!(parse_path("").is_none());
}

#[test]
fn query_bare_and_pairs() {
    let qs = parse_query("acl&uploadId=5&x=a%20b+c");
    assert!(qs.has("acl"));
    assert!(qs.has_bare("acl"));
    assert!(qs.has("uploadId"));
    assert!(!qs.has_bare("uploadId"));
    assert!(qs.check_pattern("uploadId", "5"));
    assert!(!qs.check_pattern("uploadId", "6"));
    assert_eq!(qs.get("x").unwrap(), "a b c");
    assert!(qs.get("missing").is_none());
}

#[test]
fn query_preserves_order_and_duplicates() {
    let qs = parse_query("k=1&k=2");
    assert_eq!(qs.pairs.len(), 2);
    assert_eq!(qs.get("k").unwrap(), "1");
}

#[test]
fn query_percent_decoding() {
    let qs = parse_query("p=a%2Fb%3D");
    assert_eq!(qs.get("p").unwrap(), "a/b=");
}
