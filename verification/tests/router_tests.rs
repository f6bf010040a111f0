use s3p::path::parse_path;
use s3p::query::parse_query;
use s3p::router::{check_group_priority_sorted, count_catch_alls};
use s3p::{Header, Method, OperationType, Router};

fn resolve(
    router: &Router,
    method: Method,
    path: &str,
    query: Option<&str>,
    headers: Vec<(&str, &str)>,
) -> Option<(OperationType, bool)> {
    let shape = parse_path(path).expect("path must parse");
    let qs = query.map(parse_query);
    let hs: Vec<Header> = headers.iter().map(|(n, v)| Header::new(n, v)).collect();
    router.resolve(method, &shape, qs.as_ref(), &hs)
}

fn op(
    router: &Router,
    method: Method,
    path: &str,
    query: Option<&str>,
    headers: Vec<(&str, &str)>,
) -> OperationType {
    resolve(router, method, path, query, headers).expect("expected a route").0
}

#[test]
fn reference_table() {
    let r = Router::new();
    assert_eq!(op(&r, Method::Head, "/b", None, vec![]), OperationType::HeadBucket);
    assert_eq!(op(&r, Method::Head, "/b/o", None, vec![]), OperationType::HeadObject);
    assert_eq!(op(&r, Method::Get, "/", None, vec![]), OperationType::ListBuckets);
    assert_eq!(op(&r, Method::Get, "/b", None, vec![]), OperationType::ListObjects);
    assert_eq!(op(&r, Method::Get, "/b", Some("list-type=2"), vec![]), OperationType::ListObjectsV2);
    assert_eq!(op(&r, Method::Get, "/b", Some("versions"), vec![]), OperationType::ListObjectVersions);
    assert_eq!(op(&r, Method::Get, "/b", Some("uploads"), vec![]), OperationType::ListMultipartUploads);
    assert_eq!(op(&r, Method::Get, "/b", Some("acl"), vec![]), OperationType::GetBucketAcl);
    assert_eq!(op(&r, Method::Get, "/b", Some("location"), vec![]), OperationType::GetBucketLocation);
    assert_eq!(
        op(&r, Method::Get, "/b", Some("analytics&id=1"), vec![]),
        OperationType::GetBucketAnalyticsConfiguration
    );
    assert_eq!(op(&r, Method::Get, "/b/o", None, vec![]), OperationType::GetObject);
    assert_eq!(op(&r, Method::Get, "/b/o", Some("acl"), vec![]), OperationType::GetObjectAcl);
    assert_eq!(op(&r, Method::Get, "/b/o", Some("tagging"), vec![]), OperationType::GetObjectTagging);
    assert_eq!(op(&r, Method::Get, "/b/o", Some("torrent"), vec![]), OperationType::GetObjectTorrent);
    assert_eq!(op(&r, Method::Get, "/b/o", Some("uploadId=5"), vec![]), OperationType::ListParts);
    assert_eq!(
        op(&r, Method::Get, "/b/o", Some("attributes"), vec![("x-amz-object-attributes", "ETag")]),
        OperationType::GetObjectAttributes
    );
    assert_eq!(op(&r, Method::Delete, "/b", None, vec![]), OperationType::DeleteBucket);
    assert_eq!(op(&r, Method::Delete, "/b", Some("policy"), vec![]), OperationType::DeleteBucketPolicy);
    assert_eq!(op(&r, Method::Delete, "/b/o", None, vec![]), OperationType::DeleteObject);
    assert_eq!(
        op(&r, Method::Delete, "/b/o", Some("uploadId=9"), vec![]),
        OperationType::AbortMultipartUpload
    );
    assert_eq!(
        op(&r, Method::Delete, "/b/o", Some("tagging"), vec![]),
        OperationType::DeleteObjectTagging
    );
    assert_eq!(op(&r, Method::Post, "/b", Some("delete"), vec![]), OperationType::DeleteObjects);
    assert_eq!(
        op(&r, Method::Post, "/b/o", Some("uploadId=7"), vec![]),
        OperationType::CompleteMultipartUpload
    );
    assert_eq!(op(&r, Method::Post, "/b/o", Some("restore"), vec![]), OperationType::RestoreObject);
    assert_eq!(
        op(&r, Method::Post, "/b/o", Some("select&select-type=2"), vec![]),
        OperationType::SelectObjectContent
    );
    assert_eq!(op(&r, Method::Put, "/b", Some("policy"), vec![]), OperationType::PutBucketPolicy);
    assert_eq!(op(&r, Method::Put, "/b", Some("versioning"), vec![]), OperationType::PutBucketVersioning);
    assert_eq!(
        op(&r, Method::Put, "/b/o", None, vec![("x-amz-copy-source", "/c/d")]),
        OperationType::CopyObject
    );
}

#[test]
fn router_disambiguation_on_query_tag() {
    let r = Router::new();
    // a bare query tag beats the catch-all
    assert_eq!(op(&r, Method::Put, "/b", Some("acl"), vec![]), OperationType::PutBucketAcl);
    assert_eq!(op(&r, Method::Put, "/b", None, vec![]), OperationType::CreateBucket);
    assert_eq!(
        op(&r, Method::Post, "/b/o", Some("uploads"), vec![]),
        OperationType::CreateMultipartUpload
    );
    // the part-upload pair resolves by its required queries, not to PutObject
    assert_eq!(
        op(&r, Method::Put, "/b/o", Some("uploadId=X&partNumber=1"), vec![]),
        OperationType::UploadPart
    );
    assert_eq!(op(&r, Method::Put, "/b/o", None, vec![]), OperationType::PutObject);
    assert_eq!(
        op(
            &r,
            Method::Put,
            "/b/o",
            Some("uploadId=X&partNumber=1"),
            vec![("x-amz-copy-source", "/c/d")]
        ),
        OperationType::UploadPartCopy
    );
}

#[test]
fn needs_full_body_flags() {
    let r = Router::new();
    assert_eq!(resolve(&r, Method::Put, "/b", Some("policy"), vec![]).unwrap().1, true);
    assert_eq!(resolve(&r, Method::Post, "/b", Some("delete"), vec![]).unwrap().1, true);
    assert_eq!(resolve(&r, Method::Put, "/b", None, vec![]).unwrap().1, true);
    assert_eq!(resolve(&r, Method::Put, "/b/o", None, vec![]).unwrap().1, false);
    assert_eq!(resolve(&r, Method::Get, "/b/o", None, vec![]).unwrap().1, false);
    assert_eq!(resolve(&r, Method::Post, "/b/o", Some("uploadId=7"), vec![]).unwrap().1, true);
}

#[test]
fn resolution_is_total() {
    let r = Router::new();
    // unrecognized method
    assert!(resolve(&r, Method::Other, "/b", None, vec![]).is_none());
    // no route group for these combinations
    assert!(resolve(&r, Method::Post, "/", None, vec![]).is_none());
    assert!(resolve(&r, Method::Put, "/", None, vec![]).is_none());
    assert!(resolve(&r, Method::Delete, "/", None, vec![]).is_none());
    assert!(resolve(&r, Method::Head, "/", None, vec![]).is_none());
    // groups without a catch-all answer nothing for unmatched requests
    assert!(resolve(&r, Method::Post, "/b/o", None, vec![]).is_none());
    assert!(resolve(&r, Method::Post, "/b", None, vec![]).is_none());
}

#[test]
fn groups_are_priority_sorted_with_one_catch_all() {
    let r = Router::new();
    let groups = [
        &r.head_bucket,
        &r.head_object,
        &r.get_root,
        &r.get_bucket,
        &r.get_object,
        &r.post_bucket,
        &r.post_object,
        &r.put_bucket,
        &r.put_object,
        &r.delete_bucket,
        &r.delete_object,
        &r.no_routes,
    ];
    for g in groups.iter() {
        assert!(check_group_priority_sorted(g));
        assert!(count_catch_alls(g) <= 1);
    }
}
