//! The routing table: every supported operation with its method, path
//! shape, query tag, query pattern, required queries and headers, and
//! whether its body must be fully buffered before dispatch.
//!
//! Each group builder's contract pins every route's data, that the
//! group stands in the priority order the resolver relies on, and that
//! at most one catch-all closes the group; the resolver itself lives in
//! the router module.

use vstd::prelude::*;

use crate::ops::OperationType;
use crate::path::S3PathData;
use crate::query::OrderedQs;
use crate::req::{Header, Method};
use crate::router::{
    group_priority_sorted, lemma_catch_all_count_last, lemma_catch_all_count_zero,
    resolve_in_group, spec_catch_all_count, spec_is_catch_all, spec_priority_leq,
    spec_resolve_group, Route,
};

verus! {

/// A sequence of zero, one or two entries, mirroring two options.
pub open spec fn spec_opt2_seq(a: Option<&'static str>, b: Option<&'static str>) -> Seq<
    &'static str,
> {
    match (a, b) {
        (None, None) => Seq::empty(),
        (Some(x), None) => seq![x],
        (None, Some(y)) => seq![y],
        (Some(x), Some(y)) => seq![x, y],
    }
}

/// Optional strings agree by their characters.
pub open spec fn opt_str_is(a: Option<&'static str>, b: Option<&'static str>) -> bool {
    match (a, b) {
        (Some(x), Some(y)) => x@ == y@,
        (None, None) => true,
        _ => false,
    }
}

/// Optional pairs of strings agree by their characters.
pub open spec fn opt_pair_is(
    a: Option<(&'static str, &'static str)>,
    b: Option<(&'static str, &'static str)>,
) -> bool {
    match (a, b) {
        (Some(x), Some(y)) => x.0@ == y.0@ && x.1@ == y.1@,
        (None, None) => true,
        _ => false,
    }
}

/// String sequences agree position by position by their characters.
pub open spec fn strs_are(a: Seq<&'static str>, b: Seq<&'static str>) -> bool {
    a.len() == b.len() && forall|i: int| 0 <= i < a.len() ==> #[trigger] a[i]@ == b[i]@
}

/// The route holds exactly this data: operation, query tag, query
/// pattern, required query and header names, and the buffering flag.
pub open spec fn route_is(
    r: Route,
    op: OperationType,
    qt: Option<&'static str>,
    qp: Option<(&'static str, &'static str)>,
    rq1: Option<&'static str>,
    rq2: Option<&'static str>,
    rh1: Option<&'static str>,
    rh2: Option<&'static str>,
    nfb: bool,
) -> bool {
    &&& r.op == op
    &&& opt_str_is(r.query_tag, qt)
    &&& opt_pair_is(r.query_pattern, qp)
    &&& strs_are(r.required_queries@, spec_opt2_seq(rq1, rq2))
    &&& strs_are(r.required_headers@, spec_opt2_seq(rh1, rh2))
    &&& r.needs_full_body == nfb
}

fn opt2_vec(a: Option<&'static str>, b: Option<&'static str>) -> (r: Vec<&'static str>)
    ensures
        r@ =~= spec_opt2_seq(a, b),
{
    let mut v: Vec<&'static str> = Vec::new();
    if let Some(x) = a {
        v.push(x);
    }
    if let Some(y) = b {
        v.push(y);
    }
    v
}

fn rt(
    op: OperationType,
    query_tag: Option<&'static str>,
    query_pattern: Option<(&'static str, &'static str)>,
    rq1: Option<&'static str>,
    rq2: Option<&'static str>,
    rh1: Option<&'static str>,
    rh2: Option<&'static str>,
    needs_full_body: bool,
) -> (r: Route)
    ensures
        route_is(r, op, query_tag, query_pattern, rq1, rq2, rh1, rh2, needs_full_body),
{
    Route {
        op,
        query_tag,
        query_pattern,
        required_queries: opt2_vec(rq1, rq2),
        required_headers: opt2_vec(rh1, rh2),
        needs_full_body,
    }
}


fn routes_head_bucket() -> (g: Vec<Route>)
    ensures
        g@.len() == 1,
        route_is(g@[0], OperationType::HeadBucket, None, None, None, None, None, None, false),
        group_priority_sorted(g@),
        spec_catch_all_count(g@) <= 1,
{
    let mut g: Vec<Route> = Vec::new();
    g.push(rt(OperationType::HeadBucket, None, None, None, None, None, None, false));
    proof {
        assert(route_is(g@[0], OperationType::HeadBucket, None, None, None, None, None, None, false));
        assert(group_priority_sorted(g@));
        lemma_catch_all_count_last(g@);
    }
    g
}

fn routes_head_object() -> (g: Vec<Route>)
    ensures
        g@.len() == 1,
        route_is(g@[0], OperationType::HeadObject, None, None, None, None, None, None, false),
        group_priority_sorted(g@),
        spec_catch_all_count(g@) <= 1,
{
    let mut g: Vec<Route> = Vec::new();
    g.push(rt(OperationType::HeadObject, None, None, None, None, None, None, false));
    proof {
        assert(route_is(g@[0], OperationType::HeadObject, None, None, None, None, None, None, false));
        assert(group_priority_sorted(g@));
        lemma_catch_all_count_last(g@);
    }
    g
}

fn routes_get_root() -> (g: Vec<Route>)
    ensures
        g@.len() == 1,
        route_is(g@[0], OperationType::ListBuckets, None, None, None, None, None, None, false),
        group_priority_sorted(g@),
        spec_catch_all_count(g@) <= 1,
{
    let mut g: Vec<Route> = Vec::new();
    g.push(rt(OperationType::ListBuckets, None, None, None, None, None, None, false));
    proof {
        assert(route_is(g@[0], OperationType::ListBuckets, None, None, None, None, None, None, false));
        assert(group_priority_sorted(g@));
        lemma_catch_all_count_last(g@);
    }
    g
}

fn routes_get_bucket() -> (g: Vec<Route>)
    ensures
        g@.len() == 30,
        route_is(g@[0], OperationType::GetBucketAnalyticsConfiguration, Some("analytics"), None, Some("id"), None, None, None, false),
        route_is(g@[1], OperationType::GetBucketIntelligentTieringConfiguration, Some("intelligent-tiering"), None, Some("id"), None, None, None, false),
        route_is(g@[2], OperationType::GetBucketInventoryConfiguration, Some("inventory"), None, Some("id"), None, None, None, false),
        route_is(g@[3], OperationType::GetBucketMetricsConfiguration, Some("metrics"), None, Some("id"), None, None, None, false),
        route_is(g@[4], OperationType::GetBucketAccelerateConfiguration, Some("accelerate"), None, None, None, None, None, false),
        route_is(g@[5], OperationType::GetBucketAcl, Some("acl"), None, None, None, None, None, false),
        route_is(g@[6], OperationType::GetBucketCors, Some("cors"), None, None, None, None, None, false),
        route_is(g@[7], OperationType::GetBucketEncryption, Some("encryption"), None, None, None, None, None, false),
        route_is(g@[8], OperationType::GetBucketLifecycleConfiguration, Some("lifecycle"), None, None, None, None, None, false),
        route_is(g@[9], OperationType::GetBucketLocation, Some("location"), None, None, None, None, None, false),
        route_is(g@[10], OperationType::GetBucketLogging, Some("logging"), None, None, None, None, None, false),
        route_is(g@[11], OperationType::GetBucketNotificationConfiguration, Some("notification"), None, None, None, None, None, false),
        route_is(g@[12], OperationType::GetBucketOwnershipControls, Some("ownershipControls"), None, None, None, None, None, false),
        route_is(g@[13], OperationType::GetBucketPolicy, Some("policy"), None, None, None, None, None, false),
        route_is(g@[14], OperationType::GetBucketPolicyStatus, Some("policyStatus"), None, None, None, None, None, false),
        route_is(g@[15], OperationType::GetBucketReplication, Some("replication"), None, None, None, None, None, false),
        route_is(g@[16], OperationType::GetBucketRequestPayment, Some("requestPayment"), None, None, None, None, None, false),
        route_is(g@[17], OperationType::GetBucketTagging, Some("tagging"), None, None, None, None, None, false),
        route_is(g@[18], OperationType::GetBucketVersioning, Some("versioning"), None, None, None, None, None, false),
        route_is(g@[19], OperationType::GetBucketWebsite, Some("website"), None, None, None, None, None, false),
        route_is(g@[20], OperationType::GetObjectLockConfiguration, Some("object-lock"), None, None, None, None, None, false),
        route_is(g@[21], OperationType::GetPublicAccessBlock, Some("publicAccessBlock"), None, None, None, None, None, false),
        route_is(g@[22], OperationType::ListBucketAnalyticsConfigurations, Some("analytics"), None, None, None, None, None, false),
        route_is(g@[23], OperationType::ListBucketIntelligentTieringConfigurations, Some("intelligent-tiering"), None, None, None, None, None, false),
        route_is(g@[24], OperationType::ListBucketInventoryConfigurations, Some("inventory"), None, None, None, None, None, false),
        route_is(g@[25], OperationType::ListBucketMetricsConfigurations, Some("metrics"), None, None, None, None, None, false),
        route_is(g@[26], OperationType::ListMultipartUploads, Some("uploads"), None, None, None, None, None, false),
        route_is(g@[27], OperationType::ListObjectVersions, Some("versions"), None, None, None, None, None, false),
        route_is(g@[28], OperationType::ListObjectsV2, None, Some(("list-type", "2")), None, None, None, None, false),
        route_is(g@[29], OperationType::ListObjects, None, None, None, None, None, None, false),
        group_priority_sorted(g@),
        spec_catch_all_count(g@) <= 1,
{
    let mut g: Vec<Route> = Vec::new();
    g.push(rt(OperationType::GetBucketAnalyticsConfiguration, Some("analytics"), None, Some("id"), None, None, None, false));
    g.push(rt(OperationType::GetBucketIntelligentTieringConfiguration, Some("intelligent-tiering"), None, Some("id"), None, None, None, false));
    g.push(rt(OperationType::GetBucketInventoryConfiguration, Some("inventory"), None, Some("id"), None, None, None, false));
    g.push(rt(OperationType::GetBucketMetricsConfiguration, Some("metrics"), None, Some("id"), None, None, None, false));
    g.push(rt(OperationType::GetBucketAccelerateConfiguration, Some("accelerate"), None, None, None, None, None, false));
    g.push(rt(OperationType::GetBucketAcl, Some("acl"), None, None, None, None, None, false));
    g.push(rt(OperationType::GetBucketCors, Some("cors"), None, None, None, None, None, false));
    g.push(rt(OperationType::GetBucketEncryption, Some("encryption"), None, None, None, None, None, false));
    g.push(rt(OperationType::GetBucketLifecycleConfiguration, Some("lifecycle"), None, None, None, None, None, false));
    g.push(rt(OperationType::GetBucketLocation, Some("location"), None, None, None, None, None, false));
    g.push(rt(OperationType::GetBucketLogging, Some("logging"), None, None, None, None, None, false));
    g.push(rt(OperationType::GetBucketNotificationConfiguration, Some("notification"), None, None, None, None, None, false));
    g.push(rt(OperationType::GetBucketOwnershipControls, Some("ownershipControls"), None, None, None, None, None, false));
    g.push(rt(OperationType::GetBucketPolicy, Some("policy"), None, None, None, None, None, false));
    g.push(rt(OperationType::GetBucketPolicyStatus, Some("policyStatus"), None, None, None, None, None, false));
    g.push(rt(OperationType::GetBucketReplication, Some("replication"), None, None, None, None, None, false));
    g.push(rt(OperationType::GetBucketRequestPayment, Some("requestPayment"), None, None, None, None, None, false));
    g.push(rt(OperationType::GetBucketTagging, Some("tagging"), None, None, None, None, None, false));
    g.push(rt(OperationType::GetBucketVersioning, Some("versioning"), None, None, None, None, None, false));
    g.push(rt(OperationType::GetBucketWebsite, Some("website"), None, None, None, None, None, false));
    g.push(rt(OperationType::GetObjectLockConfiguration, Some("object-lock"), None, None, None, None, None, false));
    g.push(rt(OperationType::GetPublicAccessBlock, Some("publicAccessBlock"), None, None, None, None, None, false));
    g.push(rt(OperationType::ListBucketAnalyticsConfigurations, Some("analytics"), None, None, None, None, None, false));
    g.push(rt(OperationType::ListBucketIntelligentTieringConfigurations, Some("intelligent-tiering"), None, None, None, None, None, false));
    g.push(rt(OperationType::ListBucketInventoryConfigurations, Some("inventory"), None, None, None, None, None, false));
    g.push(rt(OperationType::ListBucketMetricsConfigurations, Some("metrics"), None, None, None, None, None, false));
    g.push(rt(OperationType::ListMultipartUploads, Some("uploads"), None, None, None, None, None, false));
    g.push(rt(OperationType::ListObjectVersions, Some("versions"), None, None, None, None, None, false));
    g.push(rt(OperationType::ListObjectsV2, None, Some(("list-type", "2")), None, None, None, None, false));
    g.push(rt(OperationType::ListObjects, None, None, None, None, None, None, false));
    proof {
        assert(route_is(g@[0], OperationType::GetBucketAnalyticsConfiguration, Some("analytics"), None, Some("id"), None, None, None, false));
        assert(route_is(g@[1], OperationType::GetBucketIntelligentTieringConfiguration, Some("intelligent-tiering"), None, Some("id"), None, None, None, false));
        assert(route_is(g@[2], OperationType::GetBucketInventoryConfiguration, Some("inventory"), None, Some("id"), None, None, None, false));
        assert(route_is(g@[3], OperationType::GetBucketMetricsConfiguration, Some("metrics"), None, Some("id"), None, None, None, false));
        assert(route_is(g@[4], OperationType::GetBucketAccelerateConfiguration, Some("accelerate"), None, None, None, None, None, false));
        assert(route_is(g@[5], OperationType::GetBucketAcl, Some("acl"), None, None, None, None, None, false));
        assert(route_is(g@[6], OperationType::GetBucketCors, Some("cors"), None, None, None, None, None, false));
        assert(route_is(g@[7], OperationType::GetBucketEncryption, Some("encryption"), None, None, None, None, None, false));
        assert(route_is(g@[8], OperationType::GetBucketLifecycleConfiguration, Some("lifecycle"), None, None, None, None, None, false));
        assert(route_is(g@[9], OperationType::GetBucketLocation, Some("location"), None, None, None, None, None, false));
        assert(route_is(g@[10], OperationType::GetBucketLogging, Some("logging"), None, None, None, None, None, false));
        assert(route_is(g@[11], OperationType::GetBucketNotificationConfiguration, Some("notification"), None, None, None, None, None, false));
        assert(route_is(g@[12], OperationType::GetBucketOwnershipControls, Some("ownershipControls"), None, None, None, None, None, false));
        assert(route_is(g@[13], OperationType::GetBucketPolicy, Some("policy"), None, None, None, None, None, false));
        assert(route_is(g@[14], OperationType::GetBucketPolicyStatus, Some("policyStatus"), None, None, None, None, None, false));
        assert(route_is(g@[15], OperationType::GetBucketReplication, Some("replication"), None, None, None, None, None, false));
        assert(route_is(g@[16], OperationType::GetBucketRequestPayment, Some("requestPayment"), None, None, None, None, None, false));
        assert(route_is(g@[17], OperationType::GetBucketTagging, Some("tagging"), None, None, None, None, None, false));
        assert(route_is(g@[18], OperationType::GetBucketVersioning, Some("versioning"), None, None, None, None, None, false));
        assert(route_is(g@[19], OperationType::GetBucketWebsite, Some("website"), None, None, None, None, None, false));
        assert(route_is(g@[20], OperationType::GetObjectLockConfiguration, Some("object-lock"), None, None, None, None, None, false));
        assert(route_is(g@[21], OperationType::GetPublicAccessBlock, Some("publicAccessBlock"), None, None, None, None, None, false));
        assert(route_is(g@[22], OperationType::ListBucketAnalyticsConfigurations, Some("analytics"), None, None, None, None, None, false));
        assert(route_is(g@[23], OperationType::ListBucketIntelligentTieringConfigurations, Some("intelligent-tiering"), None, None, None, None, None, false));
        assert(route_is(g@[24], OperationType::ListBucketInventoryConfigurations, Some("inventory"), None, None, None, None, None, false));
        assert(route_is(g@[25], OperationType::ListBucketMetricsConfigurations, Some("metrics"), None, None, None, None, None, false));
        assert(route_is(g@[26], OperationType::ListMultipartUploads, Some("uploads"), None, None, None, None, None, false));
        assert(route_is(g@[27], OperationType::ListObjectVersions, Some("versions"), None, None, None, None, None, false));
        assert(route_is(g@[28], OperationType::ListObjectsV2, None, Some(("list-type", "2")), None, None, None, None, false));
        assert(route_is(g@[29], OperationType::ListObjects, None, None, None, None, None, None, false));
        assert forall|j: int| 0 <= j < g@.len() - 1 implies spec_priority_leq(#[trigger] g@[j], g@[j + 1]) by {
            if j == 0 {
                assert(spec_priority_leq(g@[0], g@[1]));
            } else if j == 1 {
                assert(spec_priority_leq(g@[1], g@[2]));
            } else if j == 2 {
                assert(spec_priority_leq(g@[2], g@[3]));
            } else if j == 3 {
                assert(spec_priority_leq(g@[3], g@[4]));
            } else if j == 4 {
                assert(spec_priority_leq(g@[4], g@[5]));
            } else if j == 5 {
                assert(spec_priority_leq(g@[5], g@[6]));
            } else if j == 6 {
                assert(spec_priority_leq(g@[6], g@[7]));
            } else if j == 7 {
                assert(spec_priority_leq(g@[7], g@[8]));
            } else if j == 8 {
                assert(spec_priority_leq(g@[8], g@[9]));
            } else if j == 9 {
                assert(spec_priority_leq(g@[9], g@[10]));
            } else if j == 10 {
                assert(spec_priority_leq(g@[10], g@[11]));
            } else if j == 11 {
                assert(spec_priority_leq(g@[11], g@[12]));
            } else if j == 12 {
                assert(spec_priority_leq(g@[12], g@[13]));
            } else if j == 13 {
                assert(spec_priority_leq(g@[13], g@[14]));
            } else if j == 14 {
                assert(spec_priority_leq(g@[14], g@[15]));
            } else if j == 15 {
                assert(spec_priority_leq(g@[15], g@[16]));
            } else if j == 16 {
                assert(spec_priority_leq(g@[16], g@[17]));
            } else if j == 17 {
                assert(spec_priority_leq(g@[17], g@[18]));
            } else if j == 18 {
                assert(spec_priority_leq(g@[18], g@[19]));
            } else if j == 19 {
                assert(spec_priority_leq(g@[19], g@[20]));
            } else if j == 20 {
                assert(spec_priority_leq(g@[20], g@[21]));
            } else if j == 21 {
                assert(spec_priority_leq(g@[21], g@[22]));
            } else if j == 22 {
                assert(spec_priority_leq(g@[22], g@[23]));
            } else if j == 23 {
                assert(spec_priority_leq(g@[23], g@[24]));
            } else if j == 24 {
                assert(spec_priority_leq(g@[24], g@[25]));
            } else if j == 25 {
                assert(spec_priority_leq(g@[25], g@[26]));
            } else if j == 26 {
                assert(spec_priority_leq(g@[26], g@[27]));
            } else if j == 27 {
                assert(spec_priority_leq(g@[27], g@[28]));
            } else if j == 28 {
                assert(spec_priority_leq(g@[28], g@[29]));
            }
        }
        assert forall|j: int| 0 <= j < g@.len() - 1 implies !spec_is_catch_all(#[trigger] g@[j]) by {
            if j == 0 {
                assert(!spec_is_catch_all(g@[0]));
            } else if j == 1 {
                assert(!spec_is_catch_all(g@[1]));
            } else if j == 2 {
                assert(!spec_is_catch_all(g@[2]));
            } else if j == 3 {
                assert(!spec_is_catch_all(g@[3]));
            } else if j == 4 {
                assert(!spec_is_catch_all(g@[4]));
            } else if j == 5 {
                assert(!spec_is_catch_all(g@[5]));
            } else if j == 6 {
                assert(!spec_is_catch_all(g@[6]));
            } else if j == 7 {
                assert(!spec_is_catch_all(g@[7]));
            } else if j == 8 {
                assert(!spec_is_catch_all(g@[8]));
            } else if j == 9 {
                assert(!spec_is_catch_all(g@[9]));
            } else if j == 10 {
                assert(!spec_is_catch_all(g@[10]));
            } else if j == 11 {
                assert(!spec_is_catch_all(g@[11]));
            } else if j == 12 {
                assert(!spec_is_catch_all(g@[12]));
            } else if j == 13 {
                assert(!spec_is_catch_all(g@[13]));
            } else if j == 14 {
                assert(!spec_is_catch_all(g@[14]));
            } else if j == 15 {
                assert(!spec_is_catch_all(g@[15]));
            } else if j == 16 {
                assert(!spec_is_catch_all(g@[16]));
            } else if j == 17 {
                assert(!spec_is_catch_all(g@[17]));
            } else if j == 18 {
                assert(!spec_is_catch_all(g@[18]));
            } else if j == 19 {
                assert(!spec_is_catch_all(g@[19]));
            } else if j == 20 {
                assert(!spec_is_catch_all(g@[20]));
            } else if j == 21 {
                assert(!spec_is_catch_all(g@[21]));
            } else if j == 22 {
                assert(!spec_is_catch_all(g@[22]));
            } else if j == 23 {
                assert(!spec_is_catch_all(g@[23]));
            } else if j == 24 {
                assert(!spec_is_catch_all(g@[24]));
            } else if j == 25 {
                assert(!spec_is_catch_all(g@[25]));
            } else if j == 26 {
                assert(!spec_is_catch_all(g@[26]));
            } else if j == 27 {
                assert(!spec_is_catch_all(g@[27]));
            } else if j == 28 {
                assert(!spec_is_catch_all(g@[28]));
            }
        }
        lemma_catch_all_count_last(g@);
    }
    g
}

fn routes_get_object() -> (g: Vec<Route>)
    ensures
        g@.len() == 8,
        route_is(g@[0], OperationType::GetObjectAttributes, Some("attributes"), None, None, None, Some("x-amz-object-attributes"), None, false),
        route_is(g@[1], OperationType::GetObjectAcl, Some("acl"), None, None, None, None, None, false),
        route_is(g@[2], OperationType::GetObjectLegalHold, Some("legal-hold"), None, None, None, None, None, false),
        route_is(g@[3], OperationType::GetObjectRetention, Some("retention"), None, None, None, None, None, false),
        route_is(g@[4], OperationType::GetObjectTagging, Some("tagging"), None, None, None, None, None, false),
        route_is(g@[5], OperationType::GetObjectTorrent, Some("torrent"), None, None, None, None, None, false),
        route_is(g@[6], OperationType::ListParts, None, None, Some("uploadId"), None, None, None, false),
        route_is(g@[7], OperationType::GetObject, None, None, None, None, None, None, false),
        group_priority_sorted(g@),
        spec_catch_all_count(g@) <= 1,
{
    let mut g: Vec<Route> = Vec::new();
    g.push(rt(OperationType::GetObjectAttributes, Some("attributes"), None, None, None, Some("x-amz-object-attributes"), None, false));
    g.push(rt(OperationType::GetObjectAcl, Some("acl"), None, None, None, None, None, false));
    g.push(rt(OperationType::GetObjectLegalHold, Some("legal-hold"), None, None, None, None, None, false));
    g.push(rt(OperationType::GetObjectRetention, Some("retention"), None, None, None, None, None, false));
    g.push(rt(OperationType::GetObjectTagging, Some("tagging"), None, None, None, None, None, false));
    g.push(rt(OperationType::GetObjectTorrent, Some("torrent"), None, None, None, None, None, false));
    g.push(rt(OperationType::ListParts, None, None, Some("uploadId"), None, None, None, false));
    g.push(rt(OperationType::GetObject, None, None, None, None, None, None, false));
    proof {
        assert(route_is(g@[0], OperationType::GetObjectAttributes, Some("attributes"), None, None, None, Some("x-amz-object-attributes"), None, false));
        assert(route_is(g@[1], OperationType::GetObjectAcl, Some("acl"), None, None, None, None, None, false));
        assert(route_is(g@[2], OperationType::GetObjectLegalHold, Some("legal-hold"), None, None, None, None, None, false));
        assert(route_is(g@[3], OperationType::GetObjectRetention, Some("retention"), None, None, None, None, None, false));
        assert(route_is(g@[4], OperationType::GetObjectTagging, Some("tagging"), None, None, None, None, None, false));
        assert(route_is(g@[5], OperationType::GetObjectTorrent, Some("torrent"), None, None, None, None, None, false));
        assert(route_is(g@[6], OperationType::ListParts, None, None, Some("uploadId"), None, None, None, false));
        assert(route_is(g@[7], OperationType::GetObject, None, None, None, None, None, None, false));
        assert forall|j: int| 0 <= j < g@.len() - 1 implies spec_priority_leq(#[trigger] g@[j], g@[j + 1]) by {
            if j == 0 {
                assert(spec_priority_leq(g@[0], g@[1]));
            } else if j == 1 {
                assert(spec_priority_leq(g@[1], g@[2]));
            } else if j == 2 {
                assert(spec_priority_leq(g@[2], g@[3]));
            } else if j == 3 {
                assert(spec_priority_leq(g@[3], g@[4]));
            } else if j == 4 {
                assert(spec_priority_leq(g@[4], g@[5]));
            } else if j == 5 {
                assert(spec_priority_leq(g@[5], g@[6]));
            } else if j == 6 {
                assert(spec_priority_leq(g@[6], g@[7]));
            }
        }
        assert forall|j: int| 0 <= j < g@.len() - 1 implies !spec_is_catch_all(#[trigger] g@[j]) by {
            if j == 0 {
                assert(!spec_is_catch_all(g@[0]));
            } else if j == 1 {
                assert(!spec_is_catch_all(g@[1]));
            } else if j == 2 {
                assert(!spec_is_catch_all(g@[2]));
            } else if j == 3 {
                assert(!spec_is_catch_all(g@[3]));
            } else if j == 4 {
                assert(!spec_is_catch_all(g@[4]));
            } else if j == 5 {
                assert(!spec_is_catch_all(g@[5]));
            } else if j == 6 {
                assert(!spec_is_catch_all(g@[6]));
            }
        }
        lemma_catch_all_count_last(g@);
    }
    g
}

fn routes_post_bucket() -> (g: Vec<Route>)
    ensures
        g@.len() == 2,
        route_is(g@[0], OperationType::DeleteObjects, Some("delete"), None, None, None, None, None, true),
        route_is(g@[1], OperationType::WriteGetObjectResponse, None, None, None, None, Some("x-amz-request-route"), Some("x-amz-request-token"), false),
        group_priority_sorted(g@),
        spec_catch_all_count(g@) <= 1,
{
    let mut g: Vec<Route> = Vec::new();
    g.push(rt(OperationType::DeleteObjects, Some("delete"), None, None, None, None, None, true));
    g.push(rt(OperationType::WriteGetObjectResponse, None, None, None, None, Some("x-amz-request-route"), Some("x-amz-request-token"), false));
    proof {
        assert(route_is(g@[0], OperationType::DeleteObjects, Some("delete"), None, None, None, None, None, true));
        assert(route_is(g@[1], OperationType::WriteGetObjectResponse, None, None, None, None, Some("x-amz-request-route"), Some("x-amz-request-token"), false));
        assert forall|j: int| 0 <= j < g@.len() - 1 implies spec_priority_leq(#[trigger] g@[j], g@[j + 1]) by {
            if j == 0 {
                assert(spec_priority_leq(g@[0], g@[1]));
            }
        }
        assert forall|j: int| 0 <= j < g@.len() - 1 implies !spec_is_catch_all(#[trigger] g@[j]) by {
            if j == 0 {
                assert(!spec_is_catch_all(g@[0]));
            }
        }
        lemma_catch_all_count_last(g@);
    }
    g
}

fn routes_post_object() -> (g: Vec<Route>)
    ensures
        g@.len() == 4,
        route_is(g@[0], OperationType::SelectObjectContent, Some("select"), Some(("select-type", "2")), None, None, None, None, true),
        route_is(g@[1], OperationType::CreateMultipartUpload, Some("uploads"), None, None, None, None, None, false),
        route_is(g@[2], OperationType::RestoreObject, Some("restore"), None, None, None, None, None, true),
        route_is(g@[3], OperationType::CompleteMultipartUpload, None, None, Some("uploadId"), None, None, None, true),
        group_priority_sorted(g@),
        spec_catch_all_count(g@) <= 1,
{
    let mut g: Vec<Route> = Vec::new();
    g.push(rt(OperationType::SelectObjectContent, Some("select"), Some(("select-type", "2")), None, None, None, None, true));
    g.push(rt(OperationType::CreateMultipartUpload, Some("uploads"), None, None, None, None, None, false));
    g.push(rt(OperationType::RestoreObject, Some("restore"), None, None, None, None, None, true));
    g.push(rt(OperationType::CompleteMultipartUpload, None, None, Some("uploadId"), None, None, None, true));
    proof {
        assert(route_is(g@[0], OperationType::SelectObjectContent, Some("select"), Some(("select-type", "2")), None, None, None, None, true));
        assert(route_is(g@[1], OperationType::CreateMultipartUpload, Some("uploads"), None, None, None, None, None, false));
        assert(route_is(g@[2], OperationType::RestoreObject, Some("restore"), None, None, None, None, None, true));
        assert(route_is(g@[3], OperationType::CompleteMultipartUpload, None, None, Some("uploadId"), None, None, None, true));
        assert forall|j: int| 0 <= j < g@.len() - 1 implies spec_priority_leq(#[trigger] g@[j], g@[j + 1]) by {
            if j == 0 {
                assert(spec_priority_leq(g@[0], g@[1]));
            } else if j == 1 {
                assert(spec_priority_leq(g@[1], g@[2]));
            } else if j == 2 {
                assert(spec_priority_leq(g@[2], g@[3]));
            }
        }
        assert forall|j: int| 0 <= j < g@.len() - 1 implies !spec_is_catch_all(#[trigger] g@[j]) by {
            if j == 0 {
                assert(!spec_is_catch_all(g@[0]));
            } else if j == 1 {
                assert(!spec_is_catch_all(g@[1]));
            } else if j == 2 {
                assert(!spec_is_catch_all(g@[2]));
            }
        }
        lemma_catch_all_count_last(g@);
    }
    g
}

fn routes_put_bucket() -> (g: Vec<Route>)
    ensures
        g@.len() == 20,
        route_is(g@[0], OperationType::PutBucketAnalyticsConfiguration, Some("analytics"), None, Some("id"), None, None, None, true),
        route_is(g@[1], OperationType::PutBucketIntelligentTieringConfiguration, Some("intelligent-tiering"), None, Some("id"), None, None, None, true),
        route_is(g@[2], OperationType::PutBucketInventoryConfiguration, Some("inventory"), None, Some("id"), None, None, None, true),
        route_is(g@[3], OperationType::PutBucketMetricsConfiguration, Some("metrics"), None, Some("id"), None, None, None, true),
        route_is(g@[4], OperationType::PutBucketAccelerateConfiguration, Some("accelerate"), None, None, None, None, None, true),
        route_is(g@[5], OperationType::PutBucketAcl, Some("acl"), None, None, None, None, None, true),
        route_is(g@[6], OperationType::PutBucketCors, Some("cors"), None, None, None, None, None, true),
        route_is(g@[7], OperationType::PutBucketEncryption, Some("encryption"), None, None, None, None, None, true),
        route_is(g@[8], OperationType::PutBucketLifecycleConfiguration, Some("lifecycle"), None, None, None, None, None, true),
        route_is(g@[9], OperationType::PutBucketLogging, Some("logging"), None, None, None, None, None, true),
        route_is(g@[10], OperationType::PutBucketNotificationConfiguration, Some("notification"), None, None, None, None, None, true),
        route_is(g@[11], OperationType::PutBucketOwnershipControls, Some("ownershipControls"), None, None, None, None, None, true),
        route_is(g@[12], OperationType::PutBucketPolicy, Some("policy"), None, None, None, None, None, true),
        route_is(g@[13], OperationType::PutBucketReplication, Some("replication"), None, None, None, None, None, true),
        route_is(g@[14], OperationType::PutBucketRequestPayment, Some("requestPayment"), None, None, None, None, None, true),
        route_is(g@[15], OperationType::PutBucketTagging, Some("tagging"), None, None, None, None, None, true),
        route_is(g@[16], OperationType::PutBucketVersioning, Some("versioning"), None, None, None, None, None, true),
        route_is(g@[17], OperationType::PutBucketWebsite, Some("website"), None, None, None, None, None, true),
        route_is(g@[18], OperationType::PutObjectLockConfiguration, Some("object-lock"), None, None, None, None, None, true),
        route_is(g@[19], OperationType::CreateBucket, None, None, None, None, None, None, true),
        group_priority_sorted(g@),
        spec_catch_all_count(g@) <= 1,
{
    let mut g: Vec<Route> = Vec::new();
    g.push(rt(OperationType::PutBucketAnalyticsConfiguration, Some("analytics"), None, Some("id"), None, None, None, true));
    g.push(rt(OperationType::PutBucketIntelligentTieringConfiguration, Some("intelligent-tiering"), None, Some("id"), None, None, None, true));
    g.push(rt(OperationType::PutBucketInventoryConfiguration, Some("inventory"), None, Some("id"), None, None, None, true));
    g.push(rt(OperationType::PutBucketMetricsConfiguration, Some("metrics"), None, Some("id"), None, None, None, true));
    g.push(rt(OperationType::PutBucketAccelerateConfiguration, Some("accelerate"), None, None, None, None, None, true));
    g.push(rt(OperationType::PutBucketAcl, Some("acl"), None, None, None, None, None, true));
    g.push(rt(OperationType::PutBucketCors, Some("cors"), None, None, None, None, None, true));
    g.push(rt(OperationType::PutBucketEncryption, Some("encryption"), None, None, None, None, None, true));
    g.push(rt(OperationType::PutBucketLifecycleConfiguration, Some("lifecycle"), None, None, None, None, None, true));
    g.push(rt(OperationType::PutBucketLogging, Some("logging"), None, None, None, None, None, true));
    g.push(rt(OperationType::PutBucketNotificationConfiguration, Some("notification"), None, None, None, None, None, true));
    g.push(rt(OperationType::PutBucketOwnershipControls, Some("ownershipControls"), None, None, None, None, None, true));
    g.push(rt(OperationType::PutBucketPolicy, Some("policy"), None, None, None, None, None, true));
    g.push(rt(OperationType::PutBucketReplication, Some("replication"), None, None, None, None, None, true));
    g.push(rt(OperationType::PutBucketRequestPayment, Some("requestPayment"), None, None, None, None, None, true));
    g.push(rt(OperationType::PutBucketTagging, Some("tagging"), None, None, None, None, None, true));
    g.push(rt(OperationType::PutBucketVersioning, Some("versioning"), None, None, None, None, None, true));
    g.push(rt(OperationType::PutBucketWebsite, Some("website"), None, None, None, None, None, true));
    g.push(rt(OperationType::PutObjectLockConfiguration, Some("object-lock"), None, None, None, None, None, true));
    g.push(rt(OperationType::CreateBucket, None, None, None, None, None, None, true));
    proof {
        assert(route_is(g@[0], OperationType::PutBucketAnalyticsConfiguration, Some("analytics"), None, Some("id"), None, None, None, true));
        assert(route_is(g@[1], OperationType::PutBucketIntelligentTieringConfiguration, Some("intelligent-tiering"), None, Some("id"), None, None, None, true));
        assert(route_is(g@[2], OperationType::PutBucketInventoryConfiguration, Some("inventory"), None, Some("id"), None, None, None, true));
        assert(route_is(g@[3], OperationType::PutBucketMetricsConfiguration, Some("metrics"), None, Some("id"), None, None, None, true));
        assert(route_is(g@[4], OperationType::PutBucketAccelerateConfiguration, Some("accelerate"), None, None, None, None, None, true));
        assert(route_is(g@[5], OperationType::PutBucketAcl, Some("acl"), None, None, None, None, None, true));
        assert(route_is(g@[6], OperationType::PutBucketCors, Some("cors"), None, None, None, None, None, true));
        assert(route_is(g@[7], OperationType::PutBucketEncryption, Some("encryption"), None, None, None, None, None, true));
        assert(route_is(g@[8], OperationType::PutBucketLifecycleConfiguration, Some("lifecycle"), None, None, None, None, None, true));
        assert(route_is(g@[9], OperationType::PutBucketLogging, Some("logging"), None, None, None, None, None, true));
        assert(route_is(g@[10], OperationType::PutBucketNotificationConfiguration, Some("notification"), None, None, None, None, None, true));
        assert(route_is(g@[11], OperationType::PutBucketOwnershipControls, Some("ownershipControls"), None, None, None, None, None, true));
        assert(route_is(g@[12], OperationType::PutBucketPolicy, Some("policy"), None, None, None, None, None, true));
        assert(route_is(g@[13], OperationType::PutBucketReplication, Some("replication"), None, None, None, None, None, true));
        assert(route_is(g@[14], OperationType::PutBucketRequestPayment, Some("requestPayment"), None, None, None, None, None, true));
        assert(route_is(g@[15], OperationType::PutBucketTagging, Some("tagging"), None, None, None, None, None, true));
        assert(route_is(g@[16], OperationType::PutBucketVersioning, Some("versioning"), None, None, None, None, None, true));
        assert(route_is(g@[17], OperationType::PutBucketWebsite, Some("website"), None, None, None, None, None, true));
        assert(route_is(g@[18], OperationType::PutObjectLockConfiguration, Some("object-lock"), None, None, None, None, None, true));
        assert(route_is(g@[19], OperationType::CreateBucket, None, None, None, None, None, None, true));
        assert forall|j: int| 0 <= j < g@.len() - 1 implies spec_priority_leq(#[trigger] g@[j], g@[j + 1]) by {
            if j == 0 {
                assert(spec_priority_leq(g@[0], g@[1]));
            } else if j == 1 {
                assert(spec_priority_leq(g@[1], g@[2]));
            } else if j == 2 {
                assert(spec_priority_leq(g@[2], g@[3]));
            } else if j == 3 {
                assert(spec_priority_leq(g@[3], g@[4]));
            } else if j == 4 {
                assert(spec_priority_leq(g@[4], g@[5]));
            } else if j == 5 {
                assert(spec_priority_leq(g@[5], g@[6]));
            } else if j == 6 {
                assert(spec_priority_leq(g@[6], g@[7]));
            } else if j == 7 {
                assert(spec_priority_leq(g@[7], g@[8]));
            } else if j == 8 {
                assert(spec_priority_leq(g@[8], g@[9]));
            } else if j == 9 {
                assert(spec_priority_leq(g@[9], g@[10]));
            } else if j == 10 {
                assert(spec_priority_leq(g@[10], g@[11]));
            } else if j == 11 {
                assert(spec_priority_leq(g@[11], g@[12]));
            } else if j == 12 {
                assert(spec_priority_leq(g@[12], g@[13]));
            } else if j == 13 {
                assert(spec_priority_leq(g@[13], g@[14]));
            } else if j == 14 {
                assert(spec_priority_leq(g@[14], g@[15]));
            } else if j == 15 {
                assert(spec_priority_leq(g@[15], g@[16]));
            } else if j == 16 {
                assert(spec_priority_leq(g@[16], g@[17]));
            } else if j == 17 {
                assert(spec_priority_leq(g@[17], g@[18]));
            } else if j == 18 {
                assert(spec_priority_leq(g@[18], g@[19]));
            }
        }
        assert forall|j: int| 0 <= j < g@.len() - 1 implies !spec_is_catch_all(#[trigger] g@[j]) by {
            if j == 0 {
                assert(!spec_is_catch_all(g@[0]));
            } else if j == 1 {
                assert(!spec_is_catch_all(g@[1]));
            } else if j == 2 {
                assert(!spec_is_catch_all(g@[2]));
            } else if j == 3 {
                assert(!spec_is_catch_all(g@[3]));
            } else if j == 4 {
                assert(!spec_is_catch_all(g@[4]));
            } else if j == 5 {
                assert(!spec_is_catch_all(g@[5]));
            } else if j == 6 {
                assert(!spec_is_catch_all(g@[6]));
            } else if j == 7 {
                assert(!spec_is_catch_all(g@[7]));
            } else if j == 8 {
                assert(!spec_is_catch_all(g@[8]));
            } else if j == 9 {
                assert(!spec_is_catch_all(g@[9]));
            } else if j == 10 {
                assert(!spec_is_catch_all(g@[10]));
            } else if j == 11 {
                assert(!spec_is_catch_all(g@[11]));
            } else if j == 12 {
                assert(!spec_is_catch_all(g@[12]));
            } else if j == 13 {
                assert(!spec_is_catch_all(g@[13]));
            } else if j == 14 {
                assert(!spec_is_catch_all(g@[14]));
            } else if j == 15 {
                assert(!spec_is_catch_all(g@[15]));
            } else if j == 16 {
                assert(!spec_is_catch_all(g@[16]));
            } else if j == 17 {
                assert(!spec_is_catch_all(g@[17]));
            } else if j == 18 {
                assert(!spec_is_catch_all(g@[18]));
            }
        }
        lemma_catch_all_count_last(g@);
    }
    g
}

fn routes_put_object() -> (g: Vec<Route>)
    ensures
        g@.len() == 8,
        route_is(g@[0], OperationType::PutObjectAcl, Some("acl"), None, None, None, None, None, true),
        route_is(g@[1], OperationType::PutObjectLegalHold, Some("legal-hold"), None, None, None, None, None, true),
        route_is(g@[2], OperationType::PutObjectRetention, Some("retention"), None, None, None, None, None, true),
        route_is(g@[3], OperationType::PutObjectTagging, Some("tagging"), None, None, None, None, None, true),
        route_is(g@[4], OperationType::UploadPartCopy, None, None, Some("partNumber"), Some("uploadId"), Some("x-amz-copy-source"), None, false),
        route_is(g@[5], OperationType::UploadPart, None, None, Some("partNumber"), Some("uploadId"), None, None, false),
        route_is(g@[6], OperationType::CopyObject, None, None, None, None, Some("x-amz-copy-source"), None, false),
        route_is(g@[7], OperationType::PutObject, None, None, None, None, None, None, false),
        group_priority_sorted(g@),
        spec_catch_all_count(g@) <= 1,
{
    let mut g: Vec<Route> = Vec::new();
    g.push(rt(OperationType::PutObjectAcl, Some("acl"), None, None, None, None, None, true));
    g.push(rt(OperationType::PutObjectLegalHold, Some("legal-hold"), None, None, None, None, None, true));
    g.push(rt(OperationType::PutObjectRetention, Some("retention"), None, None, None, None, None, true));
    g.push(rt(OperationType::PutObjectTagging, Some("tagging"), None, None, None, None, None, true));
    g.push(rt(OperationType::UploadPartCopy, None, None, Some("partNumber"), Some("uploadId"), Some("x-amz-copy-source"), None, false));
    g.push(rt(OperationType::UploadPart, None, None, Some("partNumber"), Some("uploadId"), None, None, false));
    g.push(rt(OperationType::CopyObject, None, None, None, None, Some("x-amz-copy-source"), None, false));
    g.push(rt(OperationType::PutObject, None, None, None, None, None, None, false));
    proof {
        assert(route_is(g@[0], OperationType::PutObjectAcl, Some("acl"), None, None, None, None, None, true));
        assert(route_is(g@[1], OperationType::PutObjectLegalHold, Some("legal-hold"), None, None, None, None, None, true));
        assert(route_is(g@[2], OperationType::PutObjectRetention, Some("retention"), None, None, None, None, None, true));
        assert(route_is(g@[3], OperationType::PutObjectTagging, Some("tagging"), None, None, None, None, None, true));
        assert(route_is(g@[4], OperationType::UploadPartCopy, None, None, Some("partNumber"), Some("uploadId"), Some("x-amz-copy-source"), None, false));
        assert(route_is(g@[5], OperationType::UploadPart, None, None, Some("partNumber"), Some("uploadId"), None, None, false));
        assert(route_is(g@[6], OperationType::CopyObject, None, None, None, None, Some("x-amz-copy-source"), None, false));
        assert(route_is(g@[7], OperationType::PutObject, None, None, None, None, None, None, false));
        assert forall|j: int| 0 <= j < g@.len() - 1 implies spec_priority_leq(#[trigger] g@[j], g@[j + 1]) by {
            if j == 0 {
                assert(spec_priority_leq(g@[0], g@[1]));
            } else if j == 1 {
                assert(spec_priority_leq(g@[1], g@[2]));
            } else if j == 2 {
                assert(spec_priority_leq(g@[2], g@[3]));
            } else if j == 3 {
                assert(spec_priority_leq(g@[3], g@[4]));
            } else if j == 4 {
                assert(spec_priority_leq(g@[4], g@[5]));
            } else if j == 5 {
                assert(spec_priority_leq(g@[5], g@[6]));
            } else if j == 6 {
                assert(spec_priority_leq(g@[6], g@[7]));
            }
        }
        assert forall|j: int| 0 <= j < g@.len() - 1 implies !spec_is_catch_all(#[trigger] g@[j]) by {
            if j == 0 {
                assert(!spec_is_catch_all(g@[0]));
            } else if j == 1 {
                assert(!spec_is_catch_all(g@[1]));
            } else if j == 2 {
                assert(!spec_is_catch_all(g@[2]));
            } else if j == 3 {
                assert(!spec_is_catch_all(g@[3]));
            } else if j == 4 {
                assert(!spec_is_catch_all(g@[4]));
            } else if j == 5 {
                assert(!spec_is_catch_all(g@[5]));
            } else if j == 6 {
                assert(!spec_is_catch_all(g@[6]));
            }
        }
        lemma_catch_all_count_last(g@);
    }
    g
}

fn routes_delete_bucket() -> (g: Vec<Route>)
    ensures
        g@.len() == 14,
        route_is(g@[0], OperationType::DeleteBucketAnalyticsConfiguration, Some("analytics"), None, Some("id"), None, None, None, false),
        route_is(g@[1], OperationType::DeleteBucketIntelligentTieringConfiguration, Some("intelligent-tiering"), None, Some("id"), None, None, None, false),
        route_is(g@[2], OperationType::DeleteBucketInventoryConfiguration, Some("inventory"), None, Some("id"), None, None, None, false),
        route_is(g@[3], OperationType::DeleteBucketMetricsConfiguration, Some("metrics"), None, Some("id"), None, None, None, false),
        route_is(g@[4], OperationType::DeleteBucketCors, Some("cors"), None, None, None, None, None, false),
        route_is(g@[5], OperationType::DeleteBucketEncryption, Some("encryption"), None, None, None, None, None, false),
        route_is(g@[6], OperationType::DeleteBucketLifecycle, Some("lifecycle"), None, None, None, None, None, false),
        route_is(g@[7], OperationType::DeleteBucketOwnershipControls, Some("ownershipControls"), None, None, None, None, None, false),
        route_is(g@[8], OperationType::DeleteBucketPolicy, Some("policy"), None, None, None, None, None, false),
        route_is(g@[9], OperationType::DeleteBucketReplication, Some("replication"), None, None, None, None, None, false),
        route_is(g@[10], OperationType::DeleteBucketTagging, Some("tagging"), None, None, None, None, None, false),
        route_is(g@[11], OperationType::DeleteBucketWebsite, Some("website"), None, None, None, None, None, false),
        route_is(g@[12], OperationType::DeletePublicAccessBlock, Some("publicAccessBlock"), None, None, None, None, None, false),
        route_is(g@[13], OperationType::DeleteBucket, None, None, None, None, None, None, false),
        group_priority_sorted(g@),
        spec_catch_all_count(g@) <= 1,
{
    let mut g: Vec<Route> = Vec::new();
    g.push(rt(OperationType::DeleteBucketAnalyticsConfiguration, Some("analytics"), None, Some("id"), None, None, None, false));
    g.push(rt(OperationType::DeleteBucketIntelligentTieringConfiguration, Some("intelligent-tiering"), None, Some("id"), None, None, None, false));
    g.push(rt(OperationType::DeleteBucketInventoryConfiguration, Some("inventory"), None, Some("id"), None, None, None, false));
    g.push(rt(OperationType::DeleteBucketMetricsConfiguration, Some("metrics"), None, Some("id"), None, None, None, false));
    g.push(rt(OperationType::DeleteBucketCors, Some("cors"), None, None, None, None, None, false));
    g.push(rt(OperationType::DeleteBucketEncryption, Some("encryption"), None, None, None, None, None, false));
    g.push(rt(OperationType::DeleteBucketLifecycle, Some("lifecycle"), None, None, None, None, None, false));
    g.push(rt(OperationType::DeleteBucketOwnershipControls, Some("ownershipControls"), None, None, None, None, None, false));
    g.push(rt(OperationType::DeleteBucketPolicy, Some("policy"), None, None, None, None, None, false));
    g.push(rt(OperationType::DeleteBucketReplication, Some("replication"), None, None, None, None, None, false));
    g.push(rt(OperationType::DeleteBucketTagging, Some("tagging"), None, None, None, None, None, false));
    g.push(rt(OperationType::DeleteBucketWebsite, Some("website"), None, None, None, None, None, false));
    g.push(rt(OperationType::DeletePublicAccessBlock, Some("publicAccessBlock"), None, None, None, None, None, false));
    g.push(rt(OperationType::DeleteBucket, None, None, None, None, None, None, false));
    proof {
        assert(route_is(g@[0], OperationType::DeleteBucketAnalyticsConfiguration, Some("analytics"), None, Some("id"), None, None, None, false));
        assert(route_is(g@[1], OperationType::DeleteBucketIntelligentTieringConfiguration, Some("intelligent-tiering"), None, Some("id"), None, None, None, false));
        assert(route_is(g@[2], OperationType::DeleteBucketInventoryConfiguration, Some("inventory"), None, Some("id"), None, None, None, false));
        assert(route_is(g@[3], OperationType::DeleteBucketMetricsConfiguration, Some("metrics"), None, Some("id"), None, None, None, false));
        assert(route_is(g@[4], OperationType::DeleteBucketCors, Some("cors"), None, None, None, None, None, false));
        assert(route_is(g@[5], OperationType::DeleteBucketEncryption, Some("encryption"), None, None, None, None, None, false));
        assert(route_is(g@[6], OperationType::DeleteBucketLifecycle, Some("lifecycle"), None, None, None, None, None, false));
        assert(route_is(g@[7], OperationType::DeleteBucketOwnershipControls, Some("ownershipControls"), None, None, None, None, None, false));
        assert(route_is(g@[8], OperationType::DeleteBucketPolicy, Some("policy"), None, None, None, None, None, false));
        assert(route_is(g@[9], OperationType::DeleteBucketReplication, Some("replication"), None, None, None, None, None, false));
        assert(route_is(g@[10], OperationType::DeleteBucketTagging, Some("tagging"), None, None, None, None, None, false));
        assert(route_is(g@[11], OperationType::DeleteBucketWebsite, Some("website"), None, None, None, None, None, false));
        assert(route_is(g@[12], OperationType::DeletePublicAccessBlock, Some("publicAccessBlock"), None, None, None, None, None, false));
        assert(route_is(g@[13], OperationType::DeleteBucket, None, None, None, None, None, None, false));
        assert forall|j: int| 0 <= j < g@.len() - 1 implies spec_priority_leq(#[trigger] g@[j], g@[j + 1]) by {
            if j == 0 {
                assert(spec_priority_leq(g@[0], g@[1]));
            } else if j == 1 {
                assert(spec_priority_leq(g@[1], g@[2]));
            } else if j == 2 {
                assert(spec_priority_leq(g@[2], g@[3]));
            } else if j == 3 {
                assert(spec_priority_leq(g@[3], g@[4]));
            } else if j == 4 {
                assert(spec_priority_leq(g@[4], g@[5]));
            } else if j == 5 {
                assert(spec_priority_leq(g@[5], g@[6]));
            } else if j == 6 {
                assert(spec_priority_leq(g@[6], g@[7]));
            } else if j == 7 {
                assert(spec_priority_leq(g@[7], g@[8]));
            } else if j == 8 {
                assert(spec_priority_leq(g@[8], g@[9]));
            } else if j == 9 {
                assert(spec_priority_leq(g@[9], g@[10]));
            } else if j == 10 {
                assert(spec_priority_leq(g@[10], g@[11]));
            } else if j == 11 {
                assert(spec_priority_leq(g@[11], g@[12]));
            } else if j == 12 {
                assert(spec_priority_leq(g@[12], g@[13]));
            }
        }
        assert forall|j: int| 0 <= j < g@.len() - 1 implies !spec_is_catch_all(#[trigger] g@[j]) by {
            if j == 0 {
                assert(!spec_is_catch_all(g@[0]));
            } else if j == 1 {
                assert(!spec_is_catch_all(g@[1]));
            } else if j == 2 {
                assert(!spec_is_catch_all(g@[2]));
            } else if j == 3 {
                assert(!spec_is_catch_all(g@[3]));
            } else if j == 4 {
                assert(!spec_is_catch_all(g@[4]));
            } else if j == 5 {
                assert(!spec_is_catch_all(g@[5]));
            } else if j == 6 {
                assert(!spec_is_catch_all(g@[6]));
            } else if j == 7 {
                assert(!spec_is_catch_all(g@[7]));
            } else if j == 8 {
                assert(!spec_is_catch_all(g@[8]));
            } else if j == 9 {
                assert(!spec_is_catch_all(g@[9]));
            } else if j == 10 {
                assert(!spec_is_catch_all(g@[10]));
            } else if j == 11 {
                assert(!spec_is_catch_all(g@[11]));
            } else if j == 12 {
                assert(!spec_is_catch_all(g@[12]));
            }
        }
        lemma_catch_all_count_last(g@);
    }
    g
}

fn routes_delete_object() -> (g: Vec<Route>)
    ensures
        g@.len() == 3,
        route_is(g@[0], OperationType::DeleteObjectTagging, Some("tagging"), None, None, None, None, None, false),
        route_is(g@[1], OperationType::AbortMultipartUpload, None, None, Some("uploadId"), None, None, None, false),
        route_is(g@[2], OperationType::DeleteObject, None, None, None, None, None, None, false),
        group_priority_sorted(g@),
        spec_catch_all_count(g@) <= 1,
{
    let mut g: Vec<Route> = Vec::new();
    g.push(rt(OperationType::DeleteObjectTagging, Some("tagging"), None, None, None, None, None, false));
    g.push(rt(OperationType::AbortMultipartUpload, None, None, Some("uploadId"), None, None, None, false));
    g.push(rt(OperationType::DeleteObject, None, None, None, None, None, None, false));
    proof {
        assert(route_is(g@[0], OperationType::DeleteObjectTagging, Some("tagging"), None, None, None, None, None, false));
        assert(route_is(g@[1], OperationType::AbortMultipartUpload, None, None, Some("uploadId"), None, None, None, false));
        assert(route_is(g@[2], OperationType::DeleteObject, None, None, None, None, None, None, false));
        assert forall|j: int| 0 <= j < g@.len() - 1 implies spec_priority_leq(#[trigger] g@[j], g@[j + 1]) by {
            if j == 0 {
                assert(spec_priority_leq(g@[0], g@[1]));
            } else if j == 1 {
                assert(spec_priority_leq(g@[1], g@[2]));
            }
        }
        assert forall|j: int| 0 <= j < g@.len() - 1 implies !spec_is_catch_all(#[trigger] g@[j]) by {
            if j == 0 {
                assert(!spec_is_catch_all(g@[0]));
            } else if j == 1 {
                assert(!spec_is_catch_all(g@[1]));
            }
        }
        lemma_catch_all_count_last(g@);
    }
    g
}


/// The routing table, grouped by HTTP method and path shape.
pub struct Router {
    pub head_bucket: Vec<Route>,
    pub head_object: Vec<Route>,
    pub get_root: Vec<Route>,
    pub get_bucket: Vec<Route>,
    pub get_object: Vec<Route>,
    pub post_bucket: Vec<Route>,
    pub post_object: Vec<Route>,
    pub put_bucket: Vec<Route>,
    pub put_object: Vec<Route>,
    pub delete_bucket: Vec<Route>,
    pub delete_object: Vec<Route>,
    pub no_routes: Vec<Route>,
}

impl Router {
    /// The route group serving a method and path shape; combinations
    /// without operations get the empty group.
    pub open spec fn spec_group(&self, method: Method, path: S3PathData) -> Seq<Route> {
        match (method, path) {
            (Method::Head, S3PathData::Bucket { .. }) => self.head_bucket@,
            (Method::Head, S3PathData::Object { .. }) => self.head_object@,
            (Method::Get, S3PathData::Root) => self.get_root@,
            (Method::Get, S3PathData::Bucket { .. }) => self.get_bucket@,
            (Method::Get, S3PathData::Object { .. }) => self.get_object@,
            (Method::Post, S3PathData::Bucket { .. }) => self.post_bucket@,
            (Method::Post, S3PathData::Object { .. }) => self.post_object@,
            (Method::Put, S3PathData::Bucket { .. }) => self.put_bucket@,
            (Method::Put, S3PathData::Object { .. }) => self.put_object@,
            (Method::Delete, S3PathData::Bucket { .. }) => self.delete_bucket@,
            (Method::Delete, S3PathData::Object { .. }) => self.delete_object@,
            _ => self.no_routes@,
        }
    }

    /// The whole table holds exactly the routes below, each group in
    /// priority order with at most one catch-all.
    pub open spec fn spec_table_ok(&self) -> bool {
        // head bucket
        &&& self.head_bucket@.len() == 1
        &&& route_is(self.head_bucket@[0], OperationType::HeadBucket, None, None, None, None, None, None, false)
        &&& group_priority_sorted(self.head_bucket@)
        &&& spec_catch_all_count(self.head_bucket@) <= 1
        // head object
        &&& self.head_object@.len() == 1
        &&& route_is(self.head_object@[0], OperationType::HeadObject, None, None, None, None, None, None, false)
        &&& group_priority_sorted(self.head_object@)
        &&& spec_catch_all_count(self.head_object@) <= 1
        // get root
        &&& self.get_root@.len() == 1
        &&& route_is(self.get_root@[0], OperationType::ListBuckets, None, None, None, None, None, None, false)
        &&& group_priority_sorted(self.get_root@)
        &&& spec_catch_all_count(self.get_root@) <= 1
        // get bucket
        &&& self.get_bucket@.len() == 30
        &&& route_is(self.get_bucket@[0], OperationType::GetBucketAnalyticsConfiguration, Some("analytics"), None, Some("id"), None, None, None, false)
        &&& route_is(self.get_bucket@[1], OperationType::GetBucketIntelligentTieringConfiguration, Some("intelligent-tiering"), None, Some("id"), None, None, None, false)
        &&& route_is(self.get_bucket@[2], OperationType::GetBucketInventoryConfiguration, Some("inventory"), None, Some("id"), None, None, None, false)
        &&& route_is(self.get_bucket@[3], OperationType::GetBucketMetricsConfiguration, Some("metrics"), None, Some("id"), None, None, None, false)
        &&& route_is(self.get_bucket@[4], OperationType::GetBucketAccelerateConfiguration, Some("accelerate"), None, None, None, None, None, false)
        &&& route_is(self.get_bucket@[5], OperationType::GetBucketAcl, Some("acl"), None, None, None, None, None, false)
        &&& route_is(self.get_bucket@[6], OperationType::GetBucketCors, Some("cors"), None, None, None, None, None, false)
        &&& route_is(self.get_bucket@[7], OperationType::GetBucketEncryption, Some("encryption"), None, None, None, None, None, false)
        &&& route_is(self.get_bucket@[8], OperationType::GetBucketLifecycleConfiguration, Some("lifecycle"), None, None, None, None, None, false)
        &&& route_is(self.get_bucket@[9], OperationType::GetBucketLocation, Some("location"), None, None, None, None, None, false)
        &&& route_is(self.get_bucket@[10], OperationType::GetBucketLogging, Some("logging"), None, None, None, None, None, false)
        &&& route_is(self.get_bucket@[11], OperationType::GetBucketNotificationConfiguration, Some("notification"), None, None, None, None, None, false)
        &&& route_is(self.get_bucket@[12], OperationType::GetBucketOwnershipControls, Some("ownershipControls"), None, None, None, None, None, false)
        &&& route_is(self.get_bucket@[13], OperationType::GetBucketPolicy, Some("policy"), None, None, None, None, None, false)
        &&& route_is(self.get_bucket@[14], OperationType::GetBucketPolicyStatus, Some("policyStatus"), None, None, None, None, None, false)
        &&& route_is(self.get_bucket@[15], OperationType::GetBucketReplication, Some("replication"), None, None, None, None, None, false)
        &&& route_is(self.get_bucket@[16], OperationType::GetBucketRequestPayment, Some("requestPayment"), None, None, None, None, None, false)
        &&& route_is(self.get_bucket@[17], OperationType::GetBucketTagging, Some("tagging"), None, None, None, None, None, false)
        &&& route_is(self.get_bucket@[18], OperationType::GetBucketVersioning, Some("versioning"), None, None, None, None, None, false)
        &&& route_is(self.get_bucket@[19], OperationType::GetBucketWebsite, Some("website"), None, None, None, None, None, false)
        &&& route_is(self.get_bucket@[20], OperationType::GetObjectLockConfiguration, Some("object-lock"), None, None, None, None, None, false)
        &&& route_is(self.get_bucket@[21], OperationType::GetPublicAccessBlock, Some("publicAccessBlock"), None, None, None, None, None, false)
        &&& route_is(self.get_bucket@[22], OperationType::ListBucketAnalyticsConfigurations, Some("analytics"), None, None, None, None, None, false)
        &&& route_is(self.get_bucket@[23], OperationType::ListBucketIntelligentTieringConfigurations, Some("intelligent-tiering"), None, None, None, None, None, false)
        &&& route_is(self.get_bucket@[24], OperationType::ListBucketInventoryConfigurations, Some("inventory"), None, None, None, None, None, false)
        &&& route_is(self.get_bucket@[25], OperationType::ListBucketMetricsConfigurations, Some("metrics"), None, None, None, None, None, false)
        &&& route_is(self.get_bucket@[26], OperationType::ListMultipartUploads, Some("uploads"), None, None, None, None, None, false)
        &&& route_is(self.get_bucket@[27], OperationType::ListObjectVersions, Some("versions"), None, None, None, None, None, false)
        &&& route_is(self.get_bucket@[28], OperationType::ListObjectsV2, None, Some(("list-type", "2")), None, None, None, None, false)
        &&& route_is(self.get_bucket@[29], OperationType::ListObjects, None, None, None, None, None, None, false)
        &&& group_priority_sorted(self.get_bucket@)
        &&& spec_catch_all_count(self.get_bucket@) <= 1
        // get object
        &&& self.get_object@.len() == 8
        &&& route_is(self.get_object@[0], OperationType::GetObjectAttributes, Some("attributes"), None, None, None, Some("x-amz-object-attributes"), None, false)
        &&& route_is(self.get_object@[1], OperationType::GetObjectAcl, Some("acl"), None, None, None, None, None, false)
        &&& route_is(self.get_object@[2], OperationType::GetObjectLegalHold, Some("legal-hold"), None, None, None, None, None, false)
        &&& route_is(self.get_object@[3], OperationType::GetObjectRetention, Some("retention"), None, None, None, None, None, false)
        &&& route_is(self.get_object@[4], OperationType::GetObjectTagging, Some("tagging"), None, None, None, None, None, false)
        &&& route_is(self.get_object@[5], OperationType::GetObjectTorrent, Some("torrent"), None, None, None, None, None, false)
        &&& route_is(self.get_object@[6], OperationType::ListParts, None, None, Some("uploadId"), None, None, None, false)
        &&& route_is(self.get_object@[7], OperationType::GetObject, None, None, None, None, None, None, false)
        &&& group_priority_sorted(self.get_object@)
        &&& spec_catch_all_count(self.get_object@) <= 1
        // post bucket
        &&& self.post_bucket@.len() == 2
        &&& route_is(self.post_bucket@[0], OperationType::DeleteObjects, Some("delete"), None, None, None, None, None, true)
        &&& route_is(self.post_bucket@[1], OperationType::WriteGetObjectResponse, None, None, None, None, Some("x-amz-request-route"), Some("x-amz-request-token"), false)
        &&& group_priority_sorted(self.post_bucket@)
        &&& spec_catch_all_count(self.post_bucket@) <= 1
        // post object
        &&& self.post_object@.len() == 4
        &&& route_is(self.post_object@[0], OperationType::SelectObjectContent, Some("select"), Some(("select-type", "2")), None, None, None, None, true)
        &&& route_is(self.post_object@[1], OperationType::CreateMultipartUpload, Some("uploads"), None, None, None, None, None, false)
        &&& route_is(self.post_object@[2], OperationType::RestoreObject, Some("restore"), None, None, None, None, None, true)
        &&& route_is(self.post_object@[3], OperationType::CompleteMultipartUpload, None, None, Some("uploadId"), None, None, None, true)
        &&& group_priority_sorted(self.post_object@)
        &&& spec_catch_all_count(self.post_object@) <= 1
        // put bucket
        &&& self.put_bucket@.len() == 20
        &&& route_is(self.put_bucket@[0], OperationType::PutBucketAnalyticsConfiguration, Some("analytics"), None, Some("id"), None, None, None, true)
        &&& route_is(self.put_bucket@[1], OperationType::PutBucketIntelligentTieringConfiguration, Some("intelligent-tiering"), None, Some("id"), None, None, None, true)
        &&& route_is(self.put_bucket@[2], OperationType::PutBucketInventoryConfiguration, Some("inventory"), None, Some("id"), None, None, None, true)
        &&& route_is(self.put_bucket@[3], OperationType::PutBucketMetricsConfiguration, Some("metrics"), None, Some("id"), None, None, None, true)
        &&& route_is(self.put_bucket@[4], OperationType::PutBucketAccelerateConfiguration, Some("accelerate"), None, None, None, None, None, true)
        &&& route_is(self.put_bucket@[5], OperationType::PutBucketAcl, Some("acl"), None, None, None, None, None, true)
        &&& route_is(self.put_bucket@[6], OperationType::PutBucketCors, Some("cors"), None, None, None, None, None, true)
        &&& route_is(self.put_bucket@[7], OperationType::PutBucketEncryption, Some("encryption"), None, None, None, None, None, true)
        &&& route_is(self.put_bucket@[8], OperationType::PutBucketLifecycleConfiguration, Some("lifecycle"), None, None, None, None, None, true)
        &&& route_is(self.put_bucket@[9], OperationType::PutBucketLogging, Some("logging"), None, None, None, None, None, true)
        &&& route_is(self.put_bucket@[10], OperationType::PutBucketNotificationConfiguration, Some("notification"), None, None, None, None, None, true)
        &&& route_is(self.put_bucket@[11], OperationType::PutBucketOwnershipControls, Some("ownershipControls"), None, None, None, None, None, true)
        &&& route_is(self.put_bucket@[12], OperationType::PutBucketPolicy, Some("policy"), None, None, None, None, None, true)
        &&& route_is(self.put_bucket@[13], OperationType::PutBucketReplication, Some("replication"), None, None, None, None, None, true)
        &&& route_is(self.put_bucket@[14], OperationType::PutBucketRequestPayment, Some("requestPayment"), None, None, None, None, None, true)
        &&& route_is(self.put_bucket@[15], OperationType::PutBucketTagging, Some("tagging"), None, None, None, None, None, true)
        &&& route_is(self.put_bucket@[16], OperationType::PutBucketVersioning, Some("versioning"), None, None, None, None, None, true)
        &&& route_is(self.put_bucket@[17], OperationType::PutBucketWebsite, Some("website"), None, None, None, None, None, true)
        &&& route_is(self.put_bucket@[18], OperationType::PutObjectLockConfiguration, Some("object-lock"), None, None, None, None, None, true)
        &&& route_is(self.put_bucket@[19], OperationType::CreateBucket, None, None, None, None, None, None, true)
        &&& group_priority_sorted(self.put_bucket@)
        &&& spec_catch_all_count(self.put_bucket@) <= 1
        // put object
        &&& self.put_object@.len() == 8
        &&& route_is(self.put_object@[0], OperationType::PutObjectAcl, Some("acl"), None, None, None, None, None, true)
        &&& route_is(self.put_object@[1], OperationType::PutObjectLegalHold, Some("legal-hold"), None, None, None, None, None, true)
        &&& route_is(self.put_object@[2], OperationType::PutObjectRetention, Some("retention"), None, None, None, None, None, true)
        &&& route_is(self.put_object@[3], OperationType::PutObjectTagging, Some("tagging"), None, None, None, None, None, true)
        &&& route_is(self.put_object@[4], OperationType::UploadPartCopy, None, None, Some("partNumber"), Some("uploadId"), Some("x-amz-copy-source"), None, false)
        &&& route_is(self.put_object@[5], OperationType::UploadPart, None, None, Some("partNumber"), Some("uploadId"), None, None, false)
        &&& route_is(self.put_object@[6], OperationType::CopyObject, None, None, None, None, Some("x-amz-copy-source"), None, false)
        &&& route_is(self.put_object@[7], OperationType::PutObject, None, None, None, None, None, None, false)
        &&& group_priority_sorted(self.put_object@)
        &&& spec_catch_all_count(self.put_object@) <= 1
        // delete bucket
        &&& self.delete_bucket@.len() == 14
        &&& route_is(self.delete_bucket@[0], OperationType::DeleteBucketAnalyticsConfiguration, Some("analytics"), None, Some("id"), None, None, None, false)
        &&& route_is(self.delete_bucket@[1], OperationType::DeleteBucketIntelligentTieringConfiguration, Some("intelligent-tiering"), None, Some("id"), None, None, None, false)
        &&& route_is(self.delete_bucket@[2], OperationType::DeleteBucketInventoryConfiguration, Some("inventory"), None, Some("id"), None, None, None, false)
        &&& route_is(self.delete_bucket@[3], OperationType::DeleteBucketMetricsConfiguration, Some("metrics"), None, Some("id"), None, None, None, false)
        &&& route_is(self.delete_bucket@[4], OperationType::DeleteBucketCors, Some("cors"), None, None, None, None, None, false)
        &&& route_is(self.delete_bucket@[5], OperationType::DeleteBucketEncryption, Some("encryption"), None, None, None, None, None, false)
        &&& route_is(self.delete_bucket@[6], OperationType::DeleteBucketLifecycle, Some("lifecycle"), None, None, None, None, None, false)
        &&& route_is(self.delete_bucket@[7], OperationType::DeleteBucketOwnershipControls, Some("ownershipControls"), None, None, None, None, None, false)
        &&& route_is(self.delete_bucket@[8], OperationType::DeleteBucketPolicy, Some("policy"), None, None, None, None, None, false)
        &&& route_is(self.delete_bucket@[9], OperationType::DeleteBucketReplication, Some("replication"), None, None, None, None, None, false)
        &&& route_is(self.delete_bucket@[10], OperationType::DeleteBucketTagging, Some("tagging"), None, None, None, None, None, false)
        &&& route_is(self.delete_bucket@[11], OperationType::DeleteBucketWebsite, Some("website"), None, None, None, None, None, false)
        &&& route_is(self.delete_bucket@[12], OperationType::DeletePublicAccessBlock, Some("publicAccessBlock"), None, None, None, None, None, false)
        &&& route_is(self.delete_bucket@[13], OperationType::DeleteBucket, None, None, None, None, None, None, false)
        &&& group_priority_sorted(self.delete_bucket@)
        &&& spec_catch_all_count(self.delete_bucket@) <= 1
        // delete object
        &&& self.delete_object@.len() == 3
        &&& route_is(self.delete_object@[0], OperationType::DeleteObjectTagging, Some("tagging"), None, None, None, None, None, false)
        &&& route_is(self.delete_object@[1], OperationType::AbortMultipartUpload, None, None, Some("uploadId"), None, None, None, false)
        &&& route_is(self.delete_object@[2], OperationType::DeleteObject, None, None, None, None, None, None, false)
        &&& group_priority_sorted(self.delete_object@)
        &&& spec_catch_all_count(self.delete_object@) <= 1
        &&& self.no_routes@.len() == 0
    }

    /// Borrow the route group serving a method and path shape.
    pub fn group(&self, method: Method, path: &S3PathData) -> (g: &Vec<Route>)
        ensures
            g@ == self.spec_group(method, *path),
    {
        match (method, path) {
            (Method::Head, S3PathData::Bucket { .. }) => &self.head_bucket,
            (Method::Head, S3PathData::Object { .. }) => &self.head_object,
            (Method::Get, S3PathData::Root) => &self.get_root,
            (Method::Get, S3PathData::Bucket { .. }) => &self.get_bucket,
            (Method::Get, S3PathData::Object { .. }) => &self.get_object,
            (Method::Post, S3PathData::Bucket { .. }) => &self.post_bucket,
            (Method::Post, S3PathData::Object { .. }) => &self.post_object,
            (Method::Put, S3PathData::Bucket { .. }) => &self.put_bucket,
            (Method::Put, S3PathData::Object { .. }) => &self.put_object,
            (Method::Delete, S3PathData::Bucket { .. }) => &self.delete_bucket,
            (Method::Delete, S3PathData::Object { .. }) => &self.delete_object,
            _ => &self.no_routes,
        }
    }

    /// Build the routing table.
    pub fn new() -> (r: Router)
        ensures
            r.spec_table_ok(),
    {
        Router {
            head_bucket: routes_head_bucket(),
            head_object: routes_head_object(),
            get_root: routes_get_root(),
            get_bucket: routes_get_bucket(),
            get_object: routes_get_object(),
            post_bucket: routes_post_bucket(),
            post_object: routes_post_object(),
            put_bucket: routes_put_bucket(),
            put_object: routes_put_object(),
            delete_bucket: routes_delete_bucket(),
            delete_object: routes_delete_object(),
            no_routes: Vec::new(),
        }
    }

    /// Resolve a request to its operation and buffering flag, or to no
    /// operation when nothing in the table matches.
    pub fn resolve(
        &self,
        method: Method,
        path: &S3PathData,
        qs: Option<&OrderedQs>,
        headers: &Vec<Header>,
    ) -> (r: Option<(OperationType, bool)>)
        ensures
            r == spec_resolve_group(
                self.spec_group(method, *path),
                match qs {
                    Some(q) => Some(q@),
                    None => None,
                },
                headers@,
            ),
    {
        resolve_in_group(self.group(method, path), qs, headers)
    }
}

} // verus!
