//! Cacheability decisions and cache keys.
//!
//! For each cacheable operation, the decoded input metadata and the
//! cache configuration decide whether the response may be cached, under
//! which key, and with what expiry.

use vstd::prelude::*;
use vstd::string::StringExecFns;

use crate::config::CacheMiddlewareConfig;
use crate::s3::{
    GetObjectInputMeta, HeadBucketInputMeta, HeadObjectInputMeta, InputMeta,
    ListObjectVersionsInputMeta, ListObjectsInputMeta, ListObjectsV2InputMeta,
};

verus! {

/// The intent to cache a response: the cache key and the entry's expiry
/// settings.
pub struct CacheIntent {
    pub key: String,
    pub ttl: Option<u64>,
    pub tti: Option<u64>,
}

impl CacheIntent {
    /// An intent for `key` with no expiry settings.
    pub fn new(key: String) -> (r: Self)
        ensures
            r.key@ == key@,
            r.ttl is None,
            r.tti is None,
    {
        CacheIntent { key, ttl: None, tti: None }
    }

    /// Set the time-to-live.
    pub fn time_to_live(self, ttl: Option<u64>) -> (r: Self)
        ensures
            r.key@ == self.key@,
            r.ttl == ttl,
            r.tti == self.tti,
    {
        let mut this = self;
        this.ttl = ttl;
        this
    }

    /// Set the time-to-idle.
    pub fn time_to_idle(self, tti: Option<u64>) -> (r: Self)
        ensures
            r.key@ == self.key@,
            r.ttl == self.ttl,
            r.tti == tti,
    {
        let mut this = self;
        this.tti = tti;
        this
    }
}

/// The key of a cached `GetObject` response.
pub open spec fn spec_get_object_key(b: Seq<char>, o: Seq<char>, v: Seq<char>) -> Seq<char> {
    "GetObject "@ + b + ", "@ + o + ", "@ + v
}

/// The key of a cached `HeadObject` response.
pub open spec fn spec_head_object_key(b: Seq<char>, o: Seq<char>, v: Seq<char>) -> Seq<char> {
    "HeadObject "@ + b + ", "@ + o + ", "@ + v
}

/// The key of a cached object listing.
pub open spec fn spec_object_list_key(b: Seq<char>, p: Seq<char>, d: Seq<char>) -> Seq<char> {
    "ObjectList "@ + b + ", "@ + p + ", "@ + d
}

/// The key of a cached object-version listing.
pub open spec fn spec_object_version_list_key(b: Seq<char>, p: Seq<char>, d: Seq<char>) -> Seq<
    char,
> {
    "ObjectVersionList "@ + b + ", "@ + p + ", "@ + d
}

/// The key of a cached `HeadBucket` response.
pub open spec fn spec_bucket_key(b: Seq<char>) -> Seq<char> {
    "Bucket "@ + b
}

/// The key of the cached bucket listing.
pub open spec fn spec_bucket_list_key() -> Seq<char> {
    "BucketList"@
}

/// No character of `s` is a comma.
pub open spec fn comma_free(s: Seq<char>) -> bool {
    forall|i: int| 0 <= i < s.len() ==> s[i] != ','
}

/// Splitting at the `", "` separator is unambiguous when the left part
/// is comma-free.
proof fn lemma_comma_split(x1: Seq<char>, y1: Seq<char>, x2: Seq<char>, y2: Seq<char>)
    requires
        comma_free(x1),
        comma_free(x2),
        x1 + ", "@ + y1 == x2 + ", "@ + y2,
    ensures
        x1 == x2,
        y1 == y2,
{
    reveal_strlit(", ");
    let sep = ", "@;
    assert(sep.len() == 2);
    assert(sep[0] == ',');
    let s = x1 + sep + y1;
    assert(s[x1.len() as int] == ',');
    assert(s[x2.len() as int] == ',') by {
        assert((x2 + sep + y2)[x2.len() as int] == ',');
    }
    if x1.len() < x2.len() {
        assert(s[x1.len() as int] == (x2 + sep + y2)[x1.len() as int]);
        assert((x2 + sep + y2)[x1.len() as int] == x2[x1.len() as int]);
        assert(false);
    }
    if x2.len() < x1.len() {
        assert(s[x2.len() as int] == x1[x2.len() as int]);
        assert(false);
    }
    assert(x1 =~= x2) by {
        assert forall|j: int| 0 <= j < x1.len() implies x1[j] == x2[j] by {
            assert(s[j] == x1[j]);
            assert((x2 + sep + y2)[j] == x2[j]);
        }
    }
    assert(s.len() == x1.len() + 2 + y1.len());
    assert((x2 + sep + y2).len() == x2.len() + 2 + y2.len());
    assert(y1.len() == y2.len());
    assert(y1 =~= y2) by {
        assert forall|j: int| 0 <= j < y1.len() implies y1[j] == y2[j] by {
            assert(s[x1.len() + 2 + j] == y1[j]);
            assert((x2 + sep + y2)[x2.len() + 2 + j] == y2[j]);
            assert(s[x1.len() + 2 + j] == (x2 + sep + y2)[x2.len() + 2 + j]);
        }
    }
}

/// Object-scoped keys are injective in their identity fields: two
/// `GetObject` keys agree only when bucket, object key and version
/// agree, provided the buckets and object keys are comma-free. (An
/// object key containing the separator `", "` can make two different
/// identities collide; the key format inherits this ambiguity.) The
/// same holds of `HeadObject` keys, which share the shape.
pub proof fn lemma_object_key_injective(
    b1: Seq<char>,
    o1: Seq<char>,
    v1: Seq<char>,
    b2: Seq<char>,
    o2: Seq<char>,
    v2: Seq<char>,
)
    requires
        comma_free(b1),
        comma_free(b2),
        comma_free(o1),
        comma_free(o2),
        spec_get_object_key(b1, o1, v1) == spec_get_object_key(b2, o2, v2),
    ensures
        b1 == b2,
        o1 == o2,
        v1 == v2,
{
    let p = "GetObject "@;
    let sep = ", "@;
    let k1 = spec_get_object_key(b1, o1, v1);
    let k2 = spec_get_object_key(b2, o2, v2);
    let t1 = b1 + sep + (o1 + sep + v1);
    let t2 = b2 + sep + (o2 + sep + v2);
    assert(k1.skip(p.len() as int) =~= t1);
    assert(k2.skip(p.len() as int) =~= t2);
    lemma_comma_split(b1, o1 + sep + v1, b2, o2 + sep + v2);
    lemma_comma_split(o1, v1, o2, v2);
}

/// Listing keys are injective in their identity fields under the same
/// proviso as object keys: bucket and prefix must be comma-free.
pub proof fn lemma_object_list_key_injective(
    b1: Seq<char>,
    p1: Seq<char>,
    d1: Seq<char>,
    b2: Seq<char>,
    p2: Seq<char>,
    d2: Seq<char>,
)
    requires
        comma_free(b1),
        comma_free(b2),
        comma_free(p1),
        comma_free(p2),
        spec_object_list_key(b1, p1, d1) == spec_object_list_key(b2, p2, d2),
    ensures
        b1 == b2,
        p1 == p2,
        d1 == d2,
{
    let pre = "ObjectList "@;
    let sep = ", "@;
    let k1 = spec_object_list_key(b1, p1, d1);
    let k2 = spec_object_list_key(b2, p2, d2);
    assert(k1.skip(pre.len() as int) =~= b1 + sep + (p1 + sep + d1));
    assert(k2.skip(pre.len() as int) =~= b2 + sep + (p2 + sep + d2));
    lemma_comma_split(b1, p1 + sep + d1, b2, p2 + sep + d2);
    lemma_comma_split(p1, d1, p2, d2);
}

/// `HeadBucket` keys are injective in the bucket name.
pub proof fn lemma_bucket_key_injective(b1: Seq<char>, b2: Seq<char>)
    requires
        spec_bucket_key(b1) == spec_bucket_key(b2),
    ensures
        b1 == b2,
{
    let pre = "Bucket "@;
    assert(b1 =~= spec_bucket_key(b1).skip(pre.len() as int));
    assert(b2 =~= spec_bucket_key(b2).skip(pre.len() as int));
}

/// The identity data a cache key is built from.
pub enum KeyData<'a> {
    GetObject { bucket: &'a str, object: &'a str, version_id: &'a str },
    HeadObject { bucket: &'a str, object: &'a str, version_id: &'a str },
    ObjectList { bucket: &'a str, prefix: Option<&'a str>, delim: Option<&'a str> },
    ObjectVersionList { bucket: &'a str, prefix: Option<&'a str>, delim: Option<&'a str> },
    Bucket { bucket: &'a str },
    BucketList,
}

/// The view of an optional string piece: its characters, or nothing.
pub open spec fn opt_view(s: Option<&str>) -> Seq<char> {
    match s {
        Some(x) => x@,
        None => Seq::empty(),
    }
}

/// The key a [`KeyData`] denotes.
pub open spec fn spec_key_of(k: KeyData) -> Seq<char> {
    match k {
        KeyData::GetObject { bucket, object, version_id } => spec_get_object_key(
            bucket@,
            object@,
            version_id@,
        ),
        KeyData::HeadObject { bucket, object, version_id } => spec_head_object_key(
            bucket@,
            object@,
            version_id@,
        ),
        KeyData::ObjectList { bucket, prefix, delim } => spec_object_list_key(
            bucket@,
            opt_view(prefix),
            opt_view(delim),
        ),
        KeyData::ObjectVersionList { bucket, prefix, delim } => spec_object_version_list_key(
            bucket@,
            opt_view(prefix),
            opt_view(delim),
        ),
        KeyData::Bucket { bucket } => spec_bucket_key(bucket@),
        KeyData::BucketList => spec_bucket_list_key(),
    }
}

fn opt_str<'a>(s: Option<&'a str>) -> (r: &'a str)
    ensures
        r@ == opt_view(s),
{
    match s {
        Some(x) => x,
        None => {
            let e = "";
            proof {
                reveal_strlit("");
                assert(e@ =~= Seq::<char>::empty());
            }
            e
        },
    }
}

impl<'a> KeyData<'a> {
    /// Build the cache key this identity data denotes.
    pub fn as_key(&self) -> (r: String)
        ensures
            r@ == spec_key_of(*self),
    {
        let mut s = String::new();
        match self {
            KeyData::GetObject { bucket, object, version_id } => {
                s.append("GetObject ");
                s.append(bucket);
                s.append(", ");
                s.append(object);
                s.append(", ");
                s.append(version_id);
            },
            KeyData::HeadObject { bucket, object, version_id } => {
                s.append("HeadObject ");
                s.append(bucket);
                s.append(", ");
                s.append(object);
                s.append(", ");
                s.append(version_id);
            },
            KeyData::ObjectList { bucket, prefix, delim } => {
                s.append("ObjectList ");
                s.append(bucket);
                s.append(", ");
                s.append(opt_str(*prefix));
                s.append(", ");
                s.append(opt_str(*delim));
            },
            KeyData::ObjectVersionList { bucket, prefix, delim } => {
                s.append("ObjectVersionList ");
                s.append(bucket);
                s.append(", ");
                s.append(opt_str(*prefix));
                s.append(", ");
                s.append(opt_str(*delim));
            },
            KeyData::Bucket { bucket } => {
                s.append("Bucket ");
                s.append(bucket);
            },
            KeyData::BucketList => {
                s.append("BucketList");
            },
        }
        proof {
            assert(s@ =~= spec_key_of(*self));
        }
        s
    }
}

/// What an intent holds, at the spec level.
pub struct SpecIntent {
    pub key: Seq<char>,
    pub ttl: Option<u64>,
    pub tti: Option<u64>,
}

/// Whether an exec intent option realizes a spec intent option.
pub open spec fn intent_matches(r: Option<CacheIntent>, s: Option<SpecIntent>) -> bool {
    match (r, s) {
        (Some(i), Some(t)) => i.key@ == t.key && i.ttl == t.ttl && i.tti == t.tti,
        (None, None) => true,
        _ => false,
    }
}

/// The view of an optional owned string piece.
pub open spec fn opt_string_view(s: Option<String>) -> Seq<char> {
    match s {
        Some(x) => x@,
        None => Seq::empty(),
    }
}

/// The intent a `GetObject` request gives rise to: nothing when the
/// operation's caching is off or the request carries a range or part
/// number; otherwise its key and the operation's expiry settings.
pub open spec fn spec_intent_get_object(m: GetObjectInputMeta, cfg: CacheMiddlewareConfig) -> Option<
    SpecIntent,
> {
    if !cfg.ops.get_object.enabled || m.range is Some || m.part_number is Some {
        None
    } else {
        Some(
            SpecIntent {
                key: spec_get_object_key(m.bucket@, m.key@, opt_string_view(m.version_id)),
                ttl: cfg.ops.get_object.ttl,
                tti: cfg.ops.get_object.tti,
            },
        )
    }
}

/// The intent a `HeadObject` request gives rise to.
pub open spec fn spec_intent_head_object(m: HeadObjectInputMeta, cfg: CacheMiddlewareConfig) -> Option<
    SpecIntent,
> {
    if !cfg.ops.head_object.enabled || m.expected_bucket_owner is Some || m.range is Some {
        None
    } else {
        Some(
            SpecIntent {
                key: spec_head_object_key(m.bucket@, m.key@, opt_string_view(m.version_id)),
                ttl: cfg.ops.head_object.ttl,
                tti: cfg.ops.head_object.tti,
            },
        )
    }
}

/// The intent a `ListObjects` request gives rise to.
pub open spec fn spec_intent_list_objects(m: ListObjectsInputMeta, cfg: CacheMiddlewareConfig) -> Option<
    SpecIntent,
> {
    if !cfg.ops.list_objects.enabled || m.expected_bucket_owner is Some {
        None
    } else {
        Some(
            SpecIntent {
                key: spec_object_list_key(
                    m.bucket@,
                    opt_string_view(m.prefix),
                    opt_string_view(m.delimiter),
                ),
                ttl: cfg.ops.list_objects.ttl,
                tti: cfg.ops.list_objects.tti,
            },
        )
    }
}

/// The intent a `ListObjectsV2` request gives rise to; its key uses the
/// empty delimiter.
pub open spec fn spec_intent_list_objects_v2(
    m: ListObjectsV2InputMeta,
    cfg: CacheMiddlewareConfig,
) -> Option<SpecIntent> {
    if !cfg.ops.list_objects.enabled || m.expected_bucket_owner is Some || m.max_keys is Some
        || m.start_after is Some {
        None
    } else {
        Some(
            SpecIntent {
                key: spec_object_list_key(m.bucket@, opt_string_view(m.prefix), Seq::empty()),
                ttl: cfg.ops.list_objects.ttl,
                tti: cfg.ops.list_objects.tti,
            },
        )
    }
}

/// The intent a `ListObjectVersions` request gives rise to.
pub open spec fn spec_intent_list_object_versions(
    m: ListObjectVersionsInputMeta,
    cfg: CacheMiddlewareConfig,
) -> Option<SpecIntent> {
    if !cfg.ops.list_object_versions.enabled || m.expected_bucket_owner is Some
        || m.key_marker is Some || m.max_keys is Some {
        None
    } else {
        Some(
            SpecIntent {
                key: spec_object_version_list_key(
                    m.bucket@,
                    opt_string_view(m.prefix),
                    opt_string_view(m.delimiter),
                ),
                ttl: cfg.ops.list_object_versions.ttl,
                tti: cfg.ops.list_object_versions.tti,
            },
        )
    }
}

/// The intent a `HeadBucket` request gives rise to.
pub open spec fn spec_intent_head_bucket(m: HeadBucketInputMeta, cfg: CacheMiddlewareConfig) -> Option<
    SpecIntent,
> {
    if !cfg.ops.head_bucket.enabled || m.expected_bucket_owner is Some {
        None
    } else {
        Some(
            SpecIntent {
                key: spec_bucket_key(m.bucket@),
                ttl: cfg.ops.head_bucket.ttl,
                tti: cfg.ops.head_bucket.tti,
            },
        )
    }
}

/// The intent a `ListBuckets` request gives rise to.
pub open spec fn spec_intent_list_buckets(cfg: CacheMiddlewareConfig) -> Option<SpecIntent> {
    if !cfg.ops.list_buckets.enabled {
        None
    } else {
        Some(
            SpecIntent {
                key: spec_bucket_list_key(),
                ttl: cfg.ops.list_buckets.ttl,
                tti: cfg.ops.list_buckets.tti,
            },
        )
    }
}

/// The intent any decoded input gives rise to.
pub open spec fn spec_make_cache_intent(m: InputMeta, cfg: CacheMiddlewareConfig) -> Option<
    SpecIntent,
> {
    match m {
        InputMeta::GetObject(m) => spec_intent_get_object(m, cfg),
        InputMeta::HeadObject(m) => spec_intent_head_object(m, cfg),
        InputMeta::ListObjects(m) => spec_intent_list_objects(m, cfg),
        InputMeta::ListObjectsV2(m) => spec_intent_list_objects_v2(m, cfg),
        InputMeta::ListObjectVersions(m) => spec_intent_list_object_versions(m, cfg),
        InputMeta::HeadBucket(m) => spec_intent_head_bucket(m, cfg),
        InputMeta::ListBuckets => spec_intent_list_buckets(cfg),
    }
}

fn opt_deref(s: &Option<String>) -> (r: Option<&str>)
    ensures
        opt_view(r) == opt_string_view(*s),
        r is Some <==> s is Some,
{
    match s {
        Some(x) => Some(x.as_str()),
        None => None,
    }
}

/// Decide cacheability for a decoded input under the cache
/// configuration: the key to use and the per-operation expiry, or
/// nothing when the response must not be cached.
pub fn make_cache_intent(m: &InputMeta, cfg: &CacheMiddlewareConfig) -> (r: Option<CacheIntent>)
    ensures
        intent_matches(r, spec_make_cache_intent(*m, *cfg)),
{
    match m {
        InputMeta::GetObject(m) => {
            if !cfg.ops.get_object.enabled || m.range.is_some() || m.part_number.is_some() {
                None
            } else {
                let kd = KeyData::GetObject {
                    bucket: m.bucket.as_str(),
                    object: m.key.as_str(),
                    version_id: opt_str(opt_deref(&m.version_id)),
                };
                Some(
                    CacheIntent::new(kd.as_key()).time_to_live(cfg.ops.get_object.ttl)
                        .time_to_idle(cfg.ops.get_object.tti),
                )
            }
        },
        InputMeta::HeadObject(m) => {
            if !cfg.ops.head_object.enabled || m.expected_bucket_owner.is_some()
                || m.range.is_some() {
                None
            } else {
                let kd = KeyData::HeadObject {
                    bucket: m.bucket.as_str(),
                    object: m.key.as_str(),
                    version_id: opt_str(opt_deref(&m.version_id)),
                };
                Some(
                    CacheIntent::new(kd.as_key()).time_to_live(cfg.ops.head_object.ttl)
                        .time_to_idle(cfg.ops.head_object.tti),
                )
            }
        },
        InputMeta::ListObjects(m) => {
            if !cfg.ops.list_objects.enabled || m.expected_bucket_owner.is_some() {
                None
            } else {
                let kd = KeyData::ObjectList {
                    bucket: m.bucket.as_str(),
                    prefix: opt_deref(&m.prefix),
                    delim: opt_deref(&m.delimiter),
                };
                Some(
                    CacheIntent::new(kd.as_key()).time_to_live(cfg.ops.list_objects.ttl)
                        .time_to_idle(cfg.ops.list_objects.tti),
                )
            }
        },
        InputMeta::ListObjectsV2(m) => {
            if !cfg.ops.list_objects.enabled || m.expected_bucket_owner.is_some()
                || m.max_keys.is_some() || m.start_after.is_some() {
                None
            } else {
                let kd = KeyData::ObjectList {
                    bucket: m.bucket.as_str(),
                    prefix: opt_deref(&m.prefix),
                    delim: None,
                };
                Some(
                    CacheIntent::new(kd.as_key()).time_to_live(cfg.ops.list_objects.ttl)
                        .time_to_idle(cfg.ops.list_objects.tti),
                )
            }
        },
        InputMeta::ListObjectVersions(m) => {
            if !cfg.ops.list_object_versions.enabled || m.expected_bucket_owner.is_some()
                || m.key_marker.is_some() || m.max_keys.is_some() {
                None
            } else {
                let kd = KeyData::ObjectVersionList {
                    bucket: m.bucket.as_str(),
                    prefix: opt_deref(&m.prefix),
                    delim: opt_deref(&m.delimiter),
                };
                Some(
                    CacheIntent::new(kd.as_key()).time_to_live(cfg.ops.list_object_versions.ttl)
                        .time_to_idle(cfg.ops.list_object_versions.tti),
                )
            }
        },
        InputMeta::HeadBucket(m) => {
            if !cfg.ops.head_bucket.enabled || m.expected_bucket_owner.is_some() {
                None
            } else {
                let kd = KeyData::Bucket { bucket: m.bucket.as_str() };
                Some(
                    CacheIntent::new(kd.as_key()).time_to_live(cfg.ops.head_bucket.ttl)
                        .time_to_idle(cfg.ops.head_bucket.tti),
                )
            }
        },
        InputMeta::ListBuckets => {
            if !cfg.ops.list_buckets.enabled {
                None
            } else {
                let kd = KeyData::BucketList;
                Some(
                    CacheIntent::new(kd.as_key()).time_to_live(cfg.ops.list_buckets.ttl)
                        .time_to_idle(cfg.ops.list_buckets.tti),
                )
            }
        },
    }
}

} // verus!
