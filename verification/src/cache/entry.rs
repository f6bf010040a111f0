//! Cached responses: the payload held per cache key, its weight, and
//! the per-item expiration policy.

use vstd::prelude::*;

use crate::req::{Header, Response};
use crate::s3::ResponseMetaData;

verus! {

/// The payload of one cache entry: the response metadata of one of the
/// cacheable operations, plus the buffered body bytes for the
/// operations whose responses carry one. The two head-shaped payloads
/// have no body; only `GetObject` bytes count toward the weight.
pub enum CacheData {
    GetObject { meta: ResponseMetaData, bytes: Vec<u8> },
    HeadObject { meta: ResponseMetaData },
    ListObjects { meta: ResponseMetaData, bytes: Vec<u8>, v2: bool },
    ListObjectVersions { meta: ResponseMetaData, bytes: Vec<u8> },
    Bucket { meta: ResponseMetaData },
    ListBuckets { meta: ResponseMetaData, bytes: Vec<u8> },
}

/// A cached response with its expiry settings and the time it was last
/// written. Times are in milliseconds; durations in milliseconds.
pub struct CachedResponse {
    pub ttl: Option<u64>,
    pub tti: Option<u64>,
    pub updated_at: u64,
    pub data: CacheData,
}

/// The weight of a payload: the body length for `GetObject`, one
/// otherwise.
pub open spec fn spec_data_size(d: CacheData) -> int {
    match d {
        CacheData::GetObject { bytes, .. } => bytes@.len() as int,
        _ => 1,
    }
}

impl CachedResponse {
    /// The entry's weight against the cache's size budget.
    pub open spec fn spec_size(&self) -> int {
        spec_data_size(self.data)
    }

    /// A fresh entry for `data`, written at `now`, with no expiry
    /// settings of its own.
    pub fn new(data: CacheData, now: u64) -> (r: CachedResponse)
        ensures
            r.ttl is None,
            r.tti is None,
            r.updated_at == now,
            r.data == data,
    {
        CachedResponse { ttl: None, tti: None, updated_at: now, data }
    }

    /// The entry's weight against the cache's size budget.
    pub fn size(&self) -> (r: u64)
        ensures
            r == self.spec_size(),
    {
        match &self.data {
            CacheData::GetObject { bytes, .. } => bytes.len() as u64,
            _ => 1,
        }
    }

    /// Set the time-to-live.
    pub fn time_to_live(self, ttl: Option<u64>) -> (r: Self)
        ensures
            r.ttl == ttl,
            r.tti == self.tti,
            r.updated_at == self.updated_at,
            r.data == self.data,
    {
        let mut this = self;
        this.ttl = ttl;
        this
    }

    /// Set the time-to-idle.
    pub fn time_to_idle(self, tti: Option<u64>) -> (r: Self)
        ensures
            r.tti == tti,
            r.ttl == self.ttl,
            r.updated_at == self.updated_at,
            r.data == self.data,
    {
        let mut this = self;
        this.tti = tti;
        this
    }

    /// The response metadata stored in the payload.
    pub fn meta(&self) -> (r: &ResponseMetaData)
        ensures
            *r == self.spec_meta(),
    {
        match &self.data {
            CacheData::GetObject { meta, .. } => meta,
            CacheData::HeadObject { meta } => meta,
            CacheData::ListObjects { meta, .. } => meta,
            CacheData::ListObjectVersions { meta, .. } => meta,
            CacheData::Bucket { meta } => meta,
            CacheData::ListBuckets { meta, .. } => meta,
        }
    }

    /// The response metadata stored in the payload.
    pub open spec fn spec_meta(&self) -> ResponseMetaData {
        match self.data {
            CacheData::GetObject { meta, .. } => meta,
            CacheData::HeadObject { meta } => meta,
            CacheData::ListObjects { meta, .. } => meta,
            CacheData::ListObjectVersions { meta, .. } => meta,
            CacheData::Bucket { meta } => meta,
            CacheData::ListBuckets { meta, .. } => meta,
        }
    }

    /// The body bytes a rebuilt response carries: the buffered bytes of
    /// the payload, nothing for the head-shaped payloads.
    pub open spec fn spec_body(&self) -> Seq<u8> {
        match self.data {
            CacheData::GetObject { bytes, .. } => bytes@,
            CacheData::ListObjects { bytes, .. } => bytes@,
            CacheData::ListObjectVersions { bytes, .. } => bytes@,
            CacheData::ListBuckets { bytes, .. } => bytes@,
            _ => Seq::empty(),
        }
    }

    /// Rebuild a response from the cached payload: the stored status and
    /// headers, and the stored body bytes where the payload carries
    /// them.
    pub fn to_response(&self) -> (r: Response)
        ensures
            r.status == self.spec_meta().status,
            r.headers@.len() == self.spec_meta().headers@.len(),
            forall|i: int|
                0 <= i < r.headers@.len() ==> #[trigger] r.headers@[i].name@
                    == self.spec_meta().headers@[i].name@ && r.headers@[i].value@
                    == self.spec_meta().headers@[i].value@,
            r.body@ == self.spec_body(),
            r.s3_ext is None,
    {
        let meta = self.meta();
        let headers = duplicate_headers(&meta.headers);
        let body = match &self.data {
            CacheData::GetObject { bytes, .. } => duplicate_bytes(bytes),
            CacheData::ListObjects { bytes, .. } => duplicate_bytes(bytes),
            CacheData::ListObjectVersions { bytes, .. } => duplicate_bytes(bytes),
            CacheData::ListBuckets { bytes, .. } => duplicate_bytes(bytes),
            _ => Vec::new(),
        };
        Response { status: meta.status, headers, body, s3_ext: None }
    }
}

/// Header lists agree position by position on names and values.
pub open spec fn headers_equiv(a: Seq<Header>, b: Seq<Header>) -> bool {
    a.len() == b.len() && forall|i: int|
        0 <= i < a.len() ==> #[trigger] a[i].name@ == b[i].name@ && a[i].value@ == b[i].value@
}

/// Payloads agree: same variant, same metadata views, same bytes.
pub open spec fn data_equiv(a: CacheData, b: CacheData) -> bool {
    match (a, b) {
        (
            CacheData::GetObject { meta: m1, bytes: b1 },
            CacheData::GetObject { meta: m2, bytes: b2 },
        ) => m1.status == m2.status && headers_equiv(m1.headers@, m2.headers@) && b1@ == b2@,
        (CacheData::HeadObject { meta: m1 }, CacheData::HeadObject { meta: m2 }) => m1.status
            == m2.status && headers_equiv(m1.headers@, m2.headers@),
        (
            CacheData::ListObjects { meta: m1, bytes: b1, v2: v1 },
            CacheData::ListObjects { meta: m2, bytes: b2, v2: w2 },
        ) => m1.status == m2.status && headers_equiv(m1.headers@, m2.headers@) && b1@ == b2@ && v1
            == w2,
        (
            CacheData::ListObjectVersions { meta: m1, bytes: b1 },
            CacheData::ListObjectVersions { meta: m2, bytes: b2 },
        ) => m1.status == m2.status && headers_equiv(m1.headers@, m2.headers@) && b1@ == b2@,
        (CacheData::Bucket { meta: m1 }, CacheData::Bucket { meta: m2 }) => m1.status == m2.status
            && headers_equiv(m1.headers@, m2.headers@),
        (
            CacheData::ListBuckets { meta: m1, bytes: b1 },
            CacheData::ListBuckets { meta: m2, bytes: b2 },
        ) => m1.status == m2.status && headers_equiv(m1.headers@, m2.headers@) && b1@ == b2@,
        _ => false,
    }
}

/// Entries agree: same settings, same write time, equivalent payload.
pub open spec fn entry_equiv(a: CachedResponse, b: CachedResponse) -> bool {
    a.ttl == b.ttl && a.tti == b.tti && a.updated_at == b.updated_at && data_equiv(a.data, b.data)
}

impl CacheData {
    /// A copy with an equivalent payload.
    pub fn duplicate(&self) -> (r: CacheData)
        ensures
            data_equiv(*self, r),
    {
        match self {
            CacheData::GetObject { meta, bytes } => CacheData::GetObject {
                meta: duplicate_meta(meta),
                bytes: duplicate_bytes(bytes),
            },
            CacheData::HeadObject { meta } => CacheData::HeadObject { meta: duplicate_meta(meta) },
            CacheData::ListObjects { meta, bytes, v2 } => CacheData::ListObjects {
                meta: duplicate_meta(meta),
                bytes: duplicate_bytes(bytes),
                v2: *v2,
            },
            CacheData::ListObjectVersions { meta, bytes } => CacheData::ListObjectVersions {
                meta: duplicate_meta(meta),
                bytes: duplicate_bytes(bytes),
            },
            CacheData::Bucket { meta } => CacheData::Bucket { meta: duplicate_meta(meta) },
            CacheData::ListBuckets { meta, bytes } => CacheData::ListBuckets {
                meta: duplicate_meta(meta),
                bytes: duplicate_bytes(bytes),
            },
        }
    }
}

impl CachedResponse {
    /// A copy with an equivalent entry.
    pub fn duplicate(&self) -> (r: CachedResponse)
        ensures
            entry_equiv(*self, r),
    {
        CachedResponse {
            ttl: self.ttl,
            tti: self.tti,
            updated_at: self.updated_at,
            data: self.data.duplicate(),
        }
    }
}

/// A copy of a header list with the same names and values.
pub fn duplicate_headers(h: &Vec<Header>) -> (r: Vec<Header>)
    ensures
        r@.len() == h@.len(),
        forall|i: int|
            0 <= i < h@.len() ==> #[trigger] r@[i].name@ == h@[i].name@ && r@[i].value@
                == h@[i].value@,
{
    let n = h.len();
    let mut r: Vec<Header> = Vec::new();
    let mut i: usize = 0;
    while i < n
        invariant
            0 <= i <= n,
            n == h@.len(),
            r@.len() == i,
            forall|j: int|
                0 <= j < i ==> #[trigger] r@[j].name@ == h@[j].name@ && r@[j].value@
                    == h@[j].value@,
        decreases n - i,
    {
        r.push(Header { name: h[i].name.clone(), value: h[i].value.clone() });
        i = i + 1;
    }
    r
}

/// A copy of a byte vector with the same contents.
pub fn duplicate_bytes(b: &Vec<u8>) -> (r: Vec<u8>)
    ensures
        r@ == b@,
{
    let n = b.len();
    let mut r: Vec<u8> = Vec::new();
    let mut i: usize = 0;
    while i < n
        invariant
            0 <= i <= n,
            n == b@.len(),
            r@ =~= b@.take(i as int),
        decreases n - i,
    {
        r.push(b[i]);
        proof {
            assert(r@ =~= b@.take(i + 1));
        }
        i = i + 1;
    }
    proof {
        assert(b@.take(n as int) =~= b@);
    }
    r
}

/// A copy of the response metadata with the same view.
pub fn duplicate_meta(m: &ResponseMetaData) -> (r: ResponseMetaData)
    ensures
        r.status == m.status,
        r.headers@.len() == m.headers@.len(),
        forall|i: int|
            0 <= i < m.headers@.len() ==> #[trigger] r.headers@[i].name@ == m.headers@[i].name@
                && r.headers@[i].value@ == m.headers@[i].value@,
{
    ResponseMetaData { status: m.status, headers: duplicate_headers(&m.headers) }
}

/// The per-item expiration policy: on create an entry lives for its
/// time-to-live; a read renews it to its time-to-idle when one is set;
/// an update resets it to its time-to-live when one is set. Absent
/// settings preserve the current remaining duration.
pub struct PerItemExpiration;

impl PerItemExpiration {
    /// The remaining duration after creating `value`: its time-to-live.
    pub fn expire_after_create(value: &CachedResponse) -> (r: Option<u64>)
        ensures
            r == value.ttl,
    {
        value.ttl
    }

    /// The remaining duration after reading `value`: its time-to-idle
    /// when set, else the current remaining duration.
    pub fn expire_after_read(value: &CachedResponse, current_duration: Option<u64>) -> (r: Option<
        u64,
    >)
        ensures
            r == if value.tti is Some {
                value.tti
            } else {
                current_duration
            },
    {
        match value.tti {
            Some(t) => Some(t),
            None => current_duration,
        }
    }

    /// The remaining duration after replacing an entry by `value`: its
    /// time-to-live when set, else the current remaining duration.
    pub fn expire_after_update(value: &CachedResponse, current_duration: Option<u64>) -> (r: Option<
        u64,
    >)
        ensures
            r == if value.ttl is Some {
                value.ttl
            } else {
                current_duration
            },
    {
        match value.ttl {
            Some(t) => Some(t),
            None => current_duration,
        }
    }
}

} // verus!
