//! The S3 extension of the envelope: parsed path shape, ordered query
//! set, credentials, the operation tag, and the write-once decoded
//! metadata cell.

use vstd::prelude::*;

use crate::ops::OperationType;
use crate::path::S3PathData;
use crate::query::{qs_first_value, qs_has_name, OrderedQs, QueryPair};
use crate::req::{headers_first_value, headers_has_name, Header, Request, Response};

verus! {

/// Access credentials attached to a request.
pub struct Credentials {
    pub access_key: String,
    pub secret_key: String,
}

/// Decoded input metadata of a `GetObject` request.
pub struct GetObjectInputMeta {
    pub bucket: String,
    pub key: String,
    pub version_id: Option<String>,
    pub range: Option<String>,
    pub part_number: Option<String>,
}

/// Decoded input metadata of a `HeadObject` request.
pub struct HeadObjectInputMeta {
    pub bucket: String,
    pub key: String,
    pub version_id: Option<String>,
    pub range: Option<String>,
    pub expected_bucket_owner: Option<String>,
}

/// Decoded input metadata of a `ListObjects` request.
pub struct ListObjectsInputMeta {
    pub bucket: String,
    pub prefix: Option<String>,
    pub delimiter: Option<String>,
    pub expected_bucket_owner: Option<String>,
}

/// Decoded input metadata of a `ListObjectsV2` request.
pub struct ListObjectsV2InputMeta {
    pub bucket: String,
    pub prefix: Option<String>,
    pub delimiter: Option<String>,
    pub max_keys: Option<String>,
    pub start_after: Option<String>,
    pub expected_bucket_owner: Option<String>,
}

/// Decoded input metadata of a `ListObjectVersions` request.
pub struct ListObjectVersionsInputMeta {
    pub bucket: String,
    pub prefix: Option<String>,
    pub delimiter: Option<String>,
    pub key_marker: Option<String>,
    pub max_keys: Option<String>,
    pub expected_bucket_owner: Option<String>,
}

/// Decoded input metadata of a `HeadBucket` request.
pub struct HeadBucketInputMeta {
    pub bucket: String,
    pub expected_bucket_owner: Option<String>,
}

/// Decoded input metadata of a cacheable operation.
pub enum InputMeta {
    GetObject(GetObjectInputMeta),
    HeadObject(HeadObjectInputMeta),
    ListObjects(ListObjectsInputMeta),
    ListObjectsV2(ListObjectsV2InputMeta),
    ListObjectVersions(ListObjectVersionsInputMeta),
    HeadBucket(HeadBucketInputMeta),
    ListBuckets,
}

/// The metadata half of an encoded response: its status and headers.
/// The stream half (the body) travels separately.
pub struct ResponseMetaData {
    pub status: u16,
    pub headers: Vec<Header>,
}

/// What the write-once cell of the extension holds: decoded input
/// metadata on the request path, output metadata on the return path.
pub enum MetaData {
    Input(InputMeta),
    Output(ResponseMetaData),
}

/// The S3 extension carried by an envelope.
pub struct S3Extension {
    pub s3_path: Option<S3PathData>,
    pub qs: Option<OrderedQs>,
    pub credentials: Option<Credentials>,
    pub op: Option<OperationType>,
    pub data: Option<MetaData>,
}

impl S3PathData {
    /// A copy with the same view.
    pub fn duplicate(&self) -> (r: S3PathData)
        ensures
            r@ == self@,
    {
        match self {
            S3PathData::Root => S3PathData::Root,
            S3PathData::Bucket { name } => S3PathData::Bucket { name: name.clone() },
            S3PathData::Object { bucket, key } => S3PathData::Object {
                bucket: bucket.clone(),
                key: key.clone(),
            },
        }
    }
}

impl OrderedQs {
    /// A copy with the same view.
    pub fn duplicate(&self) -> (r: OrderedQs)
        ensures
            r@ == self@,
    {
        let n = self.pairs.len();
        let mut pairs: Vec<QueryPair> = Vec::new();
        let mut i: usize = 0;
        while i < n
            invariant
                0 <= i <= n,
                n == self.pairs.len(),
                pairs@.len() == i,
                forall|j: int| 0 <= j < i ==> #[trigger] pairs@[j]@ == self@[j],
            decreases n - i,
        {
            let p = QueryPair {
                name: self.pairs[i].name.clone(),
                value: self.pairs[i].value.clone(),
            };
            proof {
                assert(self@[i as int] == self.pairs@[i as int]@);
            }
            pairs.push(p);
            i = i + 1;
        }
        let r = OrderedQs { pairs };
        proof {
            assert(r@ =~= self@);
        }
        r
    }
}

impl Credentials {
    /// A copy with the same field views.
    pub fn duplicate(&self) -> (r: Credentials)
        ensures
            r.access_key@ == self.access_key@,
            r.secret_key@ == self.secret_key@,
    {
        Credentials { access_key: self.access_key.clone(), secret_key: self.secret_key.clone() }
    }
}

impl S3Extension {
    /// A fresh extension with no data attached.
    pub fn new() -> (r: S3Extension)
        ensures
            r.s3_path is None,
            r.qs is None,
            r.credentials is None,
            r.op is None,
            r.data is None,
    {
        S3Extension { s3_path: None, qs: None, credentials: None, op: None, data: None }
    }

    /// A response-side extension derived from a request-side one: path,
    /// queries, credentials and operation carry over; the write-once
    /// metadata cell starts empty.
    pub fn new_from(old: &Self) -> (r: Self)
        ensures
            match (old.s3_path, r.s3_path) {
                (Some(a), Some(b)) => a@ == b@,
                (None, None) => true,
                _ => false,
            },
            match (old.qs, r.qs) {
                (Some(a), Some(b)) => a@ == b@,
                (None, None) => true,
                _ => false,
            },
            match (old.credentials, r.credentials) {
                (Some(a), Some(b)) => a.access_key@ == b.access_key@ && a.secret_key@
                    == b.secret_key@,
                (None, None) => true,
                _ => false,
            },
            r.op == old.op,
            r.data is None,
    {
        let s3_path = match &old.s3_path {
            Some(p) => Some(p.duplicate()),
            None => None,
        };
        let qs = match &old.qs {
            Some(q) => Some(q.duplicate()),
            None => None,
        };
        let credentials = match &old.credentials {
            Some(c) => Some(c.duplicate()),
            None => None,
        };
        S3Extension { s3_path, qs, credentials, op: old.op, data: None }
    }

    /// Publish a value into the write-once metadata cell. The cell is
    /// set only when it was still empty; a second publish is refused.
    pub fn set_data(&mut self, d: MetaData) -> (ok: bool)
        ensures
            old(self).data is None ==> ok && final(self).data == Some(d),
            old(self).data is Some ==> !ok && final(self).data == old(self).data,
            final(self).s3_path == old(self).s3_path,
            final(self).qs == old(self).qs,
            final(self).credentials == old(self).credentials,
            final(self).op == old(self).op,
    {
        if self.data.is_none() {
            self.data = Some(d);
            true
        } else {
            false
        }
    }
}

/// The first value of query `n`, when a query set is attached and holds
/// that name.
pub open spec fn spec_query_of(ext: &S3Extension, n: Seq<char>) -> Option<Seq<char>> {
    match ext.qs {
        Some(q) => if qs_has_name(q@, n) {
            Some(qs_first_value(q@, n))
        } else {
            None
        },
        None => None,
    }
}

/// The first value of header `n` in `h`, when present.
pub open spec fn spec_header_of(h: Seq<Header>, n: Seq<char>) -> Option<Seq<char>> {
    if headers_has_name(h, n) {
        Some(headers_first_value(h, n))
    } else {
        None
    }
}

/// Views agree between an optional owned string and an optional char
/// sequence.
pub open spec fn opt_string_is(v: Option<String>, s: Option<Seq<char>>) -> bool {
    match (v, s) {
        (Some(a), Some(b)) => a@ == b,
        (None, None) => true,
        _ => false,
    }
}

fn query_of(ext: &S3Extension, n: &str) -> (r: Option<String>)
    ensures
        opt_string_is(r, spec_query_of(ext, n@)),
{
    match &ext.qs {
        Some(q) => match q.get(n) {
            Some(v) => Some(v.clone()),
            None => None,
        },
        None => None,
    }
}

fn header_of(h: &Vec<Header>, n: &str) -> (r: Option<String>)
    ensures
        opt_string_is(r, spec_header_of(h@, n@)),
{
    match crate::req::headers_get(h, n) {
        Some(v) => Some(v.clone()),
        None => None,
    }
}

/// The bucket (and key) of the request path, when its shape fits.
pub open spec fn spec_object_path(ext: &S3Extension) -> Option<(Seq<char>, Seq<char>)> {
    match ext.s3_path {
        Some(S3PathData::Object { bucket, key }) => Some((bucket@, key@)),
        _ => None,
    }
}

/// The bucket of the request path, when it is bucket-shaped.
pub open spec fn spec_bucket_path(ext: &S3Extension) -> Option<Seq<char>> {
    match ext.s3_path {
        Some(S3PathData::Bucket { name }) => Some(name@),
        _ => None,
    }
}

/// What decoding the input metadata of `op` answers, given the S3
/// extension and the request headers: which fields the decoded record
/// carries, and that only a fitting path shape decodes.
pub open spec fn decoded_input_matches(
    op: OperationType,
    ext: S3Extension,
    headers: Seq<Header>,
    r: Option<InputMeta>,
) -> bool {
    match op {
        OperationType::GetObject => match spec_object_path(&ext) {
            Some((b, k)) => r matches Some(InputMeta::GetObject(m)) && m.bucket@ == b
                && m.key@ == k && opt_string_is(
                m.version_id,
                spec_query_of(&ext, "versionId"@),
            ) && opt_string_is(m.part_number, spec_query_of(&ext, "partNumber"@))
                && opt_string_is(m.range, spec_header_of(headers, "range"@)),
            None => r is None,
        },
        OperationType::HeadObject => match spec_object_path(&ext) {
            Some((b, k)) => r matches Some(InputMeta::HeadObject(m)) && m.bucket@ == b
                && m.key@ == k && opt_string_is(
                m.version_id,
                spec_query_of(&ext, "versionId"@),
            ) && opt_string_is(m.range, spec_header_of(headers, "range"@))
                && opt_string_is(
                m.expected_bucket_owner,
                spec_header_of(headers, "x-amz-expected-bucket-owner"@),
            ),
            None => r is None,
        },
        OperationType::ListObjects => match spec_bucket_path(&ext) {
            Some(b) => r matches Some(InputMeta::ListObjects(m)) && m.bucket@ == b
                && opt_string_is(m.prefix, spec_query_of(&ext, "prefix"@))
                && opt_string_is(m.delimiter, spec_query_of(&ext, "delimiter"@))
                && opt_string_is(
                m.expected_bucket_owner,
                spec_header_of(headers, "x-amz-expected-bucket-owner"@),
            ),
            None => r is None,
        },
        OperationType::ListObjectsV2 => match spec_bucket_path(&ext) {
            Some(b) => r matches Some(InputMeta::ListObjectsV2(m)) && m.bucket@ == b
                && opt_string_is(m.prefix, spec_query_of(&ext, "prefix"@))
                && opt_string_is(m.delimiter, spec_query_of(&ext, "delimiter"@))
                && opt_string_is(m.max_keys, spec_query_of(&ext, "max-keys"@))
                && opt_string_is(m.start_after, spec_query_of(&ext, "start-after"@))
                && opt_string_is(
                m.expected_bucket_owner,
                spec_header_of(headers, "x-amz-expected-bucket-owner"@),
            ),
            None => r is None,
        },
        OperationType::ListObjectVersions => match spec_bucket_path(&ext) {
            Some(b) => r matches Some(InputMeta::ListObjectVersions(m)) && m.bucket@ == b
                && opt_string_is(m.prefix, spec_query_of(&ext, "prefix"@))
                && opt_string_is(m.delimiter, spec_query_of(&ext, "delimiter"@))
                && opt_string_is(m.key_marker, spec_query_of(&ext, "key-marker"@))
                && opt_string_is(m.max_keys, spec_query_of(&ext, "max-keys"@))
                && opt_string_is(
                m.expected_bucket_owner,
                spec_header_of(headers, "x-amz-expected-bucket-owner"@),
            ),
            None => r is None,
        },
        OperationType::HeadBucket => match spec_bucket_path(&ext) {
            Some(b) => r matches Some(InputMeta::HeadBucket(m)) && m.bucket@ == b
                && opt_string_is(
                m.expected_bucket_owner,
                spec_header_of(headers, "x-amz-expected-bucket-owner"@),
            ),
            None => r is None,
        },
        OperationType::ListBuckets => r == Some(InputMeta::ListBuckets),
        _ => r is None,
    }
}

/// Decode the input metadata of a cacheable operation from the envelope:
/// bucket and key come from the path shape, the remaining identity
/// fields from the query set and the headers.
///
/// Returns `None` exactly when the path shape does not fit the
/// operation, or the operation is not one of the cacheable seven.
pub fn decode_input(op: OperationType, req: &Request) -> (r: Option<InputMeta>)
    requires
        req.s3_ext is Some,
    ensures
        decoded_input_matches(op, req.s3_ext->Some_0, req.headers@, r),
{
    let ext = req.s3_ext.as_ref().unwrap();
    match op {
        OperationType::GetObject => match &ext.s3_path {
            Some(S3PathData::Object { bucket, key }) => Some(
                InputMeta::GetObject(
                    GetObjectInputMeta {
                        bucket: bucket.clone(),
                        key: key.clone(),
                        version_id: query_of(ext, "versionId"),
                        range: header_of(&req.headers, "range"),
                        part_number: query_of(ext, "partNumber"),
                    },
                ),
            ),
            _ => None,
        },
        OperationType::HeadObject => match &ext.s3_path {
            Some(S3PathData::Object { bucket, key }) => Some(
                InputMeta::HeadObject(
                    HeadObjectInputMeta {
                        bucket: bucket.clone(),
                        key: key.clone(),
                        version_id: query_of(ext, "versionId"),
                        range: header_of(&req.headers, "range"),
                        expected_bucket_owner: header_of(&req.headers, "x-amz-expected-bucket-owner"),
                    },
                ),
            ),
            _ => None,
        },
        OperationType::ListObjects => match &ext.s3_path {
            Some(S3PathData::Bucket { name }) => Some(
                InputMeta::ListObjects(
                    ListObjectsInputMeta {
                        bucket: name.clone(),
                        prefix: query_of(ext, "prefix"),
                        delimiter: query_of(ext, "delimiter"),
                        expected_bucket_owner: header_of(&req.headers, "x-amz-expected-bucket-owner"),
                    },
                ),
            ),
            _ => None,
        },
        OperationType::ListObjectsV2 => match &ext.s3_path {
            Some(S3PathData::Bucket { name }) => Some(
                InputMeta::ListObjectsV2(
                    ListObjectsV2InputMeta {
                        bucket: name.clone(),
                        prefix: query_of(ext, "prefix"),
                        delimiter: query_of(ext, "delimiter"),
                        max_keys: query_of(ext, "max-keys"),
                        start_after: query_of(ext, "start-after"),
                        expected_bucket_owner: header_of(&req.headers, "x-amz-expected-bucket-owner"),
                    },
                ),
            ),
            _ => None,
        },
        OperationType::ListObjectVersions => match &ext.s3_path {
            Some(S3PathData::Bucket { name }) => Some(
                InputMeta::ListObjectVersions(
                    ListObjectVersionsInputMeta {
                        bucket: name.clone(),
                        prefix: query_of(ext, "prefix"),
                        delimiter: query_of(ext, "delimiter"),
                        key_marker: query_of(ext, "key-marker"),
                        max_keys: query_of(ext, "max-keys"),
                        expected_bucket_owner: header_of(&req.headers, "x-amz-expected-bucket-owner"),
                    },
                ),
            ),
            _ => None,
        },
        OperationType::HeadBucket => match &ext.s3_path {
            Some(S3PathData::Bucket { name }) => Some(
                InputMeta::HeadBucket(
                    HeadBucketInputMeta {
                        bucket: name.clone(),
                        expected_bucket_owner: header_of(&req.headers, "x-amz-expected-bucket-owner"),
                    },
                ),
            ),
            _ => None,
        },
        OperationType::ListBuckets => Some(InputMeta::ListBuckets),
        _ => None,
    }
}

impl Request {
    /// The decoded input metadata for `op`, decoding on first use and
    /// memoizing in the extension's write-once cell.
    ///
    /// Returns `None` when no extension is attached, the cell already
    /// holds output metadata, or decoding fails.
    pub fn try_get_input(&mut self) -> (r: Option<&InputMeta>)
        ensures
            final(self).method == old(self).method,
            final(self).uri_path == old(self).uri_path,
            final(self).uri_query == old(self).uri_query,
            final(self).headers == old(self).headers,
            final(self).body == old(self).body,
            final(self).s3_ext is Some <==> old(self).s3_ext is Some,
            match old(self).s3_ext {
                Some(e) => match e.data {
                    Some(MetaData::Input(m)) => (r matches Some(v) && *v == m) && final(self).s3_ext
                        == old(self).s3_ext,
                    _ => true,
                },
                None => r is None,
            },
            old(self).s3_ext matches Some(e) && e.op is None && !(e.data matches Some(
                MetaData::Input(_),
            )) ==> r is None,
            match old(self).s3_ext {
                Some(e) => match (e.data, e.op) {
                    (None, Some(op)) => match final(self).s3_ext->Some_0.data {
                        Some(MetaData::Input(m)) => (r matches Some(v) && *v == m)
                            && decoded_input_matches(op, e, old(self).headers@, Some(m)),
                        _ => r is None && decoded_input_matches(op, e, old(self).headers@, None),
                    },
                    _ => true,
                },
                None => true,
            },
    {
        if self.s3_ext.is_none() {
            return None;
        }
        let has_cached = match &self.s3_ext {
            Some(e) => matches!(&e.data, Some(MetaData::Input(_))),
            None => false,
        };
        if !has_cached {
            let op = match &self.s3_ext {
                Some(e) => e.op,
                None => None,
            };
            let op = match op {
                Some(o) => o,
                None => { return None; },
            };
            let decoded = decode_input(op, self);
            match decoded {
                Some(m) => {
                    let ext = self.s3_ext.as_mut().unwrap();
                    if ext.data.is_none() {
                        ext.data = Some(MetaData::Input(m));
                    } else {
                        return None;
                    }
                },
                None => { return None; },
            }
        }
        match &self.s3_ext {
            Some(e) => match &e.data {
                Some(MetaData::Input(m)) => Some(m),
                _ => None,
            },
            None => None,
        }
    }
}

} // verus!
