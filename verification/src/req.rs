//! The request and response envelopes threaded through the pipeline.
//!
//! The envelope carries plain values: an HTTP method, the URI split into
//! path and query, a header list, the body bytes, and the S3 extension.
//! Header names are expected in lower case; the edge that accepts the
//! connection normalizes them before building an envelope.

use vstd::prelude::*;

use crate::s3::S3Extension;
use crate::strutil::str_eq;

verus! {

/// The HTTP methods the router distinguishes; anything else resolves to
/// no operation.
#[derive(Clone, Copy, PartialEq, Eq, Structural, Debug)]
pub enum Method {
    Head,
    Get,
    Post,
    Put,
    Delete,
    Other,
}

/// One HTTP header as a `(name, value)` pair of plain strings.
pub struct Header {
    pub name: String,
    pub value: String,
}

impl Header {
    /// Build a header from two string slices.
    pub fn new(name: &str, value: &str) -> (r: Header)
        ensures
            r.name@ == name@,
            r.value@ == value@,
    {
        Header { name: name.to_owned(), value: value.to_owned() }
    }
}

/// Whether some header in `h` is named `n`.
pub open spec fn headers_has_name(h: Seq<Header>, n: Seq<char>) -> bool {
    exists|i: int| 0 <= i < h.len() && h[i].name@ == n
}

/// A header list as a sequence of plain `(name, value)` pairs.
pub open spec fn spec_headers_view(h: Seq<Header>) -> Seq<(Seq<char>, Seq<char>)> {
    h.map_values(|x: Header| (x.name@, x.value@))
}

/// The value of the first header named `n` (empty when there is none).
pub open spec fn headers_first_value(h: Seq<Header>, n: Seq<char>) -> Seq<char>
    decreases h.len(),
{
    if h.len() == 0 {
        Seq::empty()
    } else if h[0].name@ == n {
        h[0].value@
    } else {
        headers_first_value(h.skip(1), n)
    }
}

proof fn lemma_headers_first_value(h: Seq<Header>, n: Seq<char>, k: int)
    requires
        0 <= k < h.len(),
        h[k].name@ == n,
        forall|j: int| 0 <= j < k ==> h[j].name@ != n,
    ensures
        headers_first_value(h, n) == h[k].value@,
    decreases h.len(),
{
    if k == 0 {
    } else {
        assert forall|j: int| 0 <= j < k - 1 implies h.skip(1)[j].name@ != n by {
            assert(h[j + 1].name@ != n);
        }
        lemma_headers_first_value(h.skip(1), n, k - 1);
    }
}

/// Is some header named `name` present?
pub fn headers_contains(h: &Vec<Header>, name: &str) -> (r: bool)
    ensures
        r == headers_has_name(h@, name@),
{
    let n = h.len();
    let mut i: usize = 0;
    while i < n
        invariant
            0 <= i <= n,
            n == h@.len(),
            forall|j: int| 0 <= j < i ==> h@[j].name@ != name@,
        decreases n - i,
    {
        if str_eq(h[i].name.as_str(), name) {
            return true;
        }
        i = i + 1;
    }
    false
}

/// The value of the first header named `name`, if any.
pub fn headers_get<'a>(h: &'a Vec<Header>, name: &str) -> (r: Option<&'a String>)
    ensures
        match r {
            Some(v) => headers_has_name(h@, name@) && v@ == headers_first_value(h@, name@),
            None => !headers_has_name(h@, name@),
        },
{
    let n = h.len();
    let mut i: usize = 0;
    while i < n
        invariant
            0 <= i <= n,
            n == h@.len(),
            forall|j: int| 0 <= j < i ==> h@[j].name@ != name@,
        decreases n - i,
    {
        if str_eq(h[i].name.as_str(), name) {
            proof {
                lemma_headers_first_value(h@, name@, i as int);
            }
            return Some(&h[i].value);
        }
        i = i + 1;
    }
    None
}

/// A request envelope: the flattened HTTP request plus the S3 extension.
pub struct Request {
    pub method: Method,
    pub uri_path: String,
    pub uri_query: Option<String>,
    pub headers: Vec<Header>,
    pub body: Vec<u8>,
    pub s3_ext: Option<S3Extension>,
}

/// A response envelope. On the return path it may carry an S3 extension
/// holding the operation tag and the decoded output metadata.
pub struct Response {
    pub status: u16,
    pub headers: Vec<Header>,
    pub body: Vec<u8>,
    pub s3_ext: Option<S3Extension>,
}

impl Response {
    /// An empty response with the given status.
    pub fn with_status(status: u16) -> (r: Response)
        ensures
            r.status == status,
            r.headers@.len() == 0,
            r.body@.len() == 0,
            r.s3_ext is None,
    {
        Response { status, headers: Vec::new(), body: Vec::new(), s3_ext: None }
    }
}

/// The plain HTTP side of an envelope, kept as one value.
pub struct HttpExtension {
    pub method: Method,
    pub uri_path: String,
    pub uri_query: Option<String>,
    pub headers: Vec<Header>,
    pub body: Vec<u8>,
}

/// A response reduced to plain parts: status, headers and body bytes.
pub struct RawResponse {
    pub status: u16,
    pub headers: Vec<Header>,
    pub bytes: Option<Vec<u8>>,
}

/// The error a pipeline stage reports.
///
/// `Internal` is unrecoverable and surfaces as a 500. `RequestErr`
/// carries a synthesized error response returned verbatim. `ResponseErr`
/// carries an upstream error response passed through verbatim while
/// still signaling failure to earlier stages.
pub enum SendError {
    Internal(String),
    RequestErr(Response, String),
    ResponseErr(Response, String),
}

/// Strip trailing slashes: the view of a path up to its last non-slash
/// character.
pub open spec fn spec_trim_end_slashes(s: Seq<char>) -> Seq<char>
    decreases s.len(),
{
    if s.len() == 0 {
        s
    } else if s[s.len() - 1] == '/' {
        spec_trim_end_slashes(s.take(s.len() - 1))
    } else {
        s
    }
}

fn trim_end_slashes(s: &str) -> (r: &str)
    ensures
        r@ == spec_trim_end_slashes(s@),
{
    let len = s.unicode_len();
    let mut end: usize = len;
    proof {
        assert(s@.take(len as int) =~= s@);
    }
    while end > 0 && s.get_char(end - 1) == '/'
        invariant
            0 <= end <= len,
            len == s@.len(),
            spec_trim_end_slashes(s@) == spec_trim_end_slashes(s@.take(end as int)),
        decreases end,
    {
        proof {
            let t = s@.take(end as int);
            assert(t[t.len() - 1] == s@[end - 1]);
            assert(t.take(t.len() - 1) =~= s@.take(end - 1));
        }
        end = end - 1;
    }
    proof {
        let t = s@.take(end as int);
        if end > 0 {
            assert(t[t.len() - 1] == s@[end - 1]);
        }
        assert(spec_trim_end_slashes(t) == t);
    }
    let r = s.substring_char(0, end);
    proof {
        assert(r@ =~= s@.take(end as int));
    }
    r
}

impl Request {
    /// Build an envelope from wire parts: the path is classified into
    /// its S3 shape and the query string into the ordered query set,
    /// and a fresh S3 extension carries both. The operation tag and the
    /// metadata cell start empty.
    pub fn from_wire(
        method: Method,
        uri_path: &str,
        uri_query: Option<&str>,
        headers: Vec<Header>,
        body: Vec<u8>,
    ) -> (r: Request)
        ensures
            r.method == method,
            r.uri_path@ == uri_path@,
            match (uri_query, r.uri_query) {
                (Some(q), Some(rq)) => rq@ == q@,
                (None, None) => true,
                _ => false,
            },
            r.headers == headers,
            r.body == body,
            r.s3_ext matches Some(e) && e.op is None && e.data is None && e.credentials is None
                && crate::path::parses_to(uri_path@, e.s3_path) && match (uri_query, e.qs) {
                (Some(q), Some(qs)) => qs@ == crate::query::spec_parse_query(q@),
                (None, None) => true,
                _ => false,
            },
    {
        let s3_path = crate::path::parse_path(uri_path);
        let qs = match uri_query {
            Some(q) => Some(crate::query::parse_query(q)),
            None => None,
        };
        let mut ext = S3Extension::new();
        ext.s3_path = s3_path;
        ext.qs = qs;
        Request {
            method,
            uri_path: uri_path.to_owned(),
            uri_query: match uri_query {
                Some(q) => Some(q.to_owned()),
                None => None,
            },
            headers,
            body,
            s3_ext: Some(ext),
        }
    }

    /// A metadata-only view of the envelope: the same method, URI and
    /// headers, an empty body, and a response-side S3 extension derived
    /// from this one; the cache engine re-decodes a request from it
    /// without touching the body stream.
    pub fn try_as_metadata_only(&self) -> (r: Request)
        ensures
            r.method == self.method,
            r.uri_path@ == self.uri_path@,
            match (self.uri_query, r.uri_query) {
                (Some(a), Some(b)) => a@ == b@,
                (None, None) => true,
                _ => false,
            },
            crate::cache::entry::headers_equiv(r.headers@, self.headers@),
            r.body@.len() == 0,
            r.s3_ext is Some <==> self.s3_ext is Some,
            match (self.s3_ext, r.s3_ext) {
                (Some(a), Some(b)) => b.op == a.op && b.data is None,
                (None, None) => true,
                _ => false,
            },
    {
        let s3_ext = match &self.s3_ext {
            Some(e) => Some(S3Extension::new_from(e)),
            None => None,
        };
        Request {
            method: self.method,
            uri_path: self.uri_path.clone(),
            uri_query: match &self.uri_query {
                Some(q) => Some(q.clone()),
                None => None,
            },
            headers: crate::cache::entry::duplicate_headers(&self.headers),
            body: Vec::new(),
            s3_ext,
        }
    }

    /// Whether this request addresses the same resource as `(path, query)`:
    /// the paths agree up to trailing slashes and the queries agree exactly.
    pub fn is_same_uri(&self, path: &str, query: Option<&String>) -> (r: bool)
        ensures
            r == ({
                &&& spec_trim_end_slashes(self.uri_path@) == spec_trim_end_slashes(path@)
                &&& match (self.uri_query, query) {
                    (Some(a), Some(b)) => a@ == b@,
                    (None, None) => true,
                    _ => false,
                }
            }),
    {
        let paths_agree = str_eq(trim_end_slashes(self.uri_path.as_str()), trim_end_slashes(path));
        let queries_agree = match (&self.uri_query, query) {
            (Some(a), Some(b)) => str_eq(a.as_str(), b.as_str()),
            (None, None) => true,
            _ => false,
        };
        paths_agree && queries_agree
    }
}

} // verus!
