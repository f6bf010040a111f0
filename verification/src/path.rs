//! Classification of a request URI path into the three S3 path shapes.
//!
//! The path shape is a pure function of the URI path (query already
//! stripped): `/` alone is the service root, one segment names a bucket,
//! and two or more segments name an object, whose key is the remainder
//! of the path verbatim, including any internal slashes.

use vstd::prelude::*;

verus! {

/// The shape of a request path: the service root, a bucket, or an object.
pub enum S3PathData {
    Root,
    Bucket { name: String },
    Object { bucket: String, key: String },
}

/// Spec-level mirror of [`S3PathData`].
pub enum SpecPath {
    Root,
    Bucket { name: Seq<char> },
    Object { bucket: Seq<char>, key: Seq<char> },
}

impl View for S3PathData {
    type V = SpecPath;

    open spec fn view(&self) -> SpecPath {
        match self {
            S3PathData::Root => SpecPath::Root,
            S3PathData::Bucket { name } => SpecPath::Bucket { name: name@ },
            S3PathData::Object { bucket, key } => SpecPath::Object {
                bucket: bucket@,
                key: key@,
            },
        }
    }
}

/// True when no character of `s` is a slash.
pub open spec fn slash_free(s: Seq<char>) -> bool {
    forall|i: int| 0 <= i < s.len() ==> s[i] != '/'
}

/// What parsing a path returns, as a predicate relating input and result.
///
/// A path parses exactly when it starts with `/`. `/` alone is the root;
/// otherwise the text after the leading slash either holds no further
/// slash and names a bucket, or splits at its first slash into a bucket
/// and a key (the key keeps any further slashes verbatim).
pub open spec fn parses_to(s: Seq<char>, r: Option<S3PathData>) -> bool {
    if s.len() == 0 || s[0] != '/' {
        r is None
    } else if s.len() == 1 {
        r matches Some(p) && p@ matches SpecPath::Root
    } else {
        {
            let tail = s.subrange(1, s.len() as int);
            match r {
                Some(p) => match p@ {
                    SpecPath::Root => false,
                    SpecPath::Bucket { name } => name == tail && slash_free(tail),
                    SpecPath::Object { bucket, key } => {
                        &&& tail == bucket + seq!['/'] + key
                        &&& slash_free(bucket)
                    },
                },
                None => false,
            }
        }
    }
}

/// Classify a request path into its S3 path shape.
pub fn parse_path(path: &str) -> (r: Option<S3PathData>)
    ensures
        parses_to(path@, r),
{
    let len = path.unicode_len();
    if len == 0 || path.get_char(0) != '/' {
        return None;
    }
    if len == 1 {
        return Some(S3PathData::Root);
    }
    let mut i: usize = 1;
    while i < len && path.get_char(i) != '/'
        invariant
            1 <= i <= len,
            len == path@.len(),
            2 <= len,
            slash_free(path@.subrange(1, i as int)),
        decreases len - i,
    {
        proof {
            let s1 = path@.subrange(1, i as int);
            let s2 = path@.subrange(1, i + 1 as int);
            assert(s2 =~= s1.push(path@[i as int]));
            assert forall|j: int| 0 <= j < s2.len() implies #[trigger] s2[j] != '/' by {
                if j < s1.len() {
                    assert(s1[j] != '/');
                }
            }
        }
        i = i + 1;
    }
    if i == len {
        let name = path.substring_char(1, len).to_owned();
        assert(name@ == path@.subrange(1, len as int));
        Some(S3PathData::Bucket { name })
    } else {
        let bucket = path.substring_char(1, i).to_owned();
        let key = path.substring_char(i + 1, len).to_owned();
        proof {
            let tail = path@.subrange(1, len as int);
            assert(path@[i as int] == '/');
            assert(tail =~= bucket@ + seq!['/'] + key@);
        }
        Some(S3PathData::Object { bucket, key })
    }
}

} // verus!
