//! Webhook events and cache invalidation.
//!
//! Object-mutation notifications arrive as JSON on a side port. The
//! JSON is read through trusted wrappers over `serde_json`; the event
//! names, the record shape, and the mapping from a record to the cache
//! keys it invalidates are verified here.

use vstd::prelude::*;

use crate::cache::logic::{spec_get_object_key, spec_head_object_key, KeyData};
use crate::cache::store::{spec_lookup, CacheStore};
use crate::req::Header;
use crate::strutil::str_eq;

verus! {

/// The kinds of object-creation events.
#[derive(Clone, Copy, PartialEq, Eq, Structural, Debug)]
pub enum ObjectCreatedEvent {
    Put,
    Post,
    Copy,
    CompleteMultipartUpload,
    Any,
}

/// The kinds of object-removal events.
#[derive(Clone, Copy, PartialEq, Eq, Structural, Debug)]
pub enum ObjectRemovedEvent {
    Delete,
    Any,
}

/// The kinds of lifecycle-expiration events.
#[derive(Clone, Copy, PartialEq, Eq, Structural, Debug)]
pub enum LifecycleExpirationEvent {
    Delete,
}

/// The kinds of object-restore events.
#[derive(Clone, Copy, PartialEq, Eq, Structural, Debug)]
pub enum ObjectRestoreEvent {
    Post,
    Completed,
    Delete,
    Any,
}

/// The family and kind of an S3 event.
#[derive(Clone, Copy, PartialEq, Eq, Structural, Debug)]
pub enum S3EventType {
    ObjectCreated(ObjectCreatedEvent),
    ObjectRemoved(ObjectRemovedEvent),
    LifecycleExpiration(LifecycleExpirationEvent),
    ObjectRestore(ObjectRestoreEvent),
}

/// Whether `p` is a prefix of `s`.
pub open spec fn has_prefix(s: Seq<char>, p: Seq<char>) -> bool {
    p.len() <= s.len() && s.take(p.len() as int) == p
}

/// What an event name denotes. A name is `s3:<Family>:<Kind>`; an
/// unknown kind within a known family becomes that family's `Any`
/// kind where it has one, and is discarded otherwise; an unknown
/// family is discarded.
pub open spec fn spec_parse_event_name(s: Seq<char>) -> Option<S3EventType> {
    if has_prefix(s, "s3:ObjectCreated:"@) {
        {
            let v = s.skip("s3:ObjectCreated:"@.len() as int);
            Some(
                S3EventType::ObjectCreated(
                    if v == "Put"@ {
                        ObjectCreatedEvent::Put
                    } else if v == "Post"@ {
                        ObjectCreatedEvent::Post
                    } else if v == "Copy"@ {
                        ObjectCreatedEvent::Copy
                    } else if v == "CompleteMultipartUpload"@ {
                        ObjectCreatedEvent::CompleteMultipartUpload
                    } else {
                        ObjectCreatedEvent::Any
                    },
                ),
            )
        }
    } else if has_prefix(s, "s3:ObjectRemoved:"@) {
        {
            let v = s.skip("s3:ObjectRemoved:"@.len() as int);
            Some(
                S3EventType::ObjectRemoved(
                    if v == "Delete"@ {
                        ObjectRemovedEvent::Delete
                    } else {
                        ObjectRemovedEvent::Any
                    },
                ),
            )
        }
    } else if has_prefix(s, "s3:LifecycleExpiration:"@) {
        {
            let v = s.skip("s3:LifecycleExpiration:"@.len() as int);
            if v == "Delete"@ {
                Some(S3EventType::LifecycleExpiration(LifecycleExpirationEvent::Delete))
            } else {
                None
            }
        }
    } else if has_prefix(s, "s3:ObjectRestore:"@) {
        {
            let v = s.skip("s3:ObjectRestore:"@.len() as int);
            Some(
                S3EventType::ObjectRestore(
                    if v == "Post"@ {
                        ObjectRestoreEvent::Post
                    } else if v == "Completed"@ {
                        ObjectRestoreEvent::Completed
                    } else if v == "Delete"@ {
                        ObjectRestoreEvent::Delete
                    } else {
                        ObjectRestoreEvent::Any
                    },
                ),
            )
        }
    } else {
        None
    }
}

fn str_has_prefix(s: &str, p: &str) -> (r: bool)
    ensures
        r == has_prefix(s@, p@),
{
    let sl = s.unicode_len();
    let pl = p.unicode_len();
    if pl > sl {
        return false;
    }
    let front = s.substring_char(0, pl);
    proof {
        assert(front@ =~= s@.take(pl as int));
    }
    str_eq(front, p)
}

/// Parse an event name; see [`spec_parse_event_name`].
pub fn parse_event_name(s: &str) -> (r: Option<S3EventType>)
    ensures
        r == spec_parse_event_name(s@),
{
    let len = s.unicode_len();
    if str_has_prefix(s, "s3:ObjectCreated:") {
        let pl = "s3:ObjectCreated:".unicode_len();
        let v = s.substring_char(pl, len);
        proof {
            assert(v@ =~= s@.skip("s3:ObjectCreated:"@.len() as int));
        }
        Some(
            S3EventType::ObjectCreated(
                if str_eq(v, "Put") {
                    ObjectCreatedEvent::Put
                } else if str_eq(v, "Post") {
                    ObjectCreatedEvent::Post
                } else if str_eq(v, "Copy") {
                    ObjectCreatedEvent::Copy
                } else if str_eq(v, "CompleteMultipartUpload") {
                    ObjectCreatedEvent::CompleteMultipartUpload
                } else {
                    ObjectCreatedEvent::Any
                },
            ),
        )
    } else if str_has_prefix(s, "s3:ObjectRemoved:") {
        let pl = "s3:ObjectRemoved:".unicode_len();
        let v = s.substring_char(pl, len);
        proof {
            assert(v@ =~= s@.skip("s3:ObjectRemoved:"@.len() as int));
        }
        Some(
            S3EventType::ObjectRemoved(
                if str_eq(v, "Delete") {
                    ObjectRemovedEvent::Delete
                } else {
                    ObjectRemovedEvent::Any
                },
            ),
        )
    } else if str_has_prefix(s, "s3:LifecycleExpiration:") {
        let pl = "s3:LifecycleExpiration:".unicode_len();
        let v = s.substring_char(pl, len);
        proof {
            assert(v@ =~= s@.skip("s3:LifecycleExpiration:"@.len() as int));
        }
        if str_eq(v, "Delete") {
            Some(S3EventType::LifecycleExpiration(LifecycleExpirationEvent::Delete))
        } else {
            None
        }
    } else if str_has_prefix(s, "s3:ObjectRestore:") {
        let pl = "s3:ObjectRestore:".unicode_len();
        let v = s.substring_char(pl, len);
        proof {
            assert(v@ =~= s@.skip("s3:ObjectRestore:"@.len() as int));
        }
        Some(
            S3EventType::ObjectRestore(
                if str_eq(v, "Post") {
                    ObjectRestoreEvent::Post
                } else if str_eq(v, "Completed") {
                    ObjectRestoreEvent::Completed
                } else if str_eq(v, "Delete") {
                    ObjectRestoreEvent::Delete
                } else {
                    ObjectRestoreEvent::Any
                },
            ),
        )
    } else {
        None
    }
}

/// One record of an S3 event notification.
pub struct S3EventRecord {
    pub event_type: S3EventType,
    pub bucket: String,
    pub object_key: String,
    pub version_id: String,
}

/// An S3 event notification: a sequence of records.
pub struct S3WebhookEvent {
    pub records: Vec<S3EventRecord>,
}

/// What the webhook broadcasts: a decoded S3 event, a raw HTTP body
/// that did not decode, or other text.
pub enum WebhookEvent {
    S3(S3WebhookEvent),
    Http { headers: Vec<Header>, body: Vec<u8> },
    Other(String),
}

/// The `GetObject` cache key a record invalidates.
pub open spec fn spec_record_get_key(r: S3EventRecord) -> Seq<char> {
    spec_get_object_key(r.bucket@, r.object_key@, r.version_id@)
}

/// The `HeadObject` cache key a record invalidates.
pub open spec fn spec_record_head_key(r: S3EventRecord) -> Seq<char> {
    spec_head_object_key(r.bucket@, r.object_key@, r.version_id@)
}

/// The cache keys a record invalidates: whatever the event kind within
/// its family, the object's `GetObject` and `HeadObject` entries go.
pub fn keys_to_invalidate(r: &S3EventRecord) -> (keys: Vec<String>)
    ensures
        keys@.len() == 2,
        keys@[0]@ == spec_record_get_key(*r),
        keys@[1]@ == spec_record_head_key(*r),
{
    let get_key = KeyData::GetObject {
        bucket: r.bucket.as_str(),
        object: r.object_key.as_str(),
        version_id: r.version_id.as_str(),
    }.as_key();
    let head_key = KeyData::HeadObject {
        bucket: r.bucket.as_str(),
        object: r.object_key.as_str(),
        version_id: r.version_id.as_str(),
    }.as_key();
    let mut keys: Vec<String> = Vec::new();
    keys.push(get_key);
    keys.push(head_key);
    keys
}

/// Whether `k` is one of the keys the event invalidates.
pub open spec fn spec_invalidated(event: S3WebhookEvent, k: Seq<char>) -> bool {
    exists|i: int|
        0 <= i < event.records@.len() && (k == spec_record_get_key(#[trigger] event.records@[i])
            || k == spec_record_head_key(event.records@[i]))
}

/// Apply an event to the store: for every record, the object's
/// `GetObject` and `HeadObject` entries are removed; every other key is
/// untouched.
pub fn apply_event(store: &mut CacheStore, event: &S3WebhookEvent)
    requires
        old(store).wf(),
    ensures
        final(store).wf(),
        final(store).cache_size == old(store).cache_size,
        final(store).ttl == old(store).ttl,
        final(store).tti == old(store).tti,
        forall|k: Seq<char>|
            spec_invalidated(*event, k) ==> #[trigger] spec_lookup(final(store).entries@, k)
                is None,
        forall|k: Seq<char>|
            !spec_invalidated(*event, k) ==> #[trigger] spec_lookup(final(store).entries@, k)
                == spec_lookup(old(store).entries@, k),
{
    let n = event.records.len();
    let mut i: usize = 0;
    while i < n
        invariant
            0 <= i <= n,
            n == event.records@.len(),
            store.wf(),
            store.cache_size == old(store).cache_size,
            store.ttl == old(store).ttl,
            store.tti == old(store).tti,
            forall|j: int, k: Seq<char>|
                #![trigger event.records@[j], spec_lookup(store.entries@, k)]
                0 <= j < i && (k == spec_record_get_key(event.records@[j]) || k
                    == spec_record_head_key(event.records@[j])) ==> spec_lookup(store.entries@, k)
                    is None,
            forall|k: Seq<char>|
                !spec_invalidated(*event, k) ==> #[trigger] spec_lookup(store.entries@, k)
                    == spec_lookup(old(store).entries@, k),
        decreases n - i,
    {
        let keys = keys_to_invalidate(&event.records[i]);
        let ghost pre = store.entries@;
        store.remove(keys[0].as_str());
        let ghost mid = store.entries@;
        store.remove(keys[1].as_str());
        proof {
            let gk = spec_record_get_key(event.records@[i as int]);
            let hk = spec_record_head_key(event.records@[i as int]);
            assert(spec_lookup(mid, gk) is None);
            if hk != gk {
                assert(spec_lookup(store.entries@, gk) == spec_lookup(mid, gk));
            }
            assert forall|j: int, k: Seq<char>|
                #![trigger event.records@[j], spec_lookup(store.entries@, k)]
                0 <= j < i + 1 && (k == spec_record_get_key(event.records@[j]) || k
                    == spec_record_head_key(event.records@[j])) implies spec_lookup(
                store.entries@,
                k,
            ) is None by {
                if j < i {
                    if k != gk && k != hk {
                        assert(spec_lookup(mid, k) == spec_lookup(pre, k));
                        assert(spec_lookup(store.entries@, k) == spec_lookup(mid, k));
                    }
                }
            }
            assert forall|k: Seq<char>| !spec_invalidated(*event, k) implies #[trigger] spec_lookup(
                store.entries@,
                k,
            ) == spec_lookup(old(store).entries@, k) by {
                assert(k != gk && k != hk);
                assert(spec_lookup(mid, k) == spec_lookup(pre, k));
                assert(spec_lookup(store.entries@, k) == spec_lookup(mid, k));
            }
        }
        i = i + 1;
    }
}

/// The elements of a notification's `Records` array, each as its own
/// JSON text, or nothing when the bytes are not a JSON object holding
/// a `Records` array.
pub uninterp spec fn records_of(body: Seq<u8>) -> Option<Seq<Seq<char>>>;

/// The plain fields of one notification record — its event name,
/// bucket name, object key, and version (empty when absent) — or
/// nothing when the record text lacks a required field.
pub uninterp spec fn record_fields_of(record: Seq<char>) -> Option<
    (Seq<char>, Seq<char>, Seq<char>, Seq<char>),
>;

/// Relies on `serde_json::from_slice`, `Value::get`, `Value::as_array`
/// and `Value::to_string`: splits a notification body into the JSON
/// texts of its records. Deterministic in the bytes alone (objects
/// serialize with sorted keys), named `records_of`.
#[verifier::external_body]
fn records_json(body: &Vec<u8>) -> (r: Option<Vec<String>>)
    ensures
        match r {
            Some(v) => records_of(body@) matches Some(s) && v@.len() == s.len() && forall|i: int|
                0 <= i < v@.len() ==> (#[trigger] v@[i])@ == s[i],
            None => records_of(body@) is None,
        },
{
    let v: serde_json::Value = serde_json::from_slice(body.as_slice()).ok()?;
    let a = v.get("Records")?.as_array()?;
    Some(a.iter().map(|e| e.to_string()).collect())
}

/// Relies on `serde_json::from_str`, `Value::get` and `Value::as_str`:
/// extracts one record's plain fields. Deterministic in the text
/// alone, named `record_fields_of`.
#[verifier::external_body]
fn record_fields(record: &str) -> (r: Option<(String, String, String, String)>)
    ensures
        match r {
            Some(f) => record_fields_of(record@) == Some((f.0@, f.1@, f.2@, f.3@)),
            None => record_fields_of(record@) is None,
        },
{
    let v: serde_json::Value = serde_json::from_str(record).ok()?;
    let name = v.get("eventName")?.as_str()?.to_owned();
    let s3 = v.get("s3")?;
    let bucket = s3.get("bucket")?.get("name")?.as_str()?.to_owned();
    let key = s3.get("object")?.get("key")?.as_str()?.to_owned();
    let ver = s3.get("object").and_then(|x| x.get("versionId")).and_then(|x| x.as_str()).unwrap_or("").to_owned();
    Some((name, bucket, key, ver))
}

/// The record a record text denotes: its extracted fields, when the
/// event name denotes a known event; nothing otherwise.
pub open spec fn spec_record_of(s: Seq<char>) -> Option<
    (S3EventType, Seq<char>, Seq<char>, Seq<char>),
> {
    match record_fields_of(s) {
        None => None,
        Some(f) => match spec_parse_event_name(f.0) {
            None => None,
            Some(t) => Some((t, f.1, f.2, f.3)),
        },
    }
}

/// The records a notification's record texts denote, in order; a text
/// that does not decode to a known event is discarded.
pub open spec fn spec_kept_records(rs: Seq<Seq<char>>) -> Seq<
    (S3EventType, Seq<char>, Seq<char>, Seq<char>),
>
    decreases rs.len(),
{
    if rs.len() == 0 {
        Seq::empty()
    } else {
        match spec_record_of(rs[0]) {
            Some(x) => seq![x] + spec_kept_records(rs.skip(1)),
            None => spec_kept_records(rs.skip(1)),
        }
    }
}

/// The plain tuples a record list carries.
pub open spec fn spec_record_tuples(ev: Seq<S3EventRecord>) -> Seq<
    (S3EventType, Seq<char>, Seq<char>, Seq<char>),
> {
    ev.map_values(|r: S3EventRecord| (r.event_type, r.bucket@, r.object_key@, r.version_id@))
}

/// Assemble one notification record from its plain fields: a record
/// exists exactly when the event name denotes a known event, and the
/// identity fields carry over unchanged.
pub fn record_from_fields(
    name: &str,
    bucket: String,
    object_key: String,
    version_id: String,
) -> (r: Option<S3EventRecord>)
    ensures
        match spec_parse_event_name(name@) {
            Some(t) => r matches Some(rec) && rec.event_type == t && rec.bucket@ == bucket@
                && rec.object_key@ == object_key@ && rec.version_id@ == version_id@,
            None => r is None,
        },
{
    match parse_event_name(name) {
        Some(event_type) => Some(S3EventRecord { event_type, bucket, object_key, version_id }),
        None => None,
    }
}

impl WebhookEvent {
    /// Decode a webhook body. Bytes holding a JSON `Records` array
    /// become an S3 event carrying, in order, exactly the records whose
    /// fields extract and whose event names denote known events; any
    /// other bytes are kept as a raw HTTP event with the given headers
    /// and body.
    pub fn from_body(headers: Vec<Header>, body: Vec<u8>) -> (r: WebhookEvent)
        ensures
            match records_of(body@) {
                Some(rs) => r matches WebhookEvent::S3(ev) && spec_record_tuples(ev.records@)
                    == spec_kept_records(rs),
                None => r matches WebhookEvent::Http { headers: h, body: b } && h == headers && b
                    == body,
            },
    {
        let texts = match records_json(&body) {
            Some(t) => t,
            None => { return WebhookEvent::Http { headers, body } },
        };
        let ghost rs = records_of(body@)->Some_0;
        let n = texts.len();
        let mut records: Vec<S3EventRecord> = Vec::new();
        let mut i: usize = 0;
        proof {
            assert(rs.skip(0) =~= rs);
            assert(spec_record_tuples(records@) =~= Seq::<
                (S3EventType, Seq<char>, Seq<char>, Seq<char>),
            >::empty());
            assert(spec_record_tuples(records@) + spec_kept_records(rs) =~= spec_kept_records(rs));
        }
        while i < n
            invariant
                0 <= i <= n,
                n == texts@.len(),
                n == rs.len(),
                forall|j: int| 0 <= j < n ==> (#[trigger] texts@[j])@ == rs[j],
                spec_kept_records(rs) == spec_record_tuples(records@) + spec_kept_records(
                    rs.skip(i as int),
                ),
            decreases n - i,
        {
            proof {
                assert(rs.skip(i as int)[0] == rs[i as int]);
                assert(rs.skip(i as int).skip(1) =~= rs.skip(i + 1));
            }
            match record_fields(texts[i].as_str()) {
                Some((name, bucket, key, ver)) => {
                    let ghost pre = records@;
                    match record_from_fields(name.as_str(), bucket, key, ver) {
                        Some(rec) => {
                            records.push(rec);
                            proof {
                                let x = spec_record_of(rs[i as int])->Some_0;
                                assert(spec_record_tuples(records@) =~= spec_record_tuples(pre)
                                    + seq![x]);
                                assert(spec_record_tuples(pre) + (seq![x] + spec_kept_records(
                                    rs.skip(i + 1),
                                )) =~= (spec_record_tuples(pre) + seq![x]) + spec_kept_records(
                                    rs.skip(i + 1),
                                ));
                            }
                        },
                        None => {},
                    }
                },
                None => {},
            }
            i = i + 1;
        }
        proof {
            assert(rs.skip(n as int) =~= Seq::<Seq<char>>::empty());
        }
        WebhookEvent::S3(S3WebhookEvent { records })
    }
}

/// A builder for the webhook ingress: where it listens.
pub struct S3WebhookServerBuilder {
    pub host: String,
    pub port: u16,
}

impl S3WebhookServerBuilder {
    /// A builder for the given host and port.
    pub fn new(host: String, port: u16) -> (r: Self)
        ensures
            r.host@ == host@,
            r.port == port,
    {
        S3WebhookServerBuilder { host, port }
    }
}

impl Default for S3WebhookServerBuilder {
    /// An empty host and port zero.
    fn default() -> (r: Self)
        ensures
            r.host@.len() == 0,
            r.port == 0,
    {
        S3WebhookServerBuilder { host: String::new(), port: 0 }
    }
}

} // verus!
