use s3p::cache::entry::{CacheData, CachedResponse};
use s3p::cache::store::CacheStore;
use s3p::s3::ResponseMetaData;

fn meta(status: u16) -> ResponseMetaData {
    ResponseMetaData { status, headers: Vec::new() }
}

fn body_entry(bytes: &[u8], now: u64) -> CachedResponse {
    CachedResponse::new(CacheData::GetObject { meta: meta(200), bytes: bytes.to_vec() }, now)
}

fn small_entry(now: u64) -> CachedResponse {
    CachedResponse::new(CacheData::HeadObject { meta: meta(200) }, now)
}

fn entry_bytes(v: &CachedResponse) -> Vec<u8> {
    match &v.data {
        CacheData::GetObject { bytes, .. } => bytes.clone(),
        _ => Vec::new(),
    }
}

#[test]
fn insert_then_get_answers_the_value() {
    let mut s = CacheStore::new(1000, None, None);
    assert!(s.insert("k".to_string(), body_entry(b"hello", 10), 10));
    let got = s.get("k", 10).expect("entry must be present");
    assert_eq!(entry_bytes(&got), b"hello".to_vec());
    let got = s.get("k", 10_000).expect("no expiry was set");
    assert_eq!(entry_bytes(&got), b"hello".to_vec());
}

#[test]
fn weights_stay_within_the_budget() {
    let mut s = CacheStore::new(10, None, None);
    assert!(s.insert("a".to_string(), body_entry(b"aaaa", 1), 1));
    assert!(s.insert("b".to_string(), body_entry(b"bbbb", 2), 2));
    assert!(s.insert("c".to_string(), body_entry(b"cccc", 3), 3));
    assert!(s.total_weight() <= 10);
    // the oldest entry was evicted to make room
    assert!(s.get("a", 4).is_none());
    assert!(s.get("b", 4).is_some());
    assert!(s.get("c", 4).is_some());
}

#[test]
fn oversized_value_is_refused() {
    let mut s = CacheStore::new(3, None, None);
    assert!(!s.insert("k".to_string(), body_entry(b"toolarge", 1), 1));
    assert!(s.get("k", 1).is_none());
    assert_eq!(s.total_weight(), 0);
}

#[test]
fn ttl_expiry_answers_none_strictly_after() {
    let mut s = CacheStore::new(100, None, None);
    let v = small_entry(1000).time_to_live(Some(1000));
    assert!(s.insert("k".to_string(), v, 1000));
    // at the expiry instant the entry still answers
    assert!(s.get("k", 2000).is_some());
    // strictly after it answers nothing
    assert!(s.get("k", 2001).is_none());
    // and the entry is gone for good
    assert!(s.get("k", 1500).is_none());
}

#[test]
fn store_default_ttl_applies_when_entry_has_none() {
    let mut s = CacheStore::new(100, Some(500), None);
    assert!(s.insert("k".to_string(), small_entry(100), 100));
    assert!(s.get("k", 600).is_some());
    assert!(s.get("k", 601).is_none());
}

#[test]
fn tti_read_renews_the_expiry() {
    let mut s = CacheStore::new(100, None, None);
    let v = small_entry(1000).time_to_idle(Some(500));
    assert!(s.insert("k".to_string(), v, 1000));
    // a read at 1400 moves the expiry to 1900
    assert!(s.get("k", 1400).is_some());
    // a read at 1900 is on time and moves it to 2400
    assert!(s.get("k", 1900).is_some());
    // 2401 is strictly past the renewed expiry
    assert!(s.get("k", 2401).is_none());
}

#[test]
fn last_writer_wins() {
    let mut s = CacheStore::new(1000, None, None);
    assert!(s.insert("k".to_string(), body_entry(b"first", 1), 1));
    assert!(s.insert("k".to_string(), body_entry(b"second", 2), 2));
    let got = s.get("k", 3).expect("entry must be present");
    assert_eq!(entry_bytes(&got), b"second".to_vec());
}

#[test]
fn remove_is_idempotent() {
    let mut s = CacheStore::new(1000, None, None);
    assert!(s.insert("k".to_string(), small_entry(1), 1));
    s.remove("k");
    assert!(s.get("k", 2).is_none());
    s.remove("k");
    assert!(s.get("k", 3).is_none());
    s.remove("never-there");
    assert_eq!(s.total_weight(), 0);
}

#[test]
fn update_preserves_expiry_when_no_ttl_is_set() {
    let mut s = CacheStore::new(100, None, None);
    let v = small_entry(1000).time_to_live(Some(1000));
    assert!(s.insert("k".to_string(), v, 1000));
    // rewrite without any time-to-live: the old expiry (2000) stays
    assert!(s.insert("k".to_string(), small_entry(1500), 1500));
    assert!(s.get("k", 2000).is_some());
    assert!(s.get("k", 2001).is_none());
}
