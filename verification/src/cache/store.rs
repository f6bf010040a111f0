//! The weight-bounded cache store.
//!
//! A store holds at most `cache_size` total weight of entries, each
//! under a unique key, each with an absolute expiry time. Expiry is
//! enforced lazily on read; writes evict oldest-position entries until
//! the new entry fits. All times are in milliseconds and passed in
//! explicitly.

use vstd::prelude::*;

use crate::cache::entry::{entry_equiv, CachedResponse};
use crate::strutil::str_eq;

verus! {

/// One slot of the store.
pub struct StoreEntry {
    pub key: String,
    pub value: CachedResponse,
    pub expires_at: Option<u64>,
    pub weight: u64,
}

/// The key-to-entry store with its weight budget and its store-wide
/// default expiry settings.
pub struct CacheStore {
    pub entries: Vec<StoreEntry>,
    pub cache_size: u64,
    pub ttl: Option<u64>,
    pub tti: Option<u64>,
}

/// The first entry under key `k`.
pub open spec fn spec_lookup(s: Seq<StoreEntry>, k: Seq<char>) -> Option<StoreEntry>
    decreases s.len(),
{
    if s.len() == 0 {
        None
    } else if s[0].key@ == k {
        Some(s[0])
    } else {
        spec_lookup(s.skip(1), k)
    }
}

/// The total weight of the entries.
pub open spec fn spec_total(s: Seq<StoreEntry>) -> int
    decreases s.len(),
{
    if s.len() == 0 {
        0
    } else {
        s[0].weight + spec_total(s.skip(1))
    }
}

/// No two entries share a key.
pub open spec fn unique_keys(s: Seq<StoreEntry>) -> bool {
    forall|i: int, j: int| 0 <= i < j < s.len() ==> s[i].key@ != s[j].key@
}

/// Every entry's stored weight is its value's weight.
pub open spec fn weights_ok(s: Seq<StoreEntry>) -> bool {
    forall|i: int| 0 <= i < s.len() ==> (#[trigger] s[i].weight) == s[i].value.spec_size()
}

/// An entry is expired strictly after its expiry time.
pub open spec fn spec_expired(e: StoreEntry, now: u64) -> bool {
    e.expires_at matches Some(x) && now > x
}

/// What a read at `now` answers: the live entry's value, and nothing
/// for a missing or expired entry.
pub open spec fn spec_get_value(s: Seq<StoreEntry>, k: Seq<char>, now: u64) -> Option<
    CachedResponse,
> {
    match spec_lookup(s, k) {
        Some(e) => if spec_expired(e, now) {
            None
        } else {
            Some(e.value)
        },
        None => None,
    }
}

/// Addition on times that stops at the largest representable time.
pub open spec fn spec_sat_add(a: u64, b: u64) -> u64 {
    if a + b > u64::MAX {
        u64::MAX
    } else {
        (a + b) as u64
    }
}

impl CacheStore {
    /// The store's invariant: unique keys, correct weights, and total
    /// weight within the budget.
    pub open spec fn wf(&self) -> bool {
        &&& unique_keys(self.entries@)
        &&& weights_ok(self.entries@)
        &&& spec_total(self.entries@) <= self.cache_size
    }
}

pub proof fn lemma_total_nonneg(s: Seq<StoreEntry>)
    ensures
        spec_total(s) >= 0,
    decreases s.len(),
{
    if s.len() > 0 {
        lemma_total_nonneg(s.skip(1));
    }
}

pub proof fn lemma_total_push(s: Seq<StoreEntry>, e: StoreEntry)
    ensures
        spec_total(s.push(e)) == spec_total(s) + e.weight,
    decreases s.len(),
{
    let t = s.push(e);
    assert(t.len() == s.len() + 1);
    assert(spec_total(t) == t[0].weight + spec_total(t.skip(1)));
    if s.len() == 0 {
        assert(t[0] == e);
        assert(t.skip(1) =~= Seq::<StoreEntry>::empty());
        assert(spec_total(t.skip(1)) == 0);
    } else {
        assert(t[0] == s[0]);
        assert(t.skip(1) =~= s.skip(1).push(e));
        lemma_total_push(s.skip(1), e);
    }
}

pub proof fn lemma_total_remove(s: Seq<StoreEntry>, i: int)
    requires
        0 <= i < s.len(),
    ensures
        spec_total(s.remove(i)) == spec_total(s) - s[i].weight,
    decreases s.len(),
{
    if i == 0 {
        assert(s.remove(0) =~= s.skip(1));
    } else {
        assert(s.remove(i).skip(1) =~= s.skip(1).remove(i - 1));
        assert(s.remove(i)[0] == s[0]);
        lemma_total_remove(s.skip(1), i - 1);
    }
}

pub proof fn lemma_total_split(s: Seq<StoreEntry>, i: int)
    requires
        0 <= i <= s.len(),
    ensures
        spec_total(s) == spec_total(s.take(i)) + spec_total(s.skip(i)),
    decreases i,
{
    if i == 0 {
        assert(s.take(0) =~= Seq::<StoreEntry>::empty());
        assert(s.skip(0) =~= s);
    } else {
        assert(s.take(i)[0] == s[0]);
        assert(s.take(i).skip(1) =~= s.skip(1).take(i - 1));
        assert(s.skip(i) =~= s.skip(1).skip(i - 1));
        lemma_total_split(s.skip(1), i - 1);
    }
}

/// A key held by no entry looks up to nothing.
pub proof fn lemma_lookup_absent(s: Seq<StoreEntry>, k: Seq<char>)
    requires
        forall|i: int| 0 <= i < s.len() ==> s[i].key@ != k,
    ensures
        spec_lookup(s, k) is None,
    decreases s.len(),
{
    if s.len() > 0 {
        assert forall|i: int| 0 <= i < s.len() - 1 implies s.skip(1)[i].key@ != k by {
            assert(s[i + 1].key@ != k);
        }
        lemma_lookup_absent(s.skip(1), k);
    }
}

/// With unique keys, an entry at any position is what its key looks up
/// to.
pub proof fn lemma_lookup_present(s: Seq<StoreEntry>, i: int)
    requires
        0 <= i < s.len(),
        unique_keys(s),
    ensures
        spec_lookup(s, s[i].key@) == Some(s[i]),
    decreases s.len(),
{
    if i == 0 {
    } else {
        assert(s[0].key@ != s[i].key@);
        assert(s.skip(1)[i - 1] == s[i]);
        lemma_lookup_present(s.skip(1), i - 1);
    }
}

/// Removing one entry leaves every other key's lookup unchanged.
pub proof fn lemma_lookup_remove(s: Seq<StoreEntry>, i: int, k: Seq<char>)
    requires
        0 <= i < s.len(),
        s[i].key@ != k,
    ensures
        spec_lookup(s.remove(i), k) == spec_lookup(s, k),
    decreases s.len(),
{
    if i == 0 {
        assert(s.remove(0) =~= s.skip(1));
    } else {
        assert(s.remove(i)[0] == s[0]);
        if s[0].key@ == k {
        } else {
            assert(s.remove(i).skip(1) =~= s.skip(1).remove(i - 1));
            lemma_lookup_remove(s.skip(1), i - 1, k);
        }
    }
}

/// Appending an entry resolves its own key (when fresh) and leaves
/// other keys' lookups unchanged.
pub proof fn lemma_lookup_push(s: Seq<StoreEntry>, e: StoreEntry, k: Seq<char>)
    ensures
        k != e.key@ ==> spec_lookup(s.push(e), k) == spec_lookup(s, k),
        k == e.key@ && (forall|i: int| 0 <= i < s.len() ==> s[i].key@ != k) ==> spec_lookup(
            s.push(e),
            k,
        ) == Some(e),
    decreases s.len(),
{
    let t = s.push(e);
    assert(t.len() == s.len() + 1);
    if s.len() == 0 {
        assert(t[0] == e);
        if k != e.key@ {
            assert(t.skip(1) =~= Seq::<StoreEntry>::empty());
            assert(spec_lookup(t, k) == spec_lookup(t.skip(1), k));
            assert(spec_lookup(t, k) is None);
        } else {
            assert(spec_lookup(t, k) == Some(e));
        }
    } else {
        assert(t[0] == s[0]);
        assert(t.skip(1) =~= s.skip(1).push(e));
        if forall|i: int| 0 <= i < s.len() ==> s[i].key@ != k {
            assert forall|i: int| 0 <= i < s.len() - 1 implies s.skip(1)[i].key@ != k by {
                assert(s[i + 1].key@ != k);
            }
        }
        lemma_lookup_push(s.skip(1), e, k);
        if s[0].key@ == k {
            assert(spec_lookup(t, k) == Some(s[0]));
            assert(spec_lookup(s, k) == Some(s[0]));
        } else {
            assert(spec_lookup(t, k) == spec_lookup(t.skip(1), k));
            assert(spec_lookup(s, k) == spec_lookup(s.skip(1), k));
        }
    }
}

/// A successful lookup answers an entry the sequence holds under that
/// key.
pub proof fn lemma_lookup_in(s: Seq<StoreEntry>, k: Seq<char>)
    requires
        spec_lookup(s, k) is Some,
    ensures
        exists|i: int|
            0 <= i < s.len() && s[i] == spec_lookup(s, k)->Some_0 && (#[trigger] s[i].key@) == k,
    decreases s.len(),
{
    if s.len() > 0 {
        if s[0].key@ == k {
            assert(s[0].key@ == k);
        } else {
            lemma_lookup_in(s.skip(1), k);
            let i = choose|i: int|
                0 <= i < s.skip(1).len() && s.skip(1)[i] == spec_lookup(s.skip(1), k)->Some_0 && (
                #[trigger] s.skip(1)[i].key@) == k;
            assert(s[i + 1] == s.skip(1)[i]);
        }
    }
}

/// With unique keys, dropping the front entry preserves every other
/// key's successful lookup.
pub proof fn lemma_lookup_tail(s: Seq<StoreEntry>)
    requires
        unique_keys(s),
        s.len() > 0,
    ensures
        forall|k2: Seq<char>|
            (#[trigger] spec_lookup(s.skip(1), k2)) is Some ==> spec_lookup(s, k2) == spec_lookup(
                s.skip(1),
                k2,
            ),
{
    assert forall|k2: Seq<char>| (#[trigger] spec_lookup(s.skip(1), k2)) is Some implies
        spec_lookup(s, k2) == spec_lookup(s.skip(1), k2) by {
        if s[0].key@ == k2 {
            lemma_lookup_in(s.skip(1), k2);
            let i = choose|i: int|
                0 <= i < s.skip(1).len() && s.skip(1)[i] == spec_lookup(s.skip(1), k2)->Some_0 && (
                #[trigger] s.skip(1)[i].key@) == k2;
            assert(s[i + 1] == s.skip(1)[i]);
            assert(s[0].key@ == s[i + 1].key@);
            assert(false);
        }
    }
}

/// Bounded addition of times.
pub fn sat_add(a: u64, b: u64) -> (r: u64)
    ensures
        r == spec_sat_add(a, b),
{
    if b > u64::MAX - a {
        u64::MAX
    } else {
        a + b
    }
}

impl CacheStore {
    /// An empty store with the given weight budget and store-wide
    /// default expiry settings.
    pub fn new(cache_size: u64, ttl: Option<u64>, tti: Option<u64>) -> (r: CacheStore)
        ensures
            r.wf(),
            r.entries@.len() == 0,
            r.cache_size == cache_size,
            r.ttl == ttl,
            r.tti == tti,
    {
        CacheStore { entries: Vec::new(), cache_size, ttl, tti }
    }

    /// The index of the entry under `key`, if one is held.
    fn find_index(&self, key: &str) -> (r: Option<usize>)
        ensures
            match r {
                Some(i) => i < self.entries@.len() && self.entries@[i as int].key@ == key@
                    && forall|j: int| 0 <= j < i ==> self.entries@[j].key@ != key@,
                None => forall|j: int| 0 <= j < self.entries@.len() ==> self.entries@[j].key@ != key@,
            },
    {
        let n = self.entries.len();
        let mut i: usize = 0;
        while i < n
            invariant
                0 <= i <= n,
                n == self.entries@.len(),
                forall|j: int| 0 <= j < i ==> self.entries@[j].key@ != key@,
            decreases n - i,
        {
            if str_eq(self.entries[i].key.as_str(), key) {
                return Some(i);
            }
            i = i + 1;
        }
        None
    }

    /// Read the entry under `key` at time `now`.
    ///
    /// A missing key answers nothing. An entry expired at `now` (a read
    /// strictly after its expiry time) is dropped and answers nothing.
    /// A live entry is answered, and when a time-to-idle is in force
    /// (the entry's own, or else the store's default) its expiry moves
    /// to `now` plus that idle time.
    pub fn get(&mut self, key: &str, now: u64) -> (r: Option<CachedResponse>)
        requires
            old(self).wf(),
        ensures
            final(self).wf(),
            final(self).cache_size == old(self).cache_size,
            final(self).ttl == old(self).ttl,
            final(self).tti == old(self).tti,
            match spec_get_value(old(self).entries@, key@, now) {
                Some(v) => r matches Some(rv) && entry_equiv(v, rv),
                None => r is None,
            },
            match spec_lookup(old(self).entries@, key@) {
                None => final(self).entries@ == old(self).entries@,
                Some(e) => if spec_expired(e, now) {
                    &&& spec_lookup(final(self).entries@, key@) is None
                    &&& final(self).entries@.len() == old(self).entries@.len() - 1
                    &&& forall|k2: Seq<char>|
                        k2 != key@ ==> #[trigger] spec_lookup(final(self).entries@, k2)
                            == spec_lookup(old(self).entries@, k2)
                } else {
                    {
                        let eff_tti = if e.value.tti is Some {
                            e.value.tti
                        } else {
                            old(self).tti
                        };
                        let new_exp = match eff_tti {
                            Some(t) => Some(spec_sat_add(now, t)),
                            None => e.expires_at,
                        };
                        &&& spec_lookup(final(self).entries@, key@) matches Some(e2) && e2.value
                            == e.value && e2.weight == e.weight && e2.expires_at == new_exp
                        &&& final(self).entries@.len() == old(self).entries@.len()
                        &&& forall|k2: Seq<char>|
                            k2 != key@ ==> #[trigger] spec_lookup(final(self).entries@, k2)
                                == spec_lookup(old(self).entries@, k2)
                    }
                },
            },
    {
        let ghost s0 = self.entries@;
        let idx = self.find_index(key);
        let i = match idx {
            Some(i) => i,
            None => {
                proof {
                    lemma_lookup_absent(s0, key@);
                }
                return None;
            },
        };
        proof {
            assert(s0[i as int].key@ == key@);
            lemma_lookup_present(s0, i as int);
        }
        let expired = match self.entries[i].expires_at {
            Some(x) => now > x,
            None => false,
        };
        if expired {
            self.entries.remove(i);
            proof {
                s0.remove_ensures(i as int);
                assert(self.entries@ =~= s0.remove(i as int));
                lemma_total_remove(s0, i as int);
                assert forall|a: int, b: int|
                    0 <= a < b < self.entries@.len() implies self.entries@[a].key@
                    != self.entries@[b].key@ by {
                    let a0: int = if a < i { a } else { a + 1 };
                    let b0: int = if b < i { b } else { b + 1 };
                    assert(self.entries@[a] == s0[a0]);
                    assert(self.entries@[b] == s0[b0]);
                }
                assert forall|j: int| 0 <= j < self.entries@.len() implies (#[trigger] self.entries@[j].weight)
                    == self.entries@[j].value.spec_size() by {
                    let j0: int = if j < i { j } else { j + 1 };
                    assert(self.entries@[j] == s0[j0]);
                }
                assert forall|j: int| 0 <= j < self.entries@.len() implies self.entries@[j].key@
                    != key@ by {
                    let j0: int = if j < i { j } else { j + 1 };
                    assert(self.entries@[j] == s0[j0]);
                }
                lemma_lookup_absent(self.entries@, key@);
                assert forall|k2: Seq<char>| k2 != key@ implies #[trigger] spec_lookup(
                    self.entries@,
                    k2,
                ) == spec_lookup(s0, k2) by {
                    lemma_lookup_remove(s0, i as int, k2);
                }
            }
            return None;
        }
        let eff_tti = match self.entries[i].value.tti {
            Some(t) => Some(t),
            None => self.tti,
        };
        let e = self.entries.remove(i);
        let new_exp = match eff_tti {
            Some(t) => Some(sat_add(now, t)),
            None => e.expires_at,
        };
        let result = e.value.duplicate();
        let e2 = StoreEntry { key: e.key, value: e.value, expires_at: new_exp, weight: e.weight };
        self.entries.push(e2);
        proof {
            let s1 = s0.remove(i as int);
            s0.remove_ensures(i as int);
            assert(self.entries@ =~= s1.push(e2));
            lemma_total_remove(s0, i as int);
            lemma_total_push(s1, e2);
            assert forall|j: int| 0 <= j < s1.len() implies s1[j].key@ != key@ && (
            #[trigger] s1[j]) == (if j < i {
                s0[j]
            } else {
                s0[j + 1]
            }) by {
                let j0: int = if j < i { j } else { j + 1 };
                assert(s1[j] == s0[j0]);
            }
            assert forall|a: int, b: int|
                0 <= a < b < self.entries@.len() implies self.entries@[a].key@
                != self.entries@[b].key@ by {
                if b < self.entries@.len() - 1 {
                    assert(self.entries@[a] == s1[a]);
                    assert(self.entries@[b] == s1[b]);
                } else {
                    assert(self.entries@[a] == s1[a]);
                    assert(self.entries@[b] == e2);
                }
            }
            assert forall|j: int| 0 <= j < self.entries@.len() implies (#[trigger] self.entries@[j].weight)
                == self.entries@[j].value.spec_size() by {
                if j < self.entries@.len() - 1 {
                    assert(self.entries@[j] == s1[j]);
                } else {
                    assert(self.entries@[j] == e2);
                }
            }
            lemma_lookup_push(s1, e2, key@);
            assert(spec_lookup(self.entries@, key@) == Some(e2));
            assert forall|k2: Seq<char>| k2 != key@ implies #[trigger] spec_lookup(
                self.entries@,
                k2,
            ) == spec_lookup(s0, k2) by {
                lemma_lookup_remove(s0, i as int, k2);
                lemma_lookup_push(s1, e2, k2);
            }
        }
        Some(result)
    }

    /// Write `value` under `key` at time `now`.
    ///
    /// A value heavier than the whole budget is refused and nothing
    /// changes. Otherwise the write always succeeds: an existing entry
    /// under the key is replaced (the last writer wins), and entries in
    /// oldest position are evicted until the total weight fits the
    /// budget again. The new entry expires at `now` plus the
    /// time-to-live in force (the value's own, or else the store's
    /// default); with none in force a replaced entry's expiry is
    /// preserved, and a fresh entry gets no expiry.
    pub fn insert(&mut self, key: String, value: CachedResponse, now: u64) -> (inserted: bool)
        requires
            old(self).wf(),
        ensures
            final(self).wf(),
            final(self).cache_size == old(self).cache_size,
            final(self).ttl == old(self).ttl,
            final(self).tti == old(self).tti,
            value.spec_size() > old(self).cache_size ==> !inserted && final(self).entries@ == old(
                self,
            ).entries@,
            value.spec_size() <= old(self).cache_size ==> inserted && ({
                let eff_ttl = if value.ttl is Some {
                    value.ttl
                } else {
                    old(self).ttl
                };
                let new_exp = match eff_ttl {
                    Some(t) => Some(spec_sat_add(now, t)),
                    None => match spec_lookup(old(self).entries@, key@) {
                        Some(olde) => olde.expires_at,
                        None => None,
                    },
                };
                &&& spec_lookup(final(self).entries@, key@) matches Some(e2) && e2.value == value
                    && e2.weight == value.spec_size() && e2.expires_at == new_exp
                &&& forall|k2: Seq<char>|
                    k2 != key@ ==> ((#[trigger] spec_lookup(final(self).entries@, k2)) matches Some(
                        e3,
                    ) ==> spec_lookup(old(self).entries@, k2) == Some(e3))
            }),
    {
        let w = value.size();
        if w > self.cache_size {
            return false;
        }
        let ghost s0 = self.entries@;
        let idx = self.find_index(key.as_str());
        let old_exp: Option<u64> = match idx {
            Some(i) => self.entries[i].expires_at,
            None => None,
        };
        proof {
            match idx {
                Some(i) => lemma_lookup_present(s0, i as int),
                None => lemma_lookup_absent(s0, key@),
            }
        }
        if let Some(i) = idx {
            self.entries.remove(i);
            proof {
                s0.remove_ensures(i as int);
                assert(self.entries@ =~= s0.remove(i as int));
                lemma_total_remove(s0, i as int);
                lemma_total_nonneg(self.entries@);
                assert forall|a: int, b: int|
                    0 <= a < b < self.entries@.len() implies self.entries@[a].key@
                    != self.entries@[b].key@ by {
                    let a0: int = if a < i { a } else { a + 1 };
                    let b0: int = if b < i { b } else { b + 1 };
                    assert(self.entries@[a] == s0[a0]);
                    assert(self.entries@[b] == s0[b0]);
                }
                assert forall|j: int| 0 <= j < self.entries@.len() implies (
                #[trigger] self.entries@[j].weight) == self.entries@[j].value.spec_size() by {
                    let j0: int = if j < i { j } else { j + 1 };
                    assert(self.entries@[j] == s0[j0]);
                }
                assert forall|j: int| 0 <= j < self.entries@.len() implies self.entries@[j].key@
                    != key@ by {
                    let j0: int = if j < i { j } else { j + 1 };
                    assert(self.entries@[j] == s0[j0]);
                }
                assert forall|k2: Seq<char>|
                    k2 != key@ implies #[trigger] spec_lookup(self.entries@, k2) == spec_lookup(
                    s0,
                    k2,
                ) by {
                    lemma_lookup_remove(s0, i as int, k2);
                }
            }
        }
        let ghost s1 = self.entries@;
        proof {
            lemma_total_nonneg(s1);
        }
        while self.total_weight() > self.cache_size - w
            invariant
                w <= self.cache_size,
                unique_keys(self.entries@),
                weights_ok(self.entries@),
                spec_total(self.entries@) <= self.cache_size,
                spec_total(self.entries@) >= 0,
                self.cache_size == old(self).cache_size,
                self.ttl == old(self).ttl,
                self.tti == old(self).tti,
                forall|j: int| 0 <= j < self.entries@.len() ==> self.entries@[j].key@ != key@,
                forall|k2: Seq<char>|
                    (#[trigger] spec_lookup(self.entries@, k2)) matches Some(e3) ==> spec_lookup(
                        s1,
                        k2,
                    ) == Some(e3),
            decreases self.entries@.len(),
        {
            let ghost sc = self.entries@;
            proof {
                // the loop runs only when weight remains, so an entry exists
                if self.entries@.len() == 0 {
                    assert(spec_total(self.entries@) == 0);
                    assert(false);
                }
            }
            self.entries.remove(0);
            proof {
                assert(self.entries@ =~= sc.skip(1));
                lemma_total_remove(sc, 0);
                assert(sc.remove(0) =~= sc.skip(1));
                lemma_total_nonneg(self.entries@);
                assert forall|a: int, b: int|
                    0 <= a < b < self.entries@.len() implies self.entries@[a].key@
                    != self.entries@[b].key@ by {
                    assert(self.entries@[a] == sc[a + 1]);
                    assert(self.entries@[b] == sc[b + 1]);
                }
                assert forall|j: int| 0 <= j < self.entries@.len() implies (
                #[trigger] self.entries@[j].weight) == self.entries@[j].value.spec_size() by {
                    assert(self.entries@[j] == sc[j + 1]);
                }
                assert forall|j: int| 0 <= j < self.entries@.len() implies self.entries@[j].key@
                    != key@ by {
                    assert(self.entries@[j] == sc[j + 1]);
                }
                lemma_lookup_tail(sc);
            }
        }
        let ghost s2 = self.entries@;
        let eff_ttl = match value.ttl {
            Some(t) => Some(t),
            None => self.ttl,
        };
        let new_exp = match eff_ttl {
            Some(t) => Some(sat_add(now, t)),
            None => old_exp,
        };
        let ghost v0 = value;
        let e2 = StoreEntry { key, value, expires_at: new_exp, weight: w };
        self.entries.push(e2);
        proof {
            assert(self.entries@ =~= s2.push(e2));
            lemma_total_push(s2, e2);
            assert forall|a: int, b: int|
                0 <= a < b < self.entries@.len() implies self.entries@[a].key@
                != self.entries@[b].key@ by {
                if b < self.entries@.len() - 1 {
                    assert(self.entries@[a] == s2[a]);
                    assert(self.entries@[b] == s2[b]);
                } else {
                    assert(self.entries@[a] == s2[a]);
                    assert(self.entries@[b] == e2);
                }
            }
            assert forall|j: int| 0 <= j < self.entries@.len() implies (
            #[trigger] self.entries@[j].weight) == self.entries@[j].value.spec_size() by {
                if j < self.entries@.len() - 1 {
                    assert(self.entries@[j] == s2[j]);
                } else {
                    assert(self.entries@[j] == e2);
                }
            }
            lemma_lookup_push(s2, e2, e2.key@);
            assert(spec_lookup(self.entries@, e2.key@) == Some(e2));
            assert forall|k2: Seq<char>|
                k2 != e2.key@ implies ((#[trigger] spec_lookup(self.entries@, k2)) matches Some(e3)
                ==> spec_lookup(s0, k2) == Some(e3)) by {
                lemma_lookup_push(s2, e2, k2);
            }
        }
        true
    }

    /// Remove the entry under `key`, if one is held. Removing an absent
    /// key leaves the store unchanged.
    pub fn remove(&mut self, key: &str)
        requires
            old(self).wf(),
        ensures
            final(self).wf(),
            final(self).cache_size == old(self).cache_size,
            final(self).ttl == old(self).ttl,
            final(self).tti == old(self).tti,
            spec_lookup(final(self).entries@, key@) is None,
            forall|k2: Seq<char>|
                k2 != key@ ==> #[trigger] spec_lookup(final(self).entries@, k2) == spec_lookup(
                    old(self).entries@,
                    k2,
                ),
            spec_lookup(old(self).entries@, key@) is None ==> final(self).entries@ == old(
                self,
            ).entries@,
    {
        let ghost s0 = self.entries@;
        let idx = self.find_index(key);
        match idx {
            None => {
                proof {
                    lemma_lookup_absent(s0, key@);
                }
            },
            Some(i) => {
                proof {
                    lemma_lookup_present(s0, i as int);
                }
                self.entries.remove(i);
                proof {
                    s0.remove_ensures(i as int);
                    assert(self.entries@ =~= s0.remove(i as int));
                    lemma_total_remove(s0, i as int);
                    lemma_total_nonneg(self.entries@);
                    assert forall|a: int, b: int|
                        0 <= a < b < self.entries@.len() implies self.entries@[a].key@
                        != self.entries@[b].key@ by {
                        let a0: int = if a < i { a } else { a + 1 };
                        let b0: int = if b < i { b } else { b + 1 };
                        assert(self.entries@[a] == s0[a0]);
                        assert(self.entries@[b] == s0[b0]);
                    }
                    assert forall|j: int| 0 <= j < self.entries@.len() implies (
                    #[trigger] self.entries@[j].weight) == self.entries@[j].value.spec_size() by {
                        let j0: int = if j < i { j } else { j + 1 };
                        assert(self.entries@[j] == s0[j0]);
                    }
                    assert forall|j: int| 0 <= j < self.entries@.len() implies self.entries@[j].key@
                        != key@ by {
                        let j0: int = if j < i { j } else { j + 1 };
                        assert(self.entries@[j] == s0[j0]);
                    }
                    lemma_lookup_absent(self.entries@, key@);
                    assert forall|k2: Seq<char>| k2 != key@ implies #[trigger] spec_lookup(
                        self.entries@,
                        k2,
                    ) == spec_lookup(s0, k2) by {
                        lemma_lookup_remove(s0, i as int, k2);
                    }
                }
            },
        }
    }

    /// The total weight currently held.
    pub fn total_weight(&self) -> (r: u64)
        requires
            spec_total(self.entries@) <= u64::MAX,
        ensures
            r == spec_total(self.entries@),
    {
        let n = self.entries.len();
        let mut acc: u64 = 0;
        let mut i: usize = 0;
        proof {
            assert(self.entries@.take(0) =~= Seq::<StoreEntry>::empty());
        }
        while i < n
            invariant
                0 <= i <= n,
                n == self.entries@.len(),
                spec_total(self.entries@) <= u64::MAX,
                acc == spec_total(self.entries@.take(i as int)),
            decreases n - i,
        {
            proof {
                lemma_total_split(self.entries@, i as int);
                lemma_total_nonneg(self.entries@.skip(i as int));
                lemma_total_nonneg(self.entries@.take(i as int));
                assert(self.entries@.skip(i as int)[0] == self.entries@[i as int]);
                lemma_total_nonneg(self.entries@.skip(i + 1));
                assert(self.entries@.skip(i as int).skip(1) =~= self.entries@.skip(i + 1));
                assert(spec_total(self.entries@.skip(i as int)) == self.entries@[i as int].weight
                    + spec_total(self.entries@.skip(i + 1)));
                lemma_total_push(self.entries@.take(i as int), self.entries@[i as int]);
                assert(self.entries@.take(i + 1) =~= self.entries@.take(i as int).push(
                    self.entries@[i as int],
                ));
            }
            acc = acc + self.entries[i].weight;
            i = i + 1;
        }
        proof {
            assert(self.entries@.take(n as int) =~= self.entries@);
        }
        acc
    }
}

/// A store satisfying its invariant never holds more total weight than
/// its budget; since every operation ensures the invariant, the bound
/// holds at all times.
pub proof fn lemma_weight_bounded(s: &CacheStore)
    requires
        s.wf(),
    ensures
        spec_total(s.entries@) <= s.cache_size,
{
}

/// An entry written and not yet expired is what a read answers: after
/// `insert(k, v)`, with no later write, removal or expiry of `k`, a
/// read of `k` answers `v`.
pub proof fn lemma_insert_then_get(s: Seq<StoreEntry>, k: Seq<char>, v: CachedResponse, r: u64)
    requires
        spec_lookup(s, k) matches Some(e) && e.value == v && !spec_expired(e, r),
    ensures
        spec_get_value(s, k, r) == Some(v),
{
}

/// Removal is idempotent: after one removal the key is absent, and
/// `remove` leaves a store unchanged when the key is absent — so a
/// second removal of the same key changes nothing. The premises are
/// exactly what `remove`'s contract grants the second call.
pub proof fn lemma_remove_idempotent(mid: Seq<StoreEntry>, post: Seq<StoreEntry>, k: Seq<char>)
    requires
        spec_lookup(mid, k) is None,
        spec_lookup(mid, k) is None ==> post == mid,
    ensures
        post == mid,
{
}

/// An entry with an expiry time answers nothing to any read strictly
/// after it.
pub proof fn lemma_expired_entry_reads_none(s: Seq<StoreEntry>, k: Seq<char>, x: u64, r: u64)
    requires
        spec_lookup(s, k) matches Some(e) && e.expires_at == Some(x),
        r > x,
    ensures
        spec_get_value(s, k, r) is None,
{
}

/// An entry written at time `c` with a time-to-live `t` in force — the
/// expiry `insert`'s contract sets — answers nothing to any read
/// strictly after `c + t`, as long as no later write or idle-renewing
/// read moved its expiry.
pub proof fn lemma_ttl_expiry_after_write(s: Seq<StoreEntry>, k: Seq<char>, c: u64, t: u64, r: u64)
    requires
        spec_lookup(s, k) matches Some(e) && e.expires_at == Some(spec_sat_add(c, t)),
        c + t <= u64::MAX,
        r > c + t,
    ensures
        spec_get_value(s, k, r) is None,
{
}

} // verus!
