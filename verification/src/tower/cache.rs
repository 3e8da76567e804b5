//! Response cache: key derivation and the in-memory store.
//!
//! Only chat and embedding requests are cacheable.  A request's key is the
//! 64-bit default hash of its serialised body; the body itself is stored
//! beside the response so that a hash collision is a miss, never a wrong hit.
//! The store evicts in insertion order once it holds `max_entries` entries,
//! and treats entries older than `ttl_ms` as absent.

use vstd::prelude::*;
use vstd::hash_map::HashMapWithView;
use crate::text::str_eq;
use std::collections::VecDeque;
use std::hash::{Hash, Hasher};

verus! {

broadcast use vstd::std_specs::hash::group_hash_axioms, vstd::std_specs::vecdeque::group_vec_dequeue_axioms;

/// Storage backend for the response cache.
#[derive(Debug, Clone, Copy, PartialEq, Eq, Structural)]
pub enum CacheBackend {
    /// In-memory LRU cache (default).
    Memory,
}

/// Configuration for the response cache.
#[derive(Debug, Clone, Copy, PartialEq, Eq, Structural)]
pub struct CacheConfig {
    /// Maximum number of cached entries.
    pub max_entries: usize,
    /// Time-to-live of each entry, in milliseconds.
    pub ttl_ms: u64,
    /// Storage backend to use.
    pub backend: CacheBackend,
}

impl Default for CacheConfig {
    /// 256 entries for five minutes, in memory.
    fn default() -> (c: Self)
        ensures
            c == (CacheConfig { max_entries: 256, ttl_ms: 300000, backend: CacheBackend::Memory }),
    {
        CacheConfig { max_entries: 256, ttl_ms: 300000, backend: CacheBackend::Memory }
    }
}

/// The default 64-bit hash (`std::hash::DefaultHasher`) of a string.
pub uninterp spec fn default_str_hash(s: Seq<char>) -> u64;

/// Hashes `s` with a fresh `std::hash::DefaultHasher` (`str::hash`, then `finish`).
///
/// Trusted: the result is the deterministic default hash of the string's
/// contents; nothing more is claimed about its value.
#[verifier::external_body]
pub(crate) fn hash_str(s: &str) -> (h: u64)
    ensures
        h == default_str_hash(s@),
{
    let mut hasher = std::hash::DefaultHasher::new();
    s.hash(&mut hasher);
    hasher.finish()
}

/// The cache key and stored body for a request, given the request's JSON
/// serialisation when it is cacheable (chat or embedding) and `None` otherwise.
pub fn cache_key(serialized_body: Option<String>) -> (r: Option<(u64, String)>)
    ensures
        serialized_body is None ==> r is None,
        serialized_body matches Some(b) ==> (r matches Some((k, body))
            && k == default_str_hash(b@) && body@ == b@),
{
    match serialized_body {
        Some(json) => {
            let k = hash_str(json.as_str());
            Some((k, json))
        },
        None => None,
    }
}

/// A cached response with its insertion time and the request body that
/// produced it.
pub struct CacheEntry<R> {
    /// Serialized request body, compared on lookup.
    pub request_body: String,
    /// The cached response.
    pub response: R,
    /// Insertion time in milliseconds.
    pub inserted_at_ms: u64,
}

/// Whether an entry inserted at `inserted` is past its TTL at `now`.
pub open spec fn expired(inserted: u64, ttl_ms: u64, now: u64) -> bool {
    (if now >= inserted { now - inserted } else { 0 }) > ttl_ms
}

/// `s` with every occurrence of `key` removed.
pub open spec fn without_key(s: Seq<u64>, key: u64) -> Seq<u64>
    decreases s.len(),
{
    if s.len() == 0 {
        s
    } else if s.last() == key {
        without_key(s.drop_last(), key)
    } else {
        without_key(s.drop_last(), key).push(s.last())
    }
}

/// Eviction: while the map holds at least `max` entries, drop the key at the
/// front of the order (from the map too); stop when the order runs out.
pub open spec fn evict<V>(m: Map<u64, V>, order: Seq<u64>, max: nat) -> (Map<u64, V>, Seq<u64>)
    decreases order.len(),
{
    if m.len() < max || order.len() == 0 {
        (m, order)
    } else {
        evict(m.remove(order[0]), order.drop_first(), max)
    }
}

/// The order queue before eviction: a re-inserted key loses its old place.
pub open spec fn order_before_evict<V>(m: Map<u64, V>, order: Seq<u64>, key: u64) -> Seq<u64> {
    if m.contains_key(key) { without_key(order, key) } else { order }
}

/// A lookup of `key` with request body `body` at `now`: the stored response
/// when the entry exists, was stored for that body and is within its TTL.
pub open spec fn store_lookup<R>(m: Map<u64, CacheEntry<R>>, ttl_ms: u64, key: u64, body: Seq<char>, now: u64) -> Option<R> {
    if m.contains_key(key) && m[key].request_body@ == body && !expired(m[key].inserted_at_ms, ttl_ms, now) {
        Some(m[key].response)
    } else {
        None
    }
}

/// In-memory cache store with insertion-order eviction and lazy expiry.
#[verifier::reject_recursive_types(R)]
pub struct InMemoryStore<R> {
    map: HashMapWithView<u64, CacheEntry<R>>,
    order: VecDeque<u64>,
    max_entries: usize,
    ttl_ms: u64,
}

impl<R> InMemoryStore<R> {
    /// Entries by key.
    pub closed spec fn spec_map(&self) -> Map<u64, CacheEntry<R>> {
        self.map@
    }

    /// Keys in insertion order (front = oldest); may hold keys already removed.
    pub closed spec fn spec_order(&self) -> Seq<u64> {
        self.order@
    }

    /// Capacity.
    pub closed spec fn spec_max_entries(&self) -> usize {
        self.max_entries
    }

    /// Time-to-live.
    pub closed spec fn spec_ttl_ms(&self) -> u64 {
        self.ttl_ms
    }

    /// Every stored key is queued for eviction, and the map is finite.
    pub open spec fn wf(&self) -> bool {
        &&& self.spec_map().dom().finite()
        &&& forall|k: u64| #[trigger] self.spec_map().contains_key(k) ==> self.spec_order().contains(k)
    }

    /// An empty store configured by `config`.
    pub fn new(config: &CacheConfig) -> (s: Self)
        ensures
            s.wf(),
            s.spec_map() == Map::<u64, CacheEntry<R>>::empty(),
            s.spec_order() == Seq::<u64>::empty(),
            s.spec_max_entries() == config.max_entries,
            s.spec_ttl_ms() == config.ttl_ms,
    {
        InMemoryStore { map: HashMapWithView::new(), order: VecDeque::new(), max_entries: config.max_entries, ttl_ms: config.ttl_ms }
    }

    /// The cached response for `key` when it exists, was stored for the same
    /// request body and is not past its TTL at `now_ms`; `None` otherwise.
    pub fn get_if_valid(&self, key: u64, request_body: &str, now_ms: u64) -> (r: Option<&R>)
        ensures
            r is Some <==> (self.spec_map().contains_key(key)
                && self.spec_map()[key].request_body@ == request_body@
                && !expired(self.spec_map()[key].inserted_at_ms, self.spec_ttl_ms(), now_ms)),
            r matches Some(v) ==> *v == self.spec_map()[key].response,
            (match r { Some(v) => Some(*v), None => None }) == store_lookup(self.spec_map(), self.spec_ttl_ms(), key, request_body@, now_ms),
    {
        match self.map.get(&key) {
            Some(entry) => {
                if !str_eq(entry.request_body.as_str(), request_body) {
                    return None;
                }
                if now_ms.saturating_sub(entry.inserted_at_ms) > self.ttl_ms {
                    return None;
                }
                Some(&entry.response)
            },
            None => None,
        }
    }

    /// Store lookup: a copy of the valid entry's response (see
    /// [`InMemoryStore::get_if_valid`]); on a miss, an entry for `key` that
    /// is past its TTL is dropped.
    pub fn get(&mut self, key: u64, request_body: &str, now_ms: u64) -> (r: Option<R>)
        where R: Clone
        requires
            old(self).wf(),
        ensures
            final(self).wf(),
            r is Some <==> (old(self).spec_map().contains_key(key)
                && old(self).spec_map()[key].request_body@ == request_body@
                && !expired(old(self).spec_map()[key].inserted_at_ms, old(self).spec_ttl_ms(), now_ms)),
            r matches Some(v) ==> cloned::<R>(old(self).spec_map()[key].response, v)
                && final(self).spec_map() == old(self).spec_map(),
            r is None ==> final(self).spec_map() == (if old(self).spec_map().contains_key(key)
                && expired(old(self).spec_map()[key].inserted_at_ms, old(self).spec_ttl_ms(), now_ms) {
                old(self).spec_map().remove(key)
            } else {
                old(self).spec_map()
            }),
            final(self).spec_order() == old(self).spec_order(),
            final(self).spec_max_entries() == old(self).spec_max_entries(),
            final(self).spec_ttl_ms() == old(self).spec_ttl_ms(),
    {
        let hit = match self.get_if_valid(key, request_body, now_ms) {
            Some(v) => Some(v.clone()),
            None => None,
        };
        if hit.is_none() {
            self.remove_expired(key, now_ms);
        }
        hit
    }

    /// `true` if an entry for `key` exists and is past its TTL at `now_ms`.
    pub fn is_expired(&self, key: u64, now_ms: u64) -> (b: bool)
        ensures
            b == (self.spec_map().contains_key(key) && expired(self.spec_map()[key].inserted_at_ms, self.spec_ttl_ms(), now_ms)),
    {
        match self.map.get(&key) {
            Some(entry) => now_ms.saturating_sub(entry.inserted_at_ms) > self.ttl_ms,
            None => false,
        }
    }

    /// Drop the entry for `key` if it is past its TTL at `now_ms`.
    pub fn remove_expired(&mut self, key: u64, now_ms: u64)
        requires
            old(self).wf(),
        ensures
            final(self).wf(),
            final(self).spec_map() == (if old(self).spec_map().contains_key(key)
                && expired(old(self).spec_map()[key].inserted_at_ms, old(self).spec_ttl_ms(), now_ms) {
                old(self).spec_map().remove(key)
            } else {
                old(self).spec_map()
            }),
            final(self).spec_order() == old(self).spec_order(),
            final(self).spec_max_entries() == old(self).spec_max_entries(),
            final(self).spec_ttl_ms() == old(self).spec_ttl_ms(),
    {
        if self.is_expired(key, now_ms) {
            let _ = self.map.remove(&key);
        }
    }

    /// Remove the entry for `key` (its queue slot is cleaned lazily).
    pub fn remove(&mut self, key: u64)
        requires
            old(self).wf(),
        ensures
            final(self).wf(),
            final(self).spec_map() == old(self).spec_map().remove(key),
            final(self).spec_order() == old(self).spec_order(),
            final(self).spec_max_entries() == old(self).spec_max_entries(),
            final(self).spec_ttl_ms() == old(self).spec_ttl_ms(),
    {
        let _ = self.map.remove(&key);
    }

    /// Store `response` for `key` at `now_ms`, evicting the oldest entries
    /// first while the store is full.
    pub fn insert(&mut self, key: u64, request_body: String, response: R, now_ms: u64)
        requires
            old(self).wf(),
        ensures
            final(self).wf(),
            ({
                let o1 = order_before_evict(old(self).spec_map(), old(self).spec_order(), key);
                let ev = evict(old(self).spec_map(), o1, old(self).spec_max_entries() as nat);
                &&& final(self).spec_map() == ev.0.insert(key, CacheEntry { request_body, response, inserted_at_ms: now_ms })
                &&& final(self).spec_order() == ev.1.push(key)
            }),
            final(self).spec_max_entries() == old(self).spec_max_entries(),
            final(self).spec_ttl_ms() == old(self).spec_ttl_ms(),
    {
        let ghost m0 = self.map@;
        let ghost o0 = self.order@;
        let ghost max0 = self.max_entries;
        let ghost ttl0 = self.ttl_ms;
        if self.map.contains_key(&key) {
            let mut kept: VecDeque<u64> = VecDeque::new();
            let n = self.order.len();
            let mut i: usize = 0;
            while i < n
                invariant
                    n == self.order@.len(),
                    i <= n,
                    self.order@ == o0,
                    self.map@ == m0,
                    self.max_entries == max0,
                    self.ttl_ms == ttl0,
                    kept@ == without_key(o0.subrange(0, i as int), key),
                decreases n - i,
            {
                let k = self.order[i];
                proof {
                    assert(o0.subrange(0, i + 1).drop_last() == o0.subrange(0, i as int));
                }
                if k != key {
                    kept.push_back(k);
                }
                i = i + 1;
            }
            proof {
                assert(o0.subrange(0, n as int) == o0);
            }
            self.order = kept;
        }
        let ghost o1 = self.order@;
        assert(o1 == order_before_evict(m0, o0, key));
        let ghost target = evict(m0, o1, self.max_entries as nat);
        loop
            invariant
                evict(self.map@, self.order@, self.max_entries as nat) == target,
                self.map@.dom().finite(),
                self.max_entries == max0,
                self.ttl_ms == ttl0,
            ensures
                evict(self.map@, self.order@, self.max_entries as nat) == target,
                self.map@.len() < self.max_entries || self.order@.len() == 0,
            decreases self.order@.len(),
        {
            if self.map.len() < self.max_entries {
                break;
            }
            let ghost m_before = self.map@;
            let ghost o_before = self.order@;
            match self.order.pop_front() {
                Some(oldest) => {
                    let _ = self.map.remove(&oldest);
                    proof {
                        assert(self.order@ =~= o_before.drop_first());
                        assert(self.map@ =~= m_before.remove(oldest));
                        assert(evict(m_before, o_before, self.max_entries as nat)
                            == evict(m_before.remove(o_before[0]), o_before.drop_first(), self.max_entries as nat));
                    }
                },
                None => {
                    break;
                },
            }
        }
        proof {
            assert(evict(self.map@, self.order@, self.max_entries as nat) == (self.map@, self.order@));
        }
        self.map.insert(key, CacheEntry { request_body, response, inserted_at_ms: now_ms });
        self.order.push_back(key);
        proof {
            lemma_insert_keeps_queued(m0, o0, key, self.max_entries as nat);
            assert forall|k: u64| #[trigger] self.map@.contains_key(k) implies self.order@.contains(k) by {
                if k == key {
                    assert(self.order@[self.order@.len() - 1] == key);
                } else {
                    assert(target.0.contains_key(k));
                    assert(target.1.contains(k));
                    let j = choose|j: int| 0 <= j < target.1.len() && target.1[j] == k;
                    assert(self.order@[j] == k);
                }
            }
        }
    }
}

/// Every key that survives eviction is still queued after it, given that
/// every stored key was queued before (except possibly `key`).
proof fn lemma_evict_keeps_queued<V>(m: Map<u64, V>, order: Seq<u64>, max: nat, key: u64)
    requires
        m.dom().finite(),
        forall|k: u64| #[trigger] m.contains_key(k) && k != key ==> order.contains(k),
    ensures
        evict(m, order, max).0.dom().finite(),
        forall|k: u64| #[trigger] evict(m, order, max).0.contains_key(k) && k != key ==> evict(m, order, max).1.contains(k),
    decreases order.len(),
{
    if m.len() < max || order.len() == 0 {
    } else {
        let m2 = m.remove(order[0]);
        let o2 = order.drop_first();
        assert forall|k: u64| #[trigger] m2.contains_key(k) && k != key implies o2.contains(k) by {
            assert(order.contains(k));
            let j = choose|j: int| 0 <= j < order.len() && order[j] == k;
            assert(j != 0);
            assert(o2[j - 1] == k);
        }
        lemma_evict_keeps_queued(m2, o2, max, key);
    }
}

/// `without_key` keeps every other element.
proof fn lemma_without_key_contains(s: Seq<u64>, key: u64, k: u64)
    requires
        k != key,
        s.contains(k),
    ensures
        without_key(s, key).contains(k),
    decreases s.len(),
{
    if s.last() == k {
        assert(without_key(s, key).last() == k);
        assert(without_key(s, key)[without_key(s, key).len() - 1] == k);
    } else {
        let j = choose|j: int| 0 <= j < s.len() && s[j] == k;
        assert(s.drop_last()[j] == k);
        lemma_without_key_contains(s.drop_last(), key, k);
        let w = without_key(s.drop_last(), key);
        let j2 = choose|j2: int| 0 <= j2 < w.len() && w[j2] == k;
        if s.last() == key {
        } else {
            assert(w.push(s.last())[j2] == k);
        }
    }
}

/// The store invariant survives an insertion.
proof fn lemma_insert_keeps_queued<V>(m: Map<u64, V>, o: Seq<u64>, key: u64, max: nat)
    requires
        m.dom().finite(),
        forall|k: u64| #[trigger] m.contains_key(k) ==> o.contains(k),
    ensures
        evict(m, order_before_evict(m, o, key), max).0.dom().finite(),
        forall|k: u64| #[trigger] evict(m, order_before_evict(m, o, key), max).0.contains_key(k) && k != key
            ==> evict(m, order_before_evict(m, o, key), max).1.contains(k),
{
    let o1 = order_before_evict(m, o, key);
    assert forall|k: u64| #[trigger] m.contains_key(k) && k != key implies o1.contains(k) by {
        if m.contains_key(key) {
            lemma_without_key_contains(o, key, k);
        }
    }
    lemma_evict_keeps_queued(m, o1, max, key);
}

/// Eviction only removes entries.
proof fn lemma_evict_subset<V>(m: Map<u64, V>, order: Seq<u64>, max: nat, k: u64)
    ensures
        evict(m, order, max).0.contains_key(k) ==> m.contains_key(k) && evict(m, order, max).0[k] == m[k],
    decreases order.len(),
{
    if m.len() < max || order.len() == 0 {
    } else {
        lemma_evict_subset(m.remove(order[0]), order.drop_first(), max, k);
    }
}

/// Eviction stops only when the map is below capacity or the queue is empty.
proof fn lemma_evict_stops<V>(m: Map<u64, V>, order: Seq<u64>, max: nat)
    ensures
        evict(m, order, max).0.len() < max || evict(m, order, max).1.len() == 0,
    decreases order.len(),
{
    if m.len() < max || order.len() == 0 {
    } else {
        lemma_evict_stops(m.remove(order[0]), order.drop_first(), max);
    }
}

/// Read after write: right after storing a response for a key, a lookup of
/// that key with the same request body finds exactly that response (while
/// the entry is within its TTL); a lookup with another body misses.
pub proof fn law_cache_read_after_write<R>(
    m: Map<u64, CacheEntry<R>>,
    o: Seq<u64>,
    max: nat,
    ttl_ms: u64,
    key: u64,
    body: String,
    response: R,
    stored_at: u64,
    now: u64,
    other_body: Seq<char>,
)
    requires
        !expired(stored_at, ttl_ms, now),
        other_body != body@,
    ensures
        ({
            let after = evict(m, order_before_evict(m, o, key), max).0
                .insert(key, CacheEntry { request_body: body, response, inserted_at_ms: stored_at });
            &&& store_lookup(after, ttl_ms, key, body@, now) == Some(response)
            &&& store_lookup(after, ttl_ms, key, other_body, now) is None
        }),
{
}

/// Capacity: after an insertion the store holds at most `max_entries`
/// entries (one, if the capacity is zero), given the store invariant.
pub proof fn law_cache_capacity<R>(
    m: Map<u64, CacheEntry<R>>,
    o: Seq<u64>,
    max: nat,
    key: u64,
    entry: CacheEntry<R>,
)
    requires
        m.dom().finite(),
        forall|k: u64| #[trigger] m.contains_key(k) ==> o.contains(k),
    ensures
        evict(m, order_before_evict(m, o, key), max).0.insert(key, entry).len() <= (if max == 0 { 1 } else { max }),
{
    let o1 = order_before_evict(m, o, key);
    let ev = evict(m, o1, max);
    lemma_insert_keeps_queued(m, o, key, max);
    lemma_evict_stops(m, o1, max);
    let after = ev.0.insert(key, entry);
    assert(after.dom() =~= ev.0.dom().insert(key));
    if ev.1.len() == 0 {
        assert forall|k: u64| #[trigger] ev.0.dom().contains(k) implies k == key by {
            if k != key {
                assert(ev.1.contains(k));
            }
        }
        assert(after.dom() =~= set![key]);
        assert(set![key].len() == 1) by {
            assert(set![key] =~= Set::<u64>::empty().insert(key));
        }
    } else {
        assert(ev.0.len() < max);
    }
}

/// Eviction starts at the oldest entry: when a full store evicts, the key
/// at the front of the queue is gone afterwards.
pub proof fn law_cache_evicts_oldest_first<V>(m: Map<u64, V>, o: Seq<u64>, max: nat)
    requires
        m.len() >= max,
        o.len() > 0,
    ensures
        !evict(m, o, max).0.contains_key(o[0]),
{
    lemma_evict_subset(m.remove(o[0]), o.drop_first(), max, o[0]);
}

} // verus!
