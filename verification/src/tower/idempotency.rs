//! Idempotency-Key deduplication.
//!
//! A request carrying an idempotency key is handled as follows:
//!
//! 1. first request: forwarded to the inner service; a successful, cacheable
//!    response is stored under the key;
//! 2. repeat with the same body: the stored response is replayed;
//! 3. repeat with a different body: refused with `IdempotencyConflict`;
//! 4. repeat while the first is still in flight: refused with
//!    `IdempotencyInFlight`, so the caller retries later.
//!
//! Keys are scoped by tenant (`"<tenant or _>:<key>"`) so that guessable
//! keys cannot leak responses across tenants.  The body is identified by a
//! hash of its JSON plus a prefix of the JSON itself, so that a hash
//! collision shows up as a conflict rather than a wrong replay.
//!
//! The service alternates store calls and decisions; the decisions are
//! [`after_lookup`], [`after_try_insert`] and [`after_inner`].  Times are
//! milliseconds.

use vstd::prelude::*;
use vstd::hash_map::StringHashMap;
use vstd::string::*;
use vstd::utf8::*;
use std::sync::Arc;
use crate::error::LiterLlmError;
use crate::text::{hex_text, hex_string, str_eq, lemma_hex_text_len};

verus! {

broadcast use vstd::std_specs::hash::group_hash_axioms, vstd::utf8::encode_utf8_valid_utf8;

/// Error reported by an idempotency store.
#[derive(Debug)]
pub enum IdempotencyStoreError {
    /// A backend-specific error occurred.
    Backend(String),
}

/// Message of the internal error that a store error becomes.
pub open spec fn store_err_message(detail: Seq<char>) -> Seq<char> {
    "idempotency store: idempotency store backend error: "@ + detail
}

/// A store error, as the internal error the caller sees.
pub fn store_err(e: IdempotencyStoreError) -> (r: LiterLlmError)
    ensures
        e matches IdempotencyStoreError::Backend(detail) && r matches LiterLlmError::InternalError { message }
            && message@ == store_err_message(detail@),
{
    match e {
        IdempotencyStoreError::Backend(detail) => {
            let mut message = String::from_str("idempotency store: idempotency store backend error: ");
            message.append(detail.as_str());
            LiterLlmError::InternalError { message }
        },
    }
}

/// An entry of the store.
pub struct IdempotencyEntry<R> {
    /// Body hash of the request that created the entry.
    pub body_hash: String,
    /// The stored response; `None` while the first request is in flight.
    pub response: Option<R>,
    /// Creation time.
    pub inserted_at_ms: u64,
    /// Time to live.
    pub ttl_ms: u64,
}

/// An entry is expired once more than its TTL has elapsed since creation.
pub open spec fn entry_expired<R>(e: IdempotencyEntry<R>, now: u64) -> bool {
    (if now >= e.inserted_at_ms { now - e.inserted_at_ms } else { 0 }) > e.ttl_ms
}

impl<R> IdempotencyEntry<R> {
    /// Whether the entry has expired at `now_ms`.
    pub fn is_expired(&self, now_ms: u64) -> (b: bool)
        ensures
            b == entry_expired(*self, now_ms),
    {
        now_ms.saturating_sub(self.inserted_at_ms) > self.ttl_ms
    }
}

/// In-memory store; expiry is checked lazily on access.
///
/// The entries hold a response of any type `R`, so they are kept in vstd's
/// `StringHashMap`, whose contents vstd specifies for every value type; a
/// `DashMap` would need a description of its contents for each `R`.
#[verifier::reject_recursive_types(R)]
pub struct InMemoryIdempotencyStore<R> {
    map: StringHashMap<IdempotencyEntry<R>>,
}

impl<R> InMemoryIdempotencyStore<R> {
    /// Entries by (scoped) key.
    pub closed spec fn spec_map(&self) -> Map<Seq<char>, IdempotencyEntry<R>> {
        self.map@
    }

    /// An empty store.
    pub fn new() -> (s: Self)
        ensures
            s.spec_map() == Map::<Seq<char>, IdempotencyEntry<R>>::empty(),
    {
        InMemoryIdempotencyStore { map: StringHashMap::new() }
    }

    /// The live entry for `key` at `now_ms` (`None` if absent or expired).
    pub fn get(&self, key: &str, now_ms: u64) -> (r: Option<&IdempotencyEntry<R>>)
        ensures
            r matches Some(e) ==> self.spec_map().contains_key(key@) && *e == self.spec_map()[key@]
                && !entry_expired(*e, now_ms),
            r is None ==> !self.spec_map().contains_key(key@) || entry_expired(self.spec_map()[key@], now_ms),
    {
        match self.map.get(key) {
            Some(e) => if e.is_expired(now_ms) { None } else { Some(e) },
            None => None,
        }
    }

    /// Insert an in-flight placeholder for `key` unless a live entry exists;
    /// `true` when this caller's placeholder went in (an expired entry is
    /// replaced).
    pub fn try_insert(&mut self, key: &str, body_hash: &str, ttl_ms: u64, now_ms: u64) -> (inserted: bool)
        ensures
            inserted == (!old(self).spec_map().contains_key(key@) || entry_expired(old(self).spec_map()[key@], now_ms)),
            inserted ==> final(self).spec_map().dom() == old(self).spec_map().dom().insert(key@)
                && final(self).spec_map()[key@].body_hash@ == body_hash@
                && final(self).spec_map()[key@].response is None
                && final(self).spec_map()[key@].inserted_at_ms == now_ms
                && final(self).spec_map()[key@].ttl_ms == ttl_ms
                && forall|k: Seq<char>| k != key@ && #[trigger] old(self).spec_map().contains_key(k)
                    ==> final(self).spec_map()[k] == old(self).spec_map()[k],
            !inserted ==> final(self).spec_map() == old(self).spec_map(),
    {
        let vacant_or_expired = match self.map.get(key) {
            Some(e) => e.is_expired(now_ms),
            None => true,
        };
        if vacant_or_expired {
            let entry = IdempotencyEntry { body_hash: String::from_str(body_hash), response: None, inserted_at_ms: now_ms, ttl_ms };
            self.map.insert(String::from_str(key), entry);
            assert(self.spec_map().dom() =~= old(self).spec_map().dom().insert(key@));
        }
        vacant_or_expired
    }

    /// Store the response of the request that holds `key`'s placeholder;
    /// nothing happens when the key is absent.
    pub fn store_response(&mut self, key: &str, response: R)
        ensures
            old(self).spec_map().contains_key(key@) ==> final(self).spec_map() == old(self).spec_map().insert(key@,
                IdempotencyEntry { response: Some(response), ..old(self).spec_map()[key@] }),
            !old(self).spec_map().contains_key(key@) ==> final(self).spec_map() == old(self).spec_map(),
    {
        let updated = match self.map.get(key) {
            Some(e) => Some(IdempotencyEntry {
                body_hash: e.body_hash.clone(),
                response: Some(response),
                inserted_at_ms: e.inserted_at_ms,
                ttl_ms: e.ttl_ms,
            }),
            None => None,
        };
        if let Some(entry) = updated {
            self.map.insert(String::from_str(key), entry);
        }
    }

    /// Drop `key`'s entry.
    pub fn remove(&mut self, key: &str)
        ensures
            final(self).spec_map() == old(self).spec_map().remove(key@),
    {
        self.map.remove(key);
    }
}

/// The store key of a request: `"<tenant>:<key>"`, `_` standing for a
/// missing tenant.
pub open spec fn scoped_key_text(tenant: Option<Seq<char>>, raw_key: Seq<char>) -> Seq<char> {
    (match tenant {
        Some(t) => t,
        None => "_"@,
    }) + ":"@ + raw_key
}

/// Build the tenant-scoped store key.
pub fn scoped_key(tenant: Option<&str>, raw_key: &str) -> (s: String)
    ensures
        s@ == scoped_key_text((match tenant { Some(t) => Some(t@), None => None }), raw_key@),
{
    let mut s = match tenant {
        Some(t) => String::from_str(t),
        None => String::from_str("_"),
    };
    s.append(":");
    s.append(raw_key);
    s
}

/// Length in bytes of the body prefix embedded in a body hash.
pub open spec fn prefix_len(json: &str) -> int {
    if json.spec_bytes().len() < 64 { json.spec_bytes().len() as int } else { 64 }
}

/// The body identity of a request whose JSON is `json`, given its hash `h`:
/// 16 lowercase hex digits of `h`, `:`, and the first 64 bytes of the JSON
/// (all of it when shorter).
pub fn body_hash_text(h: u64, json: &str) -> (s: String)
    requires
        json.spec_bytes().len() <= usize::MAX,
        is_char_boundary(json.spec_bytes(), prefix_len(json)),
    ensures
        s@.len() >= 17,
        s@.subrange(0, 17) == hex_text(h as nat, 16) + ":"@,
        encode_utf8(s@.subrange(17, s@.len() as int)) == json.spec_bytes().subrange(0, prefix_len(json)),
{
    let n = if json.len() < 64 { json.len() } else { 64 };
    let (prefix, _) = json.split_at(n);
    let mut s = hex_string(h, 16);
    s.append(":");
    s.append(prefix);
    proof {
        reveal_strlit(":");
        lemma_hex_text_len(h as nat, 16);
        assert(s@.subrange(0, 17) =~= hex_text(h as nat, 16) + ":"@);
        assert(s@.subrange(17, s@.len() as int) =~= prefix@);
    }
    s
}

/// `ahash::RandomState`, the keyed hasher of request bodies.
#[verifier::external_type_specification]
#[verifier::external_body]
pub struct ExAhashRandomState(ahash::RandomState);

/// Fixed seeds of the body hasher.
pub const IDEM_HASH_SEED_0: u64 = 0x6964_656d_706f_7465;
/// Fixed seeds of the body hasher.
pub const IDEM_HASH_SEED_1: u64 = 0x6e63_795f_6861_7368;
/// Fixed seeds of the body hasher.
pub const IDEM_HASH_SEED_2: u64 = 0x5f73_6565_6430_5f76;
/// Fixed seeds of the body hasher.
pub const IDEM_HASH_SEED_3: u64 = 0x315f_6c6c_6d00_0000;

/// The hasher state `ahash::RandomState::with_seeds(k0, k1, k2, k3)` builds.
pub uninterp spec fn seeded_state(k0: u64, k1: u64, k2: u64, k3: u64) -> ahash::RandomState;

/// `ahash::RandomState::with_seeds(k0, k1, k2, k3)`: a hasher keyed by the
/// four seeds alone (a `const fn` mixing them with fixed constants), so that
/// every hasher built from the same seeds is the same hasher.
#[verifier::external_body]
fn seeded_random_state(k0: u64, k1: u64, k2: u64, k3: u64) -> (s: ahash::RandomState)
    ensures
        s == seeded_state(k0, k1, k2, k3),
{
    ahash::RandomState::with_seeds(k0, k1, k2, k3)
}

/// The hasher state of every [`BodyHasher`]: the one built from the fixed seeds.
pub open spec fn fixed_body_state() -> ahash::RandomState {
    seeded_state(IDEM_HASH_SEED_0, IDEM_HASH_SEED_1, IDEM_HASH_SEED_2, IDEM_HASH_SEED_3)
}

/// `RandomState::hash_one` of a string.  The value depends on the hasher's
/// keys and on the build (ahash picks its algorithm from the target's CPU
/// features), so nothing is stated about it.
#[verifier::external_body]
fn hash_one_str(state: &ahash::RandomState, text: &str) -> u64 {
    state.hash_one(text)
}

/// The hasher of request bodies; one is shared by every service of a process.
pub struct BodyHasher {
    state: ahash::RandomState,
}

impl BodyHasher {
    /// The hasher's state.
    pub closed spec fn spec_state(&self) -> ahash::RandomState {
        self.state
    }

    /// A hasher seeded with the fixed seeds: every hasher built here is the
    /// same hasher.
    pub fn new() -> (b: Self)
        ensures
            b.spec_state() == fixed_body_state(),
    {
        BodyHasher { state: seeded_random_state(IDEM_HASH_SEED_0, IDEM_HASH_SEED_1, IDEM_HASH_SEED_2, IDEM_HASH_SEED_3) }
    }

    /// The body identity of a request whose JSON is `json`: the hasher's
    /// hash of it in hex, `:`, and a prefix of the JSON (see [`body_hash_text`]).
    pub fn body_hash(&self, json: &str) -> (s: String)
        requires
            json.spec_bytes().len() <= usize::MAX,
            is_char_boundary(json.spec_bytes(), prefix_len(json)),
        ensures
            s@.len() >= 17,
            exists|h: u64| s@.subrange(0, 17) == #[trigger] hex_text(h as nat, 16) + ":"@,
            encode_utf8(s@.subrange(17, s@.len() as int)) == json.spec_bytes().subrange(0, prefix_len(json)),
    {
        let h = hash_one_str(&self.state, json);
        body_hash_text(h, json)
    }
}

/// What the service does next.
pub enum IdemStep<R> {
    /// Answer the caller with this error.
    Fail(LiterLlmError),
    /// Answer the caller with this stored response.
    Replay(R),
    /// No live entry: go on (insert a placeholder, or call the inner service).
    NoEntry,
}

/// What an existing live entry means for a request with `body_hash`: a
/// different body is a conflict, a stored response is replayed, and an
/// entry without response is still in flight.  Errors name the caller's
/// raw key, not the scoped store key.
pub open spec fn entry_step<R>(e: IdempotencyEntry<R>, body_hash: Seq<char>, raw_key: Seq<char>, step: IdemStep<R>) -> bool {
    if e.body_hash@ != body_hash {
        step matches IdemStep::Fail(LiterLlmError::IdempotencyConflict { key }) && key@ == raw_key
    } else if e.response is Some {
        step == IdemStep::Replay(e.response->0)
    } else {
        step matches IdemStep::Fail(LiterLlmError::IdempotencyInFlight { key }) && key@ == raw_key
    }
}

/// Decision after a store lookup.
pub fn after_lookup<R>(
    lookup: Result<Option<IdempotencyEntry<R>>, IdempotencyStoreError>,
    body_hash: &str,
    raw_key: &str,
) -> (step: IdemStep<R>)
    ensures
        lookup matches Err(IdempotencyStoreError::Backend(d)) ==> (step matches IdemStep::Fail(LiterLlmError::InternalError { message })
            && message@ == store_err_message(d@)),
        lookup matches Ok(None) ==> step is NoEntry,
        lookup matches Ok(Some(e)) ==> entry_step(e, body_hash@, raw_key@, step),
{
    match lookup {
        Err(e) => IdemStep::Fail(store_err(e)),
        Ok(None) => IdemStep::NoEntry,
        Ok(Some(entry)) => {
            let same = str_eq(entry.body_hash.as_str(), body_hash);
            if !same {
                IdemStep::Fail(LiterLlmError::IdempotencyConflict { key: String::from_str(raw_key) })
            } else {
                match entry.response {
                    Some(r) => IdemStep::Replay(r),
                    None => IdemStep::Fail(LiterLlmError::IdempotencyInFlight { key: String::from_str(raw_key) }),
                }
            }
        },
    }
}

/// What follows a placeholder insertion attempt.
pub enum InsertStep {
    /// Answer the caller with this error.
    Fail(LiterLlmError),
    /// This caller holds the placeholder: call the inner service.
    CallInner,
    /// Someone else won the race: read the entry again and decide with
    /// [`after_lookup`] (no live entry then means: call the inner service).
    Reread,
}

/// Decision after `try_insert`.
pub fn after_try_insert(inserted: Result<bool, IdempotencyStoreError>) -> (step: InsertStep)
    ensures
        inserted matches Err(IdempotencyStoreError::Backend(d)) ==> (step matches InsertStep::Fail(LiterLlmError::InternalError { message })
            && message@ == store_err_message(d@)),
        inserted == Ok::<bool, IdempotencyStoreError>(true) ==> step is CallInner,
        inserted == Ok::<bool, IdempotencyStoreError>(false) ==> step is Reread,
{
    match inserted {
        Err(e) => InsertStep::Fail(store_err(e)),
        Ok(true) => InsertStep::CallInner,
        Ok(false) => InsertStep::Reread,
    }
}

/// What the writer does with its placeholder once the inner service answered.
#[derive(Debug, Clone, Copy, PartialEq, Eq, Structural)]
pub enum Finalize {
    /// Store the (cacheable) response under the key.
    StoreResponse,
    /// Drop the placeholder so that later callers may retry.
    RemovePlaceholder,
}

/// A cacheable success is stored; anything else removes the placeholder.
pub fn after_inner(succeeded: bool, cacheable: bool) -> (f: Finalize)
    ensures
        f == (if succeeded && cacheable { Finalize::StoreResponse } else { Finalize::RemovePlaceholder }),
{
    if succeeded && cacheable { Finalize::StoreResponse } else { Finalize::RemovePlaceholder }
}

/// Default entry lifetime: 24 hours.
pub const DEFAULT_IDEMPOTENCY_TTL_MS: u64 = 86_400_000;

/// Layer that deduplicates requests sharing an idempotency key.
pub struct IdempotencyLayer<S> {
    store: Arc<S>,
    ttl_ms: u64,
    hasher: Arc<BodyHasher>,
}

impl<S> IdempotencyLayer<S> {
    /// The shared store.
    pub closed spec fn spec_store(&self) -> S {
        *self.store
    }

    /// Lifetime of new entries.
    pub closed spec fn spec_ttl_ms(&self) -> u64 {
        self.ttl_ms
    }

    /// The shared body hasher.
    pub closed spec fn spec_hasher(&self) -> BodyHasher {
        *self.hasher
    }

    /// A layer with the default 24-hour TTL.
    pub fn new(store: S) -> (l: Self)
        ensures
            l.spec_store() == store,
            l.spec_ttl_ms() == DEFAULT_IDEMPOTENCY_TTL_MS,
            l.spec_hasher().spec_state() == fixed_body_state(),
    {
        Self::with_ttl(store, DEFAULT_IDEMPOTENCY_TTL_MS)
    }

    /// A layer with an explicit TTL.
    pub fn with_ttl(store: S, ttl_ms: u64) -> (l: Self)
        ensures
            l.spec_store() == store,
            l.spec_ttl_ms() == ttl_ms,
            l.spec_hasher().spec_state() == fixed_body_state(),
    {
        IdempotencyLayer { store: Arc::new(store), ttl_ms, hasher: Arc::new(BodyHasher::new()) }
    }

    /// Lifetime of new entries.
    pub fn ttl_ms(&self) -> (t: u64)
        ensures
            t == self.spec_ttl_ms(),
    {
        self.ttl_ms
    }

    /// The shared store.
    pub fn store(&self) -> (s: &Arc<S>)
        ensures
            **s == self.spec_store(),
    {
        &self.store
    }

    /// The body hasher shared by the services of this layer.
    pub fn hasher(&self) -> (h: &Arc<BodyHasher>)
        ensures
            **h == self.spec_hasher(),
    {
        &self.hasher
    }
}

/// Against a live entry under the key: a repeat of the same body while the
/// first request is in flight is refused as in flight, once its response is
/// stored the response is replayed, and a different body under the same
/// key is refused as a conflict.
pub proof fn law_idempotency_repeat<R>(
    m: Map<Seq<char>, IdempotencyEntry<R>>,
    key: Seq<char>,
    body_hash: Seq<char>,
    other_hash: Seq<char>,
    raw_key: Seq<char>,
    response: R,
    step_same: IdemStep<R>,
    step_other: IdemStep<R>,
    step_stored: IdemStep<R>,
)
    requires
        m.contains_key(key),
        m[key].body_hash@ == body_hash,
        other_hash != body_hash,
        entry_step(m[key], body_hash, raw_key, step_same),
        entry_step(m[key], other_hash, raw_key, step_other),
        entry_step(IdempotencyEntry { response: Some(response), ..m[key] }, body_hash, raw_key, step_stored),
    ensures
        m[key].response is None ==> (step_same matches IdemStep::Fail(LiterLlmError::IdempotencyInFlight { key: k }) && k@ == raw_key),
        m[key].response matches Some(r) ==> step_same == IdemStep::Replay(r),
        step_other matches IdemStep::Fail(LiterLlmError::IdempotencyConflict { key: k }) && k@ == raw_key,
        step_stored == IdemStep::Replay(response),
{
}

/// Tenants never share an idempotency entry: the same raw key under two
/// different tenants (neither containing `:`) gives two different store
/// keys.
pub proof fn law_idempotency_tenant_isolation(t1: Seq<char>, t2: Seq<char>, raw: Seq<char>)
    requires
        t1 != t2,
        forall|i: int| 0 <= i < t1.len() ==> t1[i] != ':',
        forall|i: int| 0 <= i < t2.len() ==> t2[i] != ':',
    ensures
        scoped_key_text(Some(t1), raw) != scoped_key_text(Some(t2), raw),
{
    reveal_strlit(":");
    let k1 = scoped_key_text(Some(t1), raw);
    let k2 = scoped_key_text(Some(t2), raw);
    if k1 == k2 {
        if t1.len() < t2.len() {
            assert(k1[t1.len() as int] == ':');
            assert(k2[t1.len() as int] == t2[t1.len() as int]);
        } else if t2.len() < t1.len() {
            assert(k2[t2.len() as int] == ':');
            assert(k1[t2.len() as int] == t1[t2.len() as int]);
        } else {
            assert forall|i: int| 0 <= i < t1.len() implies t1[i] == t2[i] by {
                assert(k1[i] == t1[i]);
                assert(k2[i] == t2[i]);
            }
            assert(t1 =~= t2);
        }
    }
}

} // verus!
