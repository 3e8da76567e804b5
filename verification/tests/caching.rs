use std::collections::HashMap;
use std::hash::{DefaultHasher, Hash, Hasher};

use liter_llm::error::LiterLlmError;
use liter_llm::tower::cache::{cache_key, CacheBackend, CacheConfig, InMemoryStore};
use liter_llm::tower::cache_opendal::{stored_entry_lookup, OpenDalCacheStore, StoredLookup};
use liter_llm::tower::cache_policy::{
    equals_ignore_ascii_case, CacheDecision, CachePolicyContext, StandardCachePolicy,
};
use liter_llm::tower::idempotency::{
    after_inner, after_lookup, after_try_insert, body_hash_text, scoped_key, store_err, BodyHasher, Finalize,
    IdemStep, IdempotencyEntry, IdempotencyLayer, IdempotencyStoreError, InMemoryIdempotencyStore, InsertStep,
    DEFAULT_IDEMPOTENCY_TTL_MS,
};
use liter_llm::tower::negative::{
    negative_cache_write, negative_entry_live, FixedWindowNegativeCache, NegativeCachePolicy,
};
use liter_llm::tower::request::{is_cacheable_kind, RequestKind};
use liter_llm::tower::singleflight::{
    follower_step, leader_publication, singleflight_key, FollowerEvent, FollowerStep, Role, SingleflightTable,
};

fn std_hash(s: &str) -> u64 {
    let mut h = DefaultHasher::new();
    s.to_string().hash(&mut h);
    h.finish()
}

#[test]
fn cache_config_defaults() {
    let c = CacheConfig::default();
    assert_eq!(c.max_entries, 256);
    assert_eq!(c.ttl_ms, 300_000);
    assert!(matches!(c.backend, CacheBackend::Memory));
}

#[test]
fn cache_key_is_default_hash_of_body() {
    let (k, body) = cache_key(Some("{\"model\":\"gpt-4\"}".to_string())).unwrap();
    assert_eq!(body, "{\"model\":\"gpt-4\"}");
    assert_eq!(k, std_hash("{\"model\":\"gpt-4\"}"));
    assert!(cache_key(None).is_none());
}

#[test]
fn cache_returns_cached_response_within_ttl() {
    let mut store: InMemoryStore<u32> = InMemoryStore::new(&CacheConfig { max_entries: 4, ttl_ms: 1000, backend: CacheBackend::Memory });
    store.insert(1, "body".to_string(), 42, 0);
    assert_eq!(store.get_if_valid(1, "body", 1000), Some(&42));
    assert_eq!(store.get_if_valid(1, "other body", 10), None);
    assert_eq!(store.get(1, "body", 500), Some(42));
    assert_eq!(store.get(1, "body", 1001), None);
    assert!(!store.is_expired(1, 1001), "expired entry is dropped on lookup");
}

#[test]
fn cache_evicts_oldest_first() {
    let mut store: InMemoryStore<u32> = InMemoryStore::new(&CacheConfig { max_entries: 2, ttl_ms: 1000, backend: CacheBackend::Memory });
    store.insert(1, "a".to_string(), 1, 0);
    store.insert(2, "b".to_string(), 2, 0);
    store.insert(3, "c".to_string(), 3, 0);
    assert_eq!(store.get_if_valid(1, "a", 0), None);
    assert_eq!(store.get_if_valid(2, "b", 0), Some(&2));
    assert_eq!(store.get_if_valid(3, "c", 0), Some(&3));
    // Re-inserting an existing key refreshes it without counting twice.
    store.insert(2, "b".to_string(), 20, 0);
    store.insert(4, "d".to_string(), 4, 0);
    assert_eq!(store.get_if_valid(3, "c", 0), None);
    assert_eq!(store.get_if_valid(2, "b", 0), Some(&20));
    store.remove(2);
    assert_eq!(store.get_if_valid(2, "b", 0), None);
}

#[test]
fn negative_cache_skips_non_transient_errors_by_default() {
    let policy = FixedWindowNegativeCache::default();
    assert_eq!(policy.cache_for(&LiterLlmError::Authentication { message: String::new() }), None);
    assert_eq!(policy.cache_for(&LiterLlmError::Timeout), Some(5000));
    let outcome: Result<(), LiterLlmError> = Err(LiterLlmError::BadRequest { message: String::new(), status: 400 });
    assert!(negative_cache_write(&policy, &outcome, Some((1, "b".to_string())), "bad".to_string(), 0).is_none());
}

#[test]
fn negative_cache_stores_rate_limited_for_window() {
    let policy = FixedWindowNegativeCache::new(30_000, true);
    let outcome: Result<(), LiterLlmError> =
        Err(LiterLlmError::RateLimited { message: "slow down".to_string(), retry_after_ms: None });
    let (key, body, entry) =
        negative_cache_write(&policy, &outcome, Some((7, "body".to_string())), "rate limited: slow down".to_string(), 100)
            .expect("a rate-limit error is cached");
    assert_eq!(key, 7);
    assert_eq!(body, "body");
    assert_eq!(entry.expires_at_ms, 30_100);
    assert!(negative_entry_live(&entry, 30_099));
    assert!(!negative_entry_live(&entry, 30_100));
    match entry.error {
        LiterLlmError::InternalError { message } => assert_eq!(message, "rate limited: slow down"),
        other => panic!("unexpected {other:?}"),
    }
    // Nothing is written without a key, or for a success.
    assert!(negative_cache_write(&policy, &outcome, None, String::new(), 0).is_none());
    let ok: Result<(), LiterLlmError> = Ok(());
    assert!(negative_cache_write(&policy, &ok, Some((1, String::new())), String::new(), 0).is_none());
    // Caching every error when not restricted to transient ones.
    let all = FixedWindowNegativeCache::new(10, false);
    assert_eq!(all.cache_for(&LiterLlmError::Authentication { message: String::new() }), Some(10));
}

#[test]
fn store_try_insert_wins_first_caller() {
    let mut store: InMemoryIdempotencyStore<u8> = InMemoryIdempotencyStore::new();
    assert!(store.get("missing-key", 0).is_none());
    assert!(store.try_insert("k1", "hash1", 60_000, 0));
    assert!(!store.try_insert("k1", "hash1", 60_000, 1));
    let e = store.get("k1", 1).unwrap();
    assert_eq!(e.body_hash, "hash1");
    assert!(e.response.is_none());
}

#[test]
fn store_try_insert_wins_after_expiry() {
    let mut store: InMemoryIdempotencyStore<u8> = InMemoryIdempotencyStore::new();
    assert!(store.try_insert("k2", "hash", 1, 0));
    assert!(store.get("k2", 2).is_none(), "expired entry must not be returned");
    assert!(store.try_insert("k2", "hash", 60_000, 2));
}

#[test]
fn store_response_and_remove() {
    let mut store: InMemoryIdempotencyStore<u8> = InMemoryIdempotencyStore::new();
    store.try_insert("k", "h", 60_000, 0);
    store.store_response("k", 9);
    assert_eq!(store.get("k", 1).unwrap().response, Some(9));
    store.remove("k");
    assert!(store.get("k", 1).is_none());
    store.store_response("absent", 1);
    assert!(store.get("absent", 1).is_none());
}

fn entry(hash: &str, response: Option<u8>) -> IdempotencyEntry<u8> {
    IdempotencyEntry { body_hash: hash.to_string(), response, inserted_at_ms: 0, ttl_ms: 1000 }
}

#[test]
fn idempotency_decisions() {
    assert!(matches!(after_lookup::<u8>(Ok(None), "h", "key"), IdemStep::NoEntry));
    assert!(matches!(after_lookup(Ok(Some(entry("h", Some(3)))), "h", "key"), IdemStep::Replay(3)));
    match after_lookup(Ok(Some(entry("h", None))), "h", "key") {
        IdemStep::Fail(LiterLlmError::IdempotencyInFlight { key }) => assert_eq!(key, "key"),
        _ => panic!("expected in-flight"),
    }
    match after_lookup(Ok(Some(entry("other", Some(3)))), "h", "key") {
        IdemStep::Fail(LiterLlmError::IdempotencyConflict { key }) => assert_eq!(key, "key"),
        _ => panic!("expected conflict"),
    }
    match after_lookup::<u8>(Err(IdempotencyStoreError::Backend("down".to_string())), "h", "key") {
        IdemStep::Fail(LiterLlmError::InternalError { message }) => {
            assert_eq!(message, "idempotency store: idempotency store backend error: down")
        }
        _ => panic!("expected store error"),
    }
    assert!(matches!(after_try_insert(Ok(true)), InsertStep::CallInner));
    assert!(matches!(after_try_insert(Ok(false)), InsertStep::Reread));
    assert!(matches!(after_try_insert(Err(IdempotencyStoreError::Backend(String::new()))), InsertStep::Fail(_)));
    assert_eq!(after_inner(true, true), Finalize::StoreResponse);
    assert_eq!(after_inner(true, false), Finalize::RemovePlaceholder);
    assert_eq!(after_inner(false, true), Finalize::RemovePlaceholder);
    assert!(matches!(store_err(IdempotencyStoreError::Backend("x".to_string())), LiterLlmError::InternalError { .. }));
}

#[test]
fn idempotency_tenant_scoped_keys_dont_collide() {
    assert_eq!(scoped_key(Some("tenant-a"), "k"), "tenant-a:k");
    assert_eq!(scoped_key(Some("tenant-b"), "k"), "tenant-b:k");
    assert_eq!(scoped_key(None, "k"), "_:k");
}

#[test]
fn idempotency_body_hash_format() {
    assert_eq!(body_hash_text(0xab, "{\"a\":1}"), "00000000000000ab:{\"a\":1}");
    let long = "x".repeat(100);
    let h = body_hash_text(u64::MAX, &long);
    assert_eq!(h, format!("ffffffffffffffff:{}", "x".repeat(64)));
}

#[test]
fn idempotency_body_hash_deterministic_across_instances() {
    let hasher = BodyHasher::new();
    let a = hasher.body_hash("{\"model\":\"gpt-4\"}");
    let b = hasher.body_hash("{\"model\":\"gpt-4\"}");
    let c = hasher.body_hash("{\"model\":\"gpt-3\"}");
    assert_eq!(a, b);
    for _ in 0..10 {
        assert_eq!(BodyHasher::new().body_hash("{\"model\":\"gpt-4\"}"), a, "ahash seed is not fixed");
    }
    assert_ne!(a, c);
    assert!(a.ends_with(":{\"model\":\"gpt-4\"}"));
    assert_eq!(a.len(), 17 + "{\"model\":\"gpt-4\"}".len());
}

#[test]
fn idempotency_layer_ttl() {
    let layer = IdempotencyLayer::new(InMemoryIdempotencyStore::<u8>::new());
    assert_eq!(layer.ttl_ms(), DEFAULT_IDEMPOTENCY_TTL_MS);
    assert_eq!(DEFAULT_IDEMPOTENCY_TTL_MS, 24 * 60 * 60 * 1000);
    assert_eq!(IdempotencyLayer::with_ttl(0u8, 5).ttl_ms(), 5);
}

#[test]
fn cacheable_kinds() {
    assert!(is_cacheable_kind(&RequestKind::Chat));
    assert!(is_cacheable_kind(&RequestKind::Embed));
    assert!(!is_cacheable_kind(&RequestKind::ChatStream));
    assert!(!is_cacheable_kind(&RequestKind::ListModels));
}

#[test]
fn singleflight_one_leader_per_key() {
    let mut t = SingleflightTable::new();
    assert_eq!(t.join(5), Role::Leader);
    assert_eq!(t.join(5), Role::Follower);
    assert_eq!(t.join(6), Role::Leader);
    t.complete(5);
    assert_eq!(t.join(5), Role::Leader);
}

#[test]
fn singleflight_key_only_for_chat_and_embed() {
    assert_eq!(singleflight_key(RequestKind::Chat, Some("{}")), Some(std_hash("{}")));
    assert_eq!(singleflight_key(RequestKind::Embed, Some("{}")), Some(std_hash("{}")));
    assert_eq!(singleflight_key(RequestKind::ListModels, Some("{}")), None);
    assert_eq!(singleflight_key(RequestKind::Chat, None), None);
}

#[test]
fn singleflight_leader_and_follower_steps() {
    assert!(matches!(leader_publication(Ok::<Option<u8>, LiterLlmError>(Some(1))), Ok(1)));
    match leader_publication(Ok::<Option<u8>, LiterLlmError>(None)) {
        Err(LiterLlmError::InternalError { message }) => {
            assert_eq!(message, "singleflight: non-cacheable response variant in leader")
        }
        other => panic!("unexpected {other:?}"),
    }
    assert!(matches!(leader_publication::<u8>(Err(LiterLlmError::Timeout)), Err(LiterLlmError::Timeout)));
    assert!(matches!(follower_step(FollowerEvent::Received(Ok(2u8)), false), FollowerStep::Answer(Ok(2))));
    assert!(matches!(follower_step::<u8>(FollowerEvent::Lagged, false), FollowerStep::Resubscribe));
    match follower_step::<u8>(FollowerEvent::Lagged, true) {
        FollowerStep::Answer(Err(LiterLlmError::InternalError { message })) => {
            assert_eq!(message, "singleflight: follower lagged and retry also failed")
        }
        _ => panic!("unexpected step"),
    }
    match follower_step::<u8>(FollowerEvent::Closed, false) {
        FollowerStep::Answer(Err(LiterLlmError::InternalError { message })) => {
            assert_eq!(message, "singleflight: leader closed channel without sending a result")
        }
        _ => panic!("unexpected step"),
    }
}

fn policy_ctx<'a>(stream: bool, meta: &'a HashMap<String, String>) -> CachePolicyContext<'a> {
    CachePolicyContext { model: "gpt-4", tenant_id: None, stream, metadata: meta }
}

#[test]
fn standard_policy_exact_tier_enabled_by_default() {
    let policy = StandardCachePolicy::default();
    let meta = HashMap::new();
    let d = policy.decide(&policy_ctx(false, &meta));
    assert!(d.use_exact);
    assert!(!d.use_semantic);
    assert!(!d.bypass);
    assert_eq!(d.ttl_override_ms, Some(300_000));
}

#[test]
fn standard_policy_semantic_tier_disabled_when_no_semantic_ttl() {
    let policy = StandardCachePolicy::default();
    let meta = HashMap::new();
    let d = policy.decide(&policy_ctx(false, &meta));
    assert!(!d.use_semantic, "semantic tier should be off when semantic_ttl is None");
}

#[test]
fn standard_policy_semantic_tier_enabled_when_semantic_ttl_set() {
    let policy = StandardCachePolicy { semantic_ttl_ms: Some(120_000), ..Default::default() };
    let meta = HashMap::new();
    let d = policy.decide(&policy_ctx(false, &meta));
    assert!(d.use_semantic);
}

#[test]
fn standard_policy_bypass_on_no_store_header() {
    let policy = StandardCachePolicy::default();
    let mut meta = HashMap::new();
    meta.insert("cache".to_string(), "no-store".to_string());
    let d = policy.decide(&policy_ctx(false, &meta));
    assert!(d.bypass, "should bypass when cache=no-store is present");
    assert!(d.ttl_override_ms.is_none(), "TTL override should be cleared when bypassing");
}

#[test]
fn standard_policy_no_bypass_when_bypass_on_no_store_is_false() {
    let policy = StandardCachePolicy { bypass_on_no_store: false, ..Default::default() };
    let mut meta = HashMap::new();
    meta.insert("cache".to_string(), "no-store".to_string());
    let d = policy.decide(&policy_ctx(false, &meta));
    assert!(!d.bypass, "should not bypass when bypass_on_no_store=false");
}

#[test]
fn standard_policy_ttl_override_populated_when_not_bypassing() {
    let policy = StandardCachePolicy { exact_ttl_ms: 42_000, ..Default::default() };
    let meta = HashMap::new();
    let d = policy.decide(&policy_ctx(false, &meta));
    assert_eq!(d.ttl_override_ms, Some(42_000));
}

#[test]
fn standard_policy_streaming_replay_when_stream_is_true() {
    let policy = StandardCachePolicy::default();
    let meta = HashMap::new();
    let d = policy.decide(&policy_ctx(true, &meta));
    assert!(d.use_streaming_replay);
}

#[test]
fn standard_policy_bypass_on_no_store_case_insensitive() {
    let policy = StandardCachePolicy::default();
    let mut meta = HashMap::new();
    meta.insert("cache".to_string(), "No-Store".to_string());
    let d = policy.decide(&policy_ctx(true, &meta));
    assert!(d.bypass);
    assert!(d.ttl_override_ms.is_none());
    assert!(d.use_streaming_replay);
    let relaxed = StandardCachePolicy { bypass_on_no_store: false, semantic_ttl_ms: Some(120_000), ..Default::default() };
    let d = relaxed.decide(&policy_ctx(false, &meta));
    assert!(!d.bypass);
    assert!(d.use_semantic);
    assert_eq!(CacheDecision::default().use_exact, true);
    assert!(equals_ignore_ascii_case("NO-store", "no-STORE"));
    assert!(!equals_ignore_ascii_case("no-store", "no-stor"));
}

#[test]
fn from_config_rejects_unknown_scheme() {
    let result = OpenDalCacheStore::from_config("nonexistent_backend_xyz", HashMap::new(), "prefix/".to_string(), 60);
    assert!(result.is_err(), "expected error for unknown scheme");
    match result {
        Err(LiterLlmError::InternalError { message }) => {
            assert!(message.starts_with("failed to build OpenDAL operator for 'nonexistent_backend_xyz': "))
        }
        _ => panic!("expected an internal error"),
    }
}

#[test]
fn object_store_paths_expiry_and_lookup() {
    let store = OpenDalCacheStore::from_config("memory", HashMap::new(), "llm/".to_string(), 60).expect("memory scheme");
    assert_eq!(store.key_path(42), "llm/42");
    assert_eq!(store.ttl_secs(), 60);
    assert_eq!(store.expiry(1_000), 1_060);
    assert_eq!(stored_entry_lookup(100, "body", "body", 100), StoredLookup::Hit);
    assert_eq!(stored_entry_lookup(100, "body", "body", 101), StoredLookup::Expired);
    assert_eq!(stored_entry_lookup(100, "body", "other", 50), StoredLookup::BodyMismatch);
    let failed = OpenDalCacheStore::from_operator_result("s3", Err("bad region".to_string()), "p/".to_string(), 1);
    match failed {
        Err(LiterLlmError::InternalError { message }) => {
            assert_eq!(message, "failed to build OpenDAL operator for 's3': bad region")
        }
        _ => panic!("expected an internal error"),
    }
}

#[test]
fn idempotency_layer_hasher_is_the_fixed_hasher() {
    let layer = IdempotencyLayer::new(InMemoryIdempotencyStore::<u8>::new());
    let body = "{\"model\":\"gpt-4\"}";
    assert_eq!(layer.hasher().body_hash(body), BodyHasher::new().body_hash(body));
}
