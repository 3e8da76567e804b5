//! Per-request cache policy: which cache tiers to use and for how long.
//!
//! The standard policy always uses the exact tier, uses the semantic tier
//! when it has a semantic TTL, replays streams for streaming requests, and
//! bypasses the cache when the request metadata says `cache: no-store`
//! (compared ignoring ASCII case).  Durations are milliseconds; the
//! similarity threshold of the semantic tier is kept by the caller.

use vstd::prelude::*;
use vstd::string::*;
use std::collections::HashMap;
use crate::util::string_map::string_map_get;

verus! {

/// What the policy sees of a request.
pub struct CachePolicyContext<'a> {
    /// The model name.
    pub model: &'a str,
    /// The tenant, if any.
    pub tenant_id: Option<&'a str>,
    /// Whether the request is streaming.
    pub stream: bool,
    /// Request metadata.
    pub metadata: &'a HashMap<String, String>,
}

/// Code point of the ASCII lowercase of a character.
pub open spec fn ascii_lower(c: char) -> int {
    if 'A' <= c && c <= 'Z' { (c as u32) + 32 } else { c as u32 as int }
}

/// Equality ignoring ASCII case (`str::eq_ignore_ascii_case`).
pub open spec fn eq_ignore_ascii_case(a: Seq<char>, b: Seq<char>) -> bool {
    a.len() == b.len() && forall|i: int| 0 <= i < a.len() ==> ascii_lower(#[trigger] a[i]) == ascii_lower(b[i])
}

fn ascii_lower_char(c: char) -> (r: u32)
    ensures
        r == ascii_lower(c),
{
    if 'A' <= c && c <= 'Z' { (c as u32) + 32 } else { c as u32 }
}

/// Compare two strings ignoring ASCII case.
pub fn equals_ignore_ascii_case(a: &str, b: &str) -> (r: bool)
    ensures
        r == eq_ignore_ascii_case(a@, b@),
{
    let n = a.unicode_len();
    if n != b.unicode_len() {
        return false;
    }
    let mut i: usize = 0;
    while i < n
        invariant
            n == a@.len(),
            n == b@.len(),
            i <= n,
            forall|j: int| 0 <= j < i ==> ascii_lower(#[trigger] a@[j]) == ascii_lower(b@[j]),
        decreases n - i,
    {
        if ascii_lower_char(a.get_char(i)) != ascii_lower_char(b.get_char(i)) {
            return false;
        }
        i = i + 1;
    }
    true
}

/// A cache decision.
#[derive(Debug, Clone, Copy, PartialEq, Eq, Structural)]
pub struct CacheDecision {
    /// Consult the exact-match tier.
    pub use_exact: bool,
    /// Consult the semantic tier.
    pub use_semantic: bool,
    /// Replay cached streams.
    pub use_streaming_replay: bool,
    /// Skip every tier.
    pub bypass: bool,
    /// TTL for the entry written by this request.
    pub ttl_override_ms: Option<u64>,
    /// Serve stale entries while revalidating, for this long.
    pub stale_while_revalidate_ms: Option<u64>,
}

impl Default for CacheDecision {
    /// Exact tier only, no bypass, no overrides.
    fn default() -> (d: Self)
        ensures
            d == (CacheDecision { use_exact: true, use_semantic: false, use_streaming_replay: false, bypass: false,
                ttl_override_ms: None, stale_while_revalidate_ms: None }),
    {
        CacheDecision { use_exact: true, use_semantic: false, use_streaming_replay: false, bypass: false,
            ttl_override_ms: None, stale_while_revalidate_ms: None }
    }
}

/// The standard policy.
#[derive(Debug, Clone, Copy, PartialEq, Eq, Structural)]
pub struct StandardCachePolicy {
    /// TTL of exact entries.
    pub exact_ttl_ms: u64,
    /// TTL of semantic entries; `None` disables the semantic tier.
    pub semantic_ttl_ms: Option<u64>,
    /// Honour `cache: no-store` in the metadata.
    pub bypass_on_no_store: bool,
}

impl Default for StandardCachePolicy {
    /// Five-minute exact TTL, no semantic tier, `no-store` honoured.
    fn default() -> (p: Self)
        ensures
            p == (StandardCachePolicy { exact_ttl_ms: 300_000, semantic_ttl_ms: None, bypass_on_no_store: true }),
    {
        StandardCachePolicy { exact_ttl_ms: 300_000, semantic_ttl_ms: None, bypass_on_no_store: true }
    }
}

/// The standard decision, given the metadata's `cache` value.
pub open spec fn standard_decision(p: StandardCachePolicy, cache_value: Option<Seq<char>>, stream: bool) -> CacheDecision {
    let bypass = p.bypass_on_no_store && (cache_value matches Some(v) && eq_ignore_ascii_case(v, "no-store"@));
    CacheDecision {
        use_exact: true,
        use_semantic: p.semantic_ttl_ms is Some,
        use_streaming_replay: stream,
        bypass,
        ttl_override_ms: if bypass { None } else { Some(p.exact_ttl_ms) },
        stale_while_revalidate_ms: None,
    }
}

/// What the standard policy decides, for every policy, `cache` value and
/// stream flag: the exact tier is always consulted; the semantic tier
/// exactly when a semantic TTL is configured; cached streams are replayed
/// exactly for streaming requests; the cache is bypassed only when the
/// policy honours `no-store` and the request carries a `cache` value, and
/// always for the value `no-store`; a request that is not bypassed writes
/// with the exact TTL; nothing is served stale.
pub proof fn law_standard_decision(p: StandardCachePolicy, cache_value: Option<Seq<char>>, stream: bool)
    ensures
        standard_decision(p, cache_value, stream).use_exact,
        standard_decision(p, cache_value, stream).use_semantic <==> p.semantic_ttl_ms is Some,
        standard_decision(p, cache_value, stream).use_streaming_replay == stream,
        standard_decision(p, cache_value, stream).bypass ==> p.bypass_on_no_store && cache_value is Some,
        p.bypass_on_no_store && cache_value == Some("no-store"@) ==> standard_decision(p, cache_value, stream).bypass,
        !standard_decision(p, cache_value, stream).bypass
            ==> standard_decision(p, cache_value, stream).ttl_override_ms == Some(p.exact_ttl_ms),
        standard_decision(p, cache_value, stream).bypass ==> standard_decision(p, cache_value, stream).ttl_override_ms is None,
        standard_decision(p, cache_value, stream).stale_while_revalidate_ms is None,
{
}

/// The `cache` value is read ignoring ASCII case: two values that differ
/// only in the case of ASCII letters lead to the same decision, and a value
/// of another length than `no-store` never bypasses the cache.
pub proof fn law_standard_decision_case_blind(p: StandardCachePolicy, v1: Seq<char>, v2: Seq<char>, stream: bool)
    ensures
        eq_ignore_ascii_case(v1, v2) ==> standard_decision(p, Some(v1), stream) == standard_decision(p, Some(v2), stream),
        v1.len() != 8 ==> !standard_decision(p, Some(v1), stream).bypass,
{
    reveal_strlit("no-store");
    let ns = "no-store"@;
    if eq_ignore_ascii_case(v1, v2) {
        if eq_ignore_ascii_case(v1, ns) {
            assert forall|i: int| 0 <= i < v2.len() implies ascii_lower(#[trigger] v2[i]) == ascii_lower(ns[i]) by {
                assert(ascii_lower(v1[i]) == ascii_lower(v2[i]));
            }
        }
        if eq_ignore_ascii_case(v2, ns) {
            assert forall|i: int| 0 <= i < v1.len() implies ascii_lower(#[trigger] v1[i]) == ascii_lower(ns[i]) by {
                assert(ascii_lower(v1[i]) == ascii_lower(v2[i]));
            }
        }
    }
}

impl StandardCachePolicy {
    /// The decision for a request whose metadata `cache` value is `cache_value`.
    pub fn decide_with(&self, cache_value: Option<&str>, stream: bool) -> (d: CacheDecision)
        ensures
            d == standard_decision(*self, match cache_value { Some(v) => Some(v@), None => None }, stream),
            d.use_exact,
            d.use_semantic == self.semantic_ttl_ms is Some,
            d.use_streaming_replay == stream,
    {
        let no_store = match cache_value {
            Some(v) => equals_ignore_ascii_case(v, "no-store"),
            None => false,
        };
        let bypass = self.bypass_on_no_store && no_store;
        CacheDecision {
            use_exact: true,
            use_semantic: self.semantic_ttl_ms.is_some(),
            use_streaming_replay: stream,
            bypass,
            ttl_override_ms: if bypass { None } else { Some(self.exact_ttl_ms) },
            stale_while_revalidate_ms: None,
        }
    }

    /// The decision for a request: the `cache` entry of its metadata
    /// decides the bypass.
    pub fn decide(&self, ctx: &CachePolicyContext) -> (d: CacheDecision)
        ensures
            (forall|k: String| k@ == "cache"@ ==> !#[trigger] ctx.metadata@.contains_key(k))
                ==> d == standard_decision(*self, None, ctx.stream),
            (exists|k: String| k@ == "cache"@ && #[trigger] ctx.metadata@.contains_key(k))
                ==> exists|k: String| k@ == "cache"@ && #[trigger] ctx.metadata@.contains_key(k)
                    && d == standard_decision(*self, Some(ctx.metadata@[k]@), ctx.stream),
            d.use_exact,
            d.use_semantic == self.semantic_ttl_ms is Some,
            d.use_streaming_replay == ctx.stream,
    {
        let v = string_map_get(ctx.metadata, "cache");
        match v {
            Some(s) => self.decide_with(Some(s.as_str()), ctx.stream),
            None => self.decide_with(None, ctx.stream),
        }
    }
}

} // verus!
