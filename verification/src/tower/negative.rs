//! Negative caching: remembering an upstream error for a while so that
//! repeated callers are answered from the cache instead of hammering a
//! provider that is already struggling.
//!
//! A [`NegativeCachePolicy`] decides whether, and for how many milliseconds,
//! an error is remembered.  The stored entry is an `InternalError` carrying
//! the rendered text of the original error, with an expiry time.

use vstd::prelude::*;
use crate::error::{LiterLlmError, spec_is_transient};

verus! {

/// Decides whether and for how long to cache an upstream error.
pub trait NegativeCachePolicy {
    /// How long `error` is cached, in milliseconds; `None` when it is not cached.
    spec fn spec_cache_for(&self, error: LiterLlmError) -> Option<u64>;

    /// Inspect `error` and return how long it should be cached
    /// (`None`: do not cache, let callers retry immediately).
    fn cache_for(&self, error: &LiterLlmError) -> (r: Option<u64>)
        ensures
            r == self.spec_cache_for(*error),
    ;
}

/// Caches errors for a fixed window; when `retryable_only` holds, only
/// transient errors are cached.
pub struct FixedWindowNegativeCache {
    window_ms: u64,
    retryable_only: bool,
}

impl FixedWindowNegativeCache {
    /// The caching window in milliseconds.
    pub closed spec fn spec_window_ms(&self) -> u64 {
        self.window_ms
    }

    /// Whether only transient errors are cached.
    pub closed spec fn spec_retryable_only(&self) -> bool {
        self.retryable_only
    }

    /// A policy with the given window and filter.
    pub fn new(window_ms: u64, retryable_only: bool) -> (p: Self)
        ensures
            p.spec_window_ms() == window_ms,
            p.spec_retryable_only() == retryable_only,
    {
        FixedWindowNegativeCache { window_ms, retryable_only }
    }
}

impl Default for FixedWindowNegativeCache {
    /// Cache only transient errors, for 5 seconds.
    fn default() -> (p: Self)
        ensures
            p.spec_window_ms() == 5000,
            p.spec_retryable_only(),
    {
        FixedWindowNegativeCache { window_ms: 5000, retryable_only: true }
    }
}

impl NegativeCachePolicy for FixedWindowNegativeCache {
    open spec fn spec_cache_for(&self, error: LiterLlmError) -> Option<u64> {
        if !self.spec_retryable_only() || spec_is_transient(error) {
            Some(self.spec_window_ms())
        } else {
            None
        }
    }

    fn cache_for(&self, error: &LiterLlmError) -> (r: Option<u64>)
        ensures
            !self.spec_retryable_only() ==> r == Some(self.spec_window_ms()),
            self.spec_retryable_only() && (*error is RateLimited || *error is ServiceUnavailable || *error is Timeout
                || *error is ServerError || *error is Network) ==> r == Some(self.spec_window_ms()),
            self.spec_retryable_only() && !(*error is RateLimited || *error is ServiceUnavailable || *error is Timeout
                || *error is ServerError || *error is Network) ==> r is None,
    {
        let eligible = if self.retryable_only { error.is_transient() } else { true };
        if eligible {
            Some(self.window_ms)
        } else {
            None
        }
    }
}

/// What the fixed-window policy caches, for every policy and error: with
/// `retryable_only`, the transient errors (rate limited, service
/// unavailable, timeout, server error, network) are cached for exactly the
/// window and every other error is not cached; without it, every error is
/// cached for the window.
pub proof fn law_fixed_window_negative_cache(p: FixedWindowNegativeCache, e: LiterLlmError)
    ensures
        p.spec_retryable_only() && (e is RateLimited || e is ServiceUnavailable || e is Timeout || e is ServerError
            || e is Network) ==> p.spec_cache_for(e) == Some(p.spec_window_ms()),
        p.spec_retryable_only() && !(e is RateLimited || e is ServiceUnavailable || e is Timeout || e is ServerError
            || e is Network) ==> p.spec_cache_for(e) is None,
        !p.spec_retryable_only() ==> p.spec_cache_for(e) == Some(p.spec_window_ms()),
{
}

/// A remembered error and the time (ms) until which it is served.
pub struct NegativeEntry {
    /// The error handed to later callers.
    pub error: LiterLlmError,
    /// End of the caching window.
    pub expires_at_ms: u64,
}

/// What a call's outcome writes to the cache.  For an error that the policy
/// caches, and a request that has a cache key, the result is the key, the
/// request body and an entry holding an `InternalError` whose message is
/// `rendered` (the error's text), expiring `window` after `now_ms`.
/// Otherwise nothing is written.  The outcome itself is always returned to
/// the caller unchanged.
pub fn negative_cache_write<P: NegativeCachePolicy, T>(
    policy: &P,
    outcome: &Result<T, LiterLlmError>,
    key_and_body: Option<(u64, String)>,
    rendered: String,
    now_ms: u64,
) -> (w: Option<(u64, String, NegativeEntry)>)
    requires
        outcome matches Err(e) ==> (policy.spec_cache_for(*e) matches Some(win) ==> now_ms + win <= u64::MAX),
    ensures
        w is Some <==> (outcome matches Err(e) && policy.spec_cache_for(*e) is Some && key_and_body is Some),
        w matches Some((key, body, entry)) ==> {
            &&& outcome matches Err(e) && policy.spec_cache_for(*e) matches Some(win)
                && entry.expires_at_ms == now_ms + win
            &&& key_and_body == Some((key, body))
            &&& entry.error matches LiterLlmError::InternalError { message } && message@ == rendered@
        },
{
    match outcome {
        Ok(_) => None,
        Err(e) => match policy.cache_for(e) {
            None => None,
            Some(window) => match key_and_body {
                None => None,
                Some((key, body)) => {
                    let entry = NegativeEntry {
                        error: LiterLlmError::InternalError { message: rendered },
                        expires_at_ms: now_ms + window,
                    };
                    Some((key, body, entry))
                },
            },
        },
    }
}

/// A remembered error is served while `now` is before its expiry.
pub fn negative_entry_live(entry: &NegativeEntry, now_ms: u64) -> (b: bool)
    ensures
        b == (now_ms < entry.expires_at_ms),
{
    now_ms < entry.expires_at_ms
}

} // verus!
