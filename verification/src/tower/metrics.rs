//! Metrics helpers and the metrics layer.  Without a configured meter every
//! helper records nothing and the layer passes calls through unchanged.

use vstd::prelude::*;

verus! {

/// Record an exact cache hit (no meter: nothing is recorded).
pub fn record_cache_hit(system: &str, model: &str, operation: &str) {
}

/// Record a cache miss (no meter: nothing is recorded).
pub fn record_cache_miss(system: &str, model: &str, operation: &str) {
}

/// Record a stale cache entry (no meter: nothing is recorded).
pub fn record_cache_stale(system: &str, model: &str, operation: &str) {
}

/// Record a circuit-breaker trip (no meter: nothing is recorded).
pub fn record_circuit_trip(system: &str, model: &str) {
}

/// Record a hedged retry attempt (no meter: nothing is recorded).
pub fn record_retry_attempt(system: &str, model: &str, operation: &str) {
}

/// Record a budget rejection (no meter: nothing is recorded).
pub fn record_budget_rejection(model: &str, provider: &str, dimension: &str) {
}

/// Record a hit of a cache tier (no meter: nothing is recorded).
pub fn record_cache_tier_hit(system: &str, model: &str, tier: &str) {
}

/// Record a miss of a cache tier (no meter: nothing is recorded).
pub fn record_cache_tier_miss(system: &str, model: &str, tier: &str) {
}

/// Record a realtime event (no meter: nothing is recorded).
pub fn record_realtime_event(provider: &str, direction: &str, event_type: &str) {
}

/// Record realtime traffic in bytes (no meter: nothing is recorded).
pub fn record_realtime_bytes(provider: &str, direction: &str, byte_count: u64) {
}

/// Layer that records GenAI metrics around a service.
#[derive(Clone, Copy)]
pub struct MetricsLayer;

impl MetricsLayer {
    /// Wrap `inner`.
    pub fn layer<S>(&self, inner: S) -> (s: MetricsService<S>)
        ensures
            s.inner == inner,
    {
        MetricsService { inner }
    }
}

/// Service produced by [`MetricsLayer`].
pub struct MetricsService<S> {
    /// The wrapped service.
    pub inner: S,
}

} // verus!
