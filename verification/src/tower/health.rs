//! Health gating, global and per-provider.
//!
//! A provider is marked down only after `unhealthy_threshold` consecutive
//! failed probes and back up only after `healthy_threshold` consecutive
//! successful ones; any result of the opposite kind resets the other counter.

use vstd::prelude::*;
use vstd::string::*;
use crate::error::LiterLlmError;
use crate::util::string_map::string_map_get;
use std::collections::HashMap;

verus! {

/// The result of a single health probe.
#[derive(Debug, Clone, Copy, PartialEq, Eq, Structural)]
pub enum HealthStatus {
    /// The probe succeeded; the upstream is reachable.
    Healthy,
    /// The probe failed; the upstream may be down.
    Unhealthy,
}

/// Per-provider health-check configuration (durations in milliseconds).
#[derive(Debug, Clone, Copy, PartialEq, Eq, Structural)]
pub struct HealthCheckConfig {
    /// How often to run the probe.
    pub interval_ms: u64,
    /// Maximum time to wait for a probe response before marking it failed.
    pub timeout_ms: u64,
    /// Number of consecutive probe failures before marking the upstream down.
    pub unhealthy_threshold: u32,
    /// Number of consecutive probe successes before marking the upstream up.
    pub healthy_threshold: u32,
}

impl Default for HealthCheckConfig {
    /// Probe every 30 s with a 5 s timeout; down after 3 failures, up after 2 successes.
    fn default() -> (c: Self)
        ensures
            c == (HealthCheckConfig { interval_ms: 30000, timeout_ms: 5000, unhealthy_threshold: 3, healthy_threshold: 2 }),
    {
        HealthCheckConfig { interval_ms: 30000, timeout_ms: 5000, unhealthy_threshold: 3, healthy_threshold: 2 }
    }
}

/// Abstract probe state of one provider.
pub struct HealthModel {
    /// Whether requests are currently let through.
    pub healthy: bool,
    /// Consecutive failed probes.
    pub failures: nat,
    /// Consecutive successful probes.
    pub successes: nat,
}

/// Counter increment saturating at `u32::MAX`.
pub open spec fn sat_inc(n: nat) -> nat {
    if n + 1 > u32::MAX { u32::MAX as nat } else { n + 1 }
}

/// The effect of one probe result.
pub open spec fn health_after(m: HealthModel, status: HealthStatus, config: HealthCheckConfig) -> HealthModel {
    match status {
        HealthStatus::Healthy => {
            let s = sat_inc(m.successes);
            HealthModel { healthy: if s >= config.healthy_threshold { true } else { m.healthy }, failures: 0, successes: s }
        },
        HealthStatus::Unhealthy => {
            let f = sat_inc(m.failures);
            HealthModel { healthy: if f >= config.unhealthy_threshold { false } else { m.healthy }, failures: f, successes: 0 }
        },
    }
}

/// The effect of `n` identical probe results.
pub open spec fn health_after_n(m: HealthModel, status: HealthStatus, n: nat, config: HealthCheckConfig) -> HealthModel
    decreases n,
{
    if n == 0 { m } else { health_after(health_after_n(m, status, (n - 1) as nat, config), status, config) }
}

/// Probe counters and health flag of one provider.
#[derive(Debug)]
pub struct ProviderHealthState {
    healthy: bool,
    consecutive_failures: u32,
    consecutive_successes: u32,
}

impl View for ProviderHealthState {
    type V = HealthModel;

    closed spec fn view(&self) -> HealthModel {
        HealthModel {
            healthy: self.healthy,
            failures: self.consecutive_failures as nat,
            successes: self.consecutive_successes as nat,
        }
    }
}

impl ProviderHealthState {
    /// A fresh state with both counters at zero.
    pub fn new(initially_healthy: bool) -> (s: Self)
        ensures
            s@ == (HealthModel { healthy: initially_healthy, failures: 0, successes: 0 }),
    {
        ProviderHealthState { healthy: initially_healthy, consecutive_failures: 0, consecutive_successes: 0 }
    }

    /// Whether requests are currently let through.
    pub fn is_healthy(&self) -> (b: bool)
        ensures
            b == self@.healthy,
    {
        self.healthy
    }

    /// Record a probe result and update the health flag according to `config`.
    pub fn record(&mut self, status: HealthStatus, config: &HealthCheckConfig)
        ensures
            final(self)@ == health_after(old(self)@, status, *config),
    {
        match status {
            HealthStatus::Healthy => {
                self.consecutive_failures = 0;
                let successes = self.consecutive_successes.saturating_add(1);
                self.consecutive_successes = successes;
                if successes >= config.healthy_threshold {
                    self.healthy = true;
                }
            },
            HealthStatus::Unhealthy => {
                self.consecutive_successes = 0;
                let failures = self.consecutive_failures.saturating_add(1);
                self.consecutive_failures = failures;
                if failures >= config.unhealthy_threshold {
                    self.healthy = false;
                }
            },
        }
    }
}

/// After `unhealthy_threshold` consecutive failed probes a provider is down,
/// whatever its state before; a provider that was up with no pending
/// failures stays up through fewer failures.
pub proof fn law_health_marks_down_after_threshold(m: HealthModel, config: HealthCheckConfig, k: nat)
    requires
        1 <= config.unhealthy_threshold,
        k <= config.unhealthy_threshold,
        m.failures == 0,
    ensures
        health_after_n(m, HealthStatus::Unhealthy, k, config).failures == k,
        k < config.unhealthy_threshold ==> health_after_n(m, HealthStatus::Unhealthy, k, config).healthy == m.healthy,
        k == config.unhealthy_threshold ==> !health_after_n(m, HealthStatus::Unhealthy, k, config).healthy,
    decreases k,
{
    if k > 0 {
        law_health_marks_down_after_threshold(m, config, (k - 1) as nat);
    }
}

/// After `healthy_threshold` consecutive successful probes a provider is up;
/// a provider that was down with no pending successes stays down through fewer.
pub proof fn law_health_marks_up_after_threshold(m: HealthModel, config: HealthCheckConfig, k: nat)
    requires
        1 <= config.healthy_threshold,
        k <= config.healthy_threshold,
        m.successes == 0,
    ensures
        health_after_n(m, HealthStatus::Healthy, k, config).successes == k,
        k < config.healthy_threshold ==> health_after_n(m, HealthStatus::Healthy, k, config).healthy == m.healthy,
        k == config.healthy_threshold ==> health_after_n(m, HealthStatus::Healthy, k, config).healthy,
    decreases k,
{
    if k > 0 {
        law_health_marks_up_after_threshold(m, config, (k - 1) as nat);
    }
}

/// A probe result of one kind clears the streak of the other kind, so a
/// flapping provider only changes state after an uninterrupted streak.
pub proof fn law_health_opposite_result_resets(m: HealthModel, config: HealthCheckConfig)
    ensures
        health_after(m, HealthStatus::Healthy, config).failures == 0,
        health_after(m, HealthStatus::Unhealthy, config).successes == 0,
        !health_after(m, HealthStatus::Healthy, config).healthy ==> !m.healthy,
        health_after(m, HealthStatus::Unhealthy, config).healthy ==> m.healthy,
{
}

/// The message of the error returned while a provider is marked down.
pub open spec fn provider_unhealthy_message() -> Seq<char> {
    "provider is unhealthy (health check failed)"@
}

/// The message of the error returned while a service is marked down.
pub open spec fn service_unhealthy_message() -> Seq<char> {
    "service is unhealthy (health check failed)"@
}

/// A service wrapper that gates requests on per-provider probe thresholds.
///
/// Probes are run by the embedding application, which feeds each result to
/// [`PerProviderHealthCheck::record_probe`].
pub struct PerProviderHealthCheck<S> {
    inner: S,
    state: ProviderHealthState,
}

impl<S> PerProviderHealthCheck<S> {
    /// The wrapped service.
    pub closed spec fn spec_inner(&self) -> S {
        self.inner
    }

    /// The wrapped service.
    pub fn inner(&self) -> (r: &S)
        ensures
            *r == self.spec_inner(),
    {
        &self.inner
    }

    /// Wrap `inner`; the provider starts healthy.
    pub fn new(inner: S) -> (s: Self)
        ensures
            s.spec_inner() == inner,
            s.spec_state() == (HealthModel { healthy: true, failures: 0, successes: 0 }),
    {
        PerProviderHealthCheck { inner, state: ProviderHealthState::new(true) }
    }

    /// The probe state.
    pub closed spec fn spec_state(&self) -> HealthModel {
        self.state@
    }

    /// Returns `true` if this provider is currently considered healthy.
    pub fn is_healthy(&self) -> (b: bool)
        ensures
            b == self.spec_state().healthy,
    {
        self.state.is_healthy()
    }

    /// Feed one probe result.
    pub fn record_probe(&mut self, status: HealthStatus, config: &HealthCheckConfig)
        ensures
            final(self).spec_state() == health_after(old(self).spec_state(), status, *config),
            final(self).spec_inner() == old(self).spec_inner(),
    {
        self.state.record(status, config);
    }

    /// Gate for `poll_ready` and `call`: `Ok` while healthy, otherwise a
    /// `ServiceUnavailable` (503) error; the inner service is not called on `Err`.
    pub fn gate(&self) -> (r: Result<(), LiterLlmError>)
        ensures
            r is Ok <==> self.spec_state().healthy,
            r matches Err(e) ==> (e matches LiterLlmError::ServiceUnavailable { message, status }
                && status == 503 && message@ == provider_unhealthy_message()),
    {
        if self.state.is_healthy() {
            Ok(())
        } else {
            proof { reveal_strlit("provider is unhealthy (health check failed)"); }
            Err(LiterLlmError::ServiceUnavailable {
                message: String::from_str("provider is unhealthy (health check failed)"),
                status: 503,
            })
        }
    }
}

/// Layer that gates a service on a periodic `ListModels` probe.
pub struct HealthCheckLayer {
    interval_ms: u64,
}

impl HealthCheckLayer {
    /// Create a health-check layer that probes every `interval_ms`.
    pub fn new(interval_ms: u64) -> (l: Self)
        ensures
            l.spec_interval_ms() == interval_ms,
    {
        HealthCheckLayer { interval_ms }
    }

    /// The probe interval.
    pub closed spec fn spec_interval_ms(&self) -> u64 {
        self.interval_ms
    }

    /// The probe interval in milliseconds.
    pub fn interval_ms(&self) -> (ms: u64)
        ensures
            ms == self.spec_interval_ms(),
    {
        self.interval_ms
    }

    /// Wrap `inner`; the service starts healthy.
    pub fn layer<S>(&self, inner: S) -> (s: HealthCheckService<S>)
        ensures
            s.spec_inner() == inner,
            s.spec_healthy(),
    {
        HealthCheckService { inner, healthy: true }
    }
}

/// Service produced by [`HealthCheckLayer`]: healthy exactly when the last
/// probe succeeded.
pub struct HealthCheckService<S> {
    inner: S,
    healthy: bool,
}

impl<S> HealthCheckService<S> {
    /// The wrapped service.
    pub closed spec fn spec_inner(&self) -> S {
        self.inner
    }

    /// The wrapped service.
    pub fn inner(&self) -> (r: &S)
        ensures
            *r == self.spec_inner(),
    {
        &self.inner
    }

    /// The health flag.
    pub closed spec fn spec_healthy(&self) -> bool {
        self.healthy
    }

    /// Returns `true` if the last health probe succeeded.
    pub fn is_healthy(&self) -> (b: bool)
        ensures
            b == self.spec_healthy(),
    {
        self.healthy
    }

    /// Record the outcome of one probe: the service is healthy exactly when
    /// the probe succeeded.
    pub fn record_probe(&mut self, probe_ok: bool)
        ensures
            final(self).spec_healthy() == probe_ok,
            final(self).spec_inner() == old(self).spec_inner(),
    {
        self.healthy = probe_ok;
    }

    /// Gate for `poll_ready` and `call`: `Ok` while healthy, otherwise a
    /// `ServiceUnavailable` (503) error.
    pub fn gate(&self) -> (r: Result<(), LiterLlmError>)
        ensures
            r is Ok <==> self.spec_healthy(),
            r matches Err(e) ==> (e matches LiterLlmError::ServiceUnavailable { message, status }
                && status == 503 && message@ == service_unhealthy_message()),
    {
        if self.healthy {
            Ok(())
        } else {
            proof { reveal_strlit("service is unhealthy (health check failed)"); }
            Err(LiterLlmError::ServiceUnavailable {
                message: String::from_str("service is unhealthy (health check failed)"),
                status: 503,
            })
        }
    }
}

/// The URL probed for `upstream`: its configured probe URL, or the
/// upstream itself.
pub fn probe_url(probe_urls: &HashMap<String, String>, upstream: &str) -> (u: String)
    ensures
        (exists|k: String| k@ == upstream@ && #[trigger] probe_urls@.contains_key(k))
            ==> exists|k: String| k@ == upstream@ && #[trigger] probe_urls@.contains_key(k) && u@ == probe_urls@[k]@,
        (forall|k: String| k@ == upstream@ ==> !#[trigger] probe_urls@.contains_key(k)) ==> u@ == upstream@,
{
    match string_map_get(probe_urls, upstream) {
        Some(v) => v.clone(),
        None => String::from_str(upstream),
    }
}

/// Health from a probe's outcome: an HTTP status in the success (2xx) or
/// redirection (3xx) range is healthy; any other status, or no response at
/// all, is unhealthy.
pub fn probe_status(http_status: Option<u16>) -> (s: HealthStatus)
    ensures
        s == (if http_status matches Some(c) && 200 <= c <= 399 { HealthStatus::Healthy } else { HealthStatus::Unhealthy }),
{
    match http_status {
        Some(c) => if 200 <= c && c <= 399 { HealthStatus::Healthy } else { HealthStatus::Unhealthy },
        None => HealthStatus::Unhealthy,
    }
}

} // verus!
