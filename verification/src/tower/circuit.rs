//! Circuit breaker.
//!
//! ```text
//! Closed ─(N consecutive failures)→ Open ─(backoff elapsed)→ HalfOpen
//!   ↑                                                              │
//!   └─────────────────────(success)────────────────────────────────┘
//!                                      (failure in HalfOpen → Open again)
//! ```
//!
//! Times are milliseconds on a monotonic clock supplied by the caller.

use vstd::prelude::*;
use vstd::string::*;
use std::sync::Arc;
use vstd::arithmetic::power2::{pow2, lemma_pow2_unfold, lemma_pow2_strictly_increases, lemma2_to64_rest};
use crate::error::{LiterLlmError, spec_is_transient};

verus! {

/// Observable state of a circuit breaker.
#[derive(Debug, Clone, Copy, PartialEq, Eq, Structural)]
pub enum CircuitState {
    /// Requests flow through normally.
    Closed,
    /// All requests are rejected; the circuit is waiting for the backoff to elapse.
    Open,
    /// One probe request is allowed through to test service health.
    HalfOpen,
}

/// The state encoded by a byte: `1` is open, `2` half-open, anything else closed.
pub open spec fn spec_state_from_u8(v: u8) -> CircuitState {
    if v == 1 { CircuitState::Open } else if v == 2 { CircuitState::HalfOpen } else { CircuitState::Closed }
}

impl CircuitState {
    /// Decode the byte representation used for atomic storage.
    pub fn from_u8(v: u8) -> (s: Self)
        ensures
            s == spec_state_from_u8(v),
    {
        match v {
            1 => CircuitState::Open,
            2 => CircuitState::HalfOpen,
            _ => CircuitState::Closed,
        }
    }

    /// Encode as the byte that [`CircuitState::from_u8`] decodes.
    pub fn as_u8(self) -> (v: u8)
        ensures
            spec_state_from_u8(v) == self,
            v <= 2,
    {
        match self {
            CircuitState::Closed => 0,
            CircuitState::Open => 1,
            CircuitState::HalfOpen => 2,
        }
    }
}

/// Policy that drives a circuit breaker's state transitions.
///
/// `spec_state`, `spec_after_success` and `spec_after_failure` describe the
/// policy abstractly; the executable methods must agree with them.
pub trait CircuitPolicy: Sized {
    /// The current state.
    spec fn spec_state(&self) -> CircuitState;

    /// The policy after a successful response.
    spec fn spec_after_success(&self) -> Self;

    /// The policy after a counted failure observed at `now_ms`.
    spec fn spec_after_failure(&self, now_ms: u64) -> Self;

    /// Whether a request may be let through now.
    spec fn spec_lets_through(&self) -> bool;

    /// The policy after a request was let through (in half-open state, the
    /// request is the probe, which is then pending).
    spec fn spec_after_pass(&self) -> Self;

    /// The policy after a call ended with an outcome that neither counts as
    /// a success nor as a failure (a pending probe is no longer pending).
    spec fn spec_after_release(&self) -> Self;

    /// Called when the inner service returns a successful response.
    fn record_success(&mut self)
        ensures
            *final(self) == old(self).spec_after_success(),
    ;

    /// Called when the inner service returns a transient error at `now_ms`.
    fn record_failure(&mut self, now_ms: u64)
        ensures
            *final(self) == old(self).spec_after_failure(now_ms),
    ;

    /// `true` when a request may proceed; `false` means the circuit is open,
    /// or half-open with its probe still pending.
    fn should_allow(&self) -> (b: bool)
        ensures
            b == self.spec_lets_through(),
    ;

    /// Let a request through if the policy allows it now, and note it (a
    /// half-open circuit lets one probe through and holds the rest back
    /// until that probe has an outcome).
    fn try_pass(&mut self) -> (b: bool)
        ensures
            b == old(self).spec_lets_through(),
            b ==> *final(self) == old(self).spec_after_pass(),
            !b ==> *final(self) == *old(self),
    ;

    /// Called when a call ended with an error that is not counted as a
    /// failure.
    fn release(&mut self)
        ensures
            *final(self) == old(self).spec_after_release(),
    ;

    /// The current circuit state.
    fn state(&self) -> (s: CircuitState)
        ensures
            s == self.spec_state(),
    ;
}

/// Backoff after `open_count` openings: `base × 2^min(open_count, 62)`,
/// capped at `max`.
pub open spec fn backoff_for(base: nat, open_count: nat, max: nat) -> nat {
    let shift = if open_count < 62 { open_count } else { 62 };
    let raw = base * pow2(shift);
    if raw < max { raw } else { max }
}

/// Abstract state of an [`ExponentialBackoffCircuit`].
pub struct CircuitModel {
    /// Consecutive failures needed to open the circuit.
    pub failure_threshold: nat,
    /// Initial backoff in milliseconds.
    pub base_backoff_ms: nat,
    /// Cap on the backoff in milliseconds.
    pub max_backoff_ms: nat,
    /// Current state.
    pub state: CircuitState,
    /// Consecutive failures since the circuit last closed.
    pub consecutive_failures: nat,
    /// Time at which the circuit last opened, if it ever did.
    pub open_since_ms: Option<nat>,
    /// How many times the circuit has opened.
    pub open_count: nat,
    /// Whether the half-open probe has been let through and has no outcome yet.
    pub probe_in_flight: bool,
}

/// Counter increment saturating at `u32::MAX`.
pub open spec fn sat_inc_u32(n: nat) -> nat {
    if n + 1 > u32::MAX { u32::MAX as nat } else { n + 1 }
}

/// Effect of a success: failures reset, circuit closed.
pub open spec fn model_after_success(m: CircuitModel) -> CircuitModel {
    CircuitModel { state: CircuitState::Closed, consecutive_failures: 0, probe_in_flight: false, ..m }
}

/// Letting a request through: a closed circuit lets every request through, an
/// open one none; a half-open circuit lets one probe through and rejects
/// the rest while that probe is pending.
pub open spec fn model_pass(m: CircuitModel) -> (bool, CircuitModel) {
    match m.state {
        CircuitState::Closed => (true, m),
        CircuitState::Open => (false, m),
        CircuitState::HalfOpen => if m.probe_in_flight {
            (false, m)
        } else {
            (true, CircuitModel { probe_in_flight: true, ..m })
        },
    }
}

/// Effect of an outcome that is neither a success nor a counted failure.
pub open spec fn model_release(m: CircuitModel) -> CircuitModel {
    CircuitModel { probe_in_flight: false, ..m }
}

/// Effect of a counted failure at `now`: the failure counter grows; the
/// circuit (re)opens when the threshold is reached or a half-open probe failed.
pub open spec fn model_after_failure(m: CircuitModel, now: nat) -> CircuitModel {
    let failures = sat_inc_u32(m.consecutive_failures);
    if failures >= m.failure_threshold || m.state == CircuitState::HalfOpen {
        CircuitModel {
            state: CircuitState::Open,
            consecutive_failures: failures,
            open_since_ms: Some(now),
            open_count: sat_inc_u32(m.open_count),
            probe_in_flight: false,
            ..m
        }
    } else {
        CircuitModel { consecutive_failures: failures, probe_in_flight: false, ..m }
    }
}

/// The backoff currently in force.
pub open spec fn model_backoff(m: CircuitModel) -> nat {
    backoff_for(m.base_backoff_ms, m.open_count, m.max_backoff_ms)
}

/// Whether the backoff has elapsed at `now` since the circuit last opened.
pub open spec fn model_backoff_elapsed(m: CircuitModel, now: nat) -> bool {
    match m.open_since_ms {
        Some(t) => (if now >= t { now - t } else { 0 }) >= model_backoff(m),
        None => false,
    }
}

/// Circuit breaker with exponential backoff.
///
/// Opens after `failure_threshold` consecutive failures.  After the backoff
/// (`base_backoff_ms`, doubled on each successive opening, capped at two
/// minutes) the circuit may enter [`CircuitState::HalfOpen`] and let one
/// probe through.
pub struct ExponentialBackoffCircuit {
    failure_threshold: u32,
    base_backoff_ms: u64,
    max_backoff_ms: u64,
    state: CircuitState,
    consecutive_failures: u32,
    open_since_ms: Option<u64>,
    open_count: u32,
    probe_in_flight: bool,
}

/// The cap on the backoff: two minutes.
pub const MAX_BACKOFF_MS: u64 = 120000;

impl View for ExponentialBackoffCircuit {
    type V = CircuitModel;

    closed spec fn view(&self) -> CircuitModel {
        CircuitModel {
            failure_threshold: self.failure_threshold as nat,
            base_backoff_ms: self.base_backoff_ms as nat,
            max_backoff_ms: self.max_backoff_ms as nat,
            state: self.state,
            consecutive_failures: self.consecutive_failures as nat,
            open_since_ms: match self.open_since_ms {
                Some(t) => Some(t as nat),
                None => None,
            },
            open_count: self.open_count as nat,
            probe_in_flight: self.probe_in_flight,
        }
    }
}

impl ExponentialBackoffCircuit {
    /// Create a closed circuit that opens after `failure_threshold`
    /// consecutive failures and first backs off for `base_backoff_ms`.
    pub fn new(failure_threshold: u32, base_backoff_ms: u64) -> (c: Self)
        ensures
            c@ == (CircuitModel {
                failure_threshold: failure_threshold as nat,
                base_backoff_ms: base_backoff_ms as nat,
                max_backoff_ms: MAX_BACKOFF_MS as nat,
                state: CircuitState::Closed,
                consecutive_failures: 0,
                open_since_ms: None,
                open_count: 0,
                probe_in_flight: false,
            }),
    {
        ExponentialBackoffCircuit {
            failure_threshold,
            base_backoff_ms,
            max_backoff_ms: MAX_BACKOFF_MS,
            state: CircuitState::Closed,
            consecutive_failures: 0,
            open_since_ms: None,
            open_count: 0,
            probe_in_flight: false,
        }
    }

    /// The current backoff in milliseconds.
    pub fn current_backoff_ms(&self) -> (b: u64)
        ensures
            b as nat == model_backoff(self@),
    {
        let shift: u32 = if self.open_count < 62 { self.open_count } else { 62 };
        let mut factor: u64 = 1;
        let mut i: u32 = 0;
        proof {
            vstd::arithmetic::power2::lemma2_to64();
        }
        while i < shift
            invariant
                i <= shift,
                shift <= 62,
                factor as nat == pow2(i as nat),
            decreases shift - i,
        {
            proof {
                lemma2_to64_rest();
                lemma_pow2_unfold((i + 1) as nat);
                if i + 1 < 62 {
                    lemma_pow2_strictly_increases((i + 1) as nat, 62);
                }
            }
            factor = factor * 2;
            i = i + 1;
        }
        let product: u64 = match self.base_backoff_ms.checked_mul(factor) {
            Some(p) => p,
            None => u64::MAX,
        };
        if product < self.max_backoff_ms {
            product
        } else {
            self.max_backoff_ms
        }
    }

    /// If the circuit has been open for at least the current backoff at
    /// `now_ms`, enter [`CircuitState::HalfOpen`] (with no probe pending yet)
    /// and return `true`.
    pub fn maybe_half_open(&mut self, now_ms: u64) -> (entered: bool)
        ensures
            entered == model_backoff_elapsed(old(self)@, now_ms as nat),
            entered ==> final(self)@ == (CircuitModel { state: CircuitState::HalfOpen, probe_in_flight: false, ..old(self)@ }),
            !entered ==> final(self)@ == old(self)@,
    {
        let backoff = self.current_backoff_ms();
        match self.open_since_ms {
            Some(open_at) => {
                let elapsed = now_ms.saturating_sub(open_at);
                if elapsed >= backoff {
                    self.state = CircuitState::HalfOpen;
                    self.probe_in_flight = false;
                    true
                } else {
                    false
                }
            },
            None => false,
        }
    }
}

impl CircuitPolicy for ExponentialBackoffCircuit {
    open spec fn spec_state(&self) -> CircuitState {
        self@.state
    }

    closed spec fn spec_after_success(&self) -> Self {
        ExponentialBackoffCircuit { state: CircuitState::Closed, consecutive_failures: 0, probe_in_flight: false, ..*self }
    }

    open spec fn spec_lets_through(&self) -> bool {
        model_pass(self@).0
    }

    closed spec fn spec_after_pass(&self) -> Self {
        if self.state == CircuitState::HalfOpen { ExponentialBackoffCircuit { probe_in_flight: true, ..*self } } else { *self }
    }

    closed spec fn spec_after_release(&self) -> Self {
        ExponentialBackoffCircuit { probe_in_flight: false, ..*self }
    }

    closed spec fn spec_after_failure(&self, now_ms: u64) -> Self {
        let failures: u32 = if self.consecutive_failures == u32::MAX {
            u32::MAX
        } else {
            (self.consecutive_failures + 1) as u32
        };
        if failures >= self.failure_threshold || self.state == CircuitState::HalfOpen {
            ExponentialBackoffCircuit {
                state: CircuitState::Open,
                consecutive_failures: failures,
                open_since_ms: Some(now_ms),
                open_count: if self.open_count == u32::MAX { u32::MAX } else { (self.open_count + 1) as u32 },
                probe_in_flight: false,
                ..*self
            }
        } else {
            ExponentialBackoffCircuit { consecutive_failures: failures, probe_in_flight: false, ..*self }
        }
    }

    fn record_success(&mut self) {
        self.consecutive_failures = 0;
        self.state = CircuitState::Closed;
        self.probe_in_flight = false;
    }

    fn record_failure(&mut self, now_ms: u64) {
        let failures = self.consecutive_failures.saturating_add(1);
        self.consecutive_failures = failures;
        self.probe_in_flight = false;
        if failures >= self.failure_threshold || self.state == CircuitState::HalfOpen {
            self.open_count = self.open_count.saturating_add(1);
            self.state = CircuitState::Open;
            self.open_since_ms = Some(now_ms);
        }
    }

    fn should_allow(&self) -> (b: bool) {
        match self.state {
            CircuitState::Closed => true,
            CircuitState::HalfOpen => !self.probe_in_flight,
            CircuitState::Open => false,
        }
    }

    fn try_pass(&mut self) -> (b: bool) {
        match self.state {
            CircuitState::Closed => true,
            CircuitState::Open => false,
            CircuitState::HalfOpen => {
                if self.probe_in_flight {
                    false
                } else {
                    self.probe_in_flight = true;
                    true
                }
            },
        }
    }

    fn release(&mut self) {
        self.probe_in_flight = false;
    }

    fn state(&self) -> (s: CircuitState) {
        self.state
    }
}

/// The concrete transitions agree with the model transitions.
pub proof fn lemma_circuit_model_transitions(c: ExponentialBackoffCircuit, now_ms: u64)
    ensures
        c.spec_after_success()@ == model_after_success(c@),
        c.spec_after_failure(now_ms)@ == model_after_failure(c@, now_ms as nat),
        c.spec_lets_through() == model_pass(c@).0,
        c.spec_lets_through() ==> c.spec_after_pass()@ == model_pass(c@).1,
        c.spec_after_release()@ == model_release(c@),
{
}

/// One probe at a time: a half-open circuit with no probe pending lets
/// exactly one request through; every further request is rejected until
/// the probe's outcome is known (a success closes the circuit, a counted
/// failure reopens it, any other outcome frees the probe slot).
pub proof fn law_circuit_single_probe(m: CircuitModel, now: nat)
    requires
        m.state == CircuitState::HalfOpen,
        !m.probe_in_flight,
    ensures
        model_pass(m).0,
        !model_pass(model_pass(m).1).0,
        model_pass(model_pass(m).1).1 == model_pass(m).1,
        model_pass(model_after_success(model_pass(m).1)).0,
        model_after_failure(model_pass(m).1, now).state == CircuitState::Open,
        model_pass(model_release(model_pass(m).1)).0,
{
}


/// The model after `n` consecutive counted failures, all observed at `now`.
pub open spec fn model_after_failures(m: CircuitModel, n: nat, now: nat) -> CircuitModel
    decreases n,
{
    if n == 0 { m } else { model_after_failure(model_after_failures(m, (n - 1) as nat, now), now) }
}

/// Failures never change the configuration of the circuit.
proof fn lemma_failures_keep_config(m: CircuitModel, n: nat, now: nat)
    ensures
        model_after_failures(m, n, now).failure_threshold == m.failure_threshold,
        model_after_failures(m, n, now).base_backoff_ms == m.base_backoff_ms,
        model_after_failures(m, n, now).max_backoff_ms == m.max_backoff_ms,
    decreases n,
{
    if n > 0 {
        lemma_failures_keep_config(m, (n - 1) as nat, now);
    }
}

/// A closed circuit with no recorded failures stays closed through fewer
/// than `failure_threshold` consecutive failures, counting each one, and is
/// open once the threshold is reached.
pub proof fn law_circuit_opens_after_threshold(m: CircuitModel, k: nat, now: nat)
    requires
        m.state == CircuitState::Closed,
        m.consecutive_failures == 0,
        1 <= m.failure_threshold <= u32::MAX,
        k <= m.failure_threshold,
    ensures
        k < m.failure_threshold ==> model_after_failures(m, k, now).state == CircuitState::Closed,
        model_after_failures(m, k, now).consecutive_failures == k,
        k == m.failure_threshold ==> model_after_failures(m, k, now).state == CircuitState::Open,
    decreases k,
{
    if k > 0 {
        law_circuit_opens_after_threshold(m, (k - 1) as nat, now);
        let prev = model_after_failures(m, (k - 1) as nat, now);
        assert(prev.state == CircuitState::Closed);
        assert(prev.failure_threshold == m.failure_threshold) by {
            lemma_failures_keep_config(m, (k - 1) as nat, now);
        }
        assert(model_after_failures(m, k, now) == model_after_failure(prev, now));
    }
}

/// A success always closes the circuit and clears the failure count,
/// whatever state it was in.
pub proof fn law_circuit_success_closes(m: CircuitModel)
    ensures
        model_after_success(m).state == CircuitState::Closed,
        model_after_success(m).consecutive_failures == 0,
        model_after_success(m).open_count == m.open_count,
{
}

/// A failed half-open probe re-opens the circuit at once, restarts the
/// backoff clock and lengthens the next backoff (counts another opening).
pub proof fn law_circuit_half_open_failure_reopens(m: CircuitModel, now: nat)
    requires
        m.state == CircuitState::HalfOpen,
    ensures
        model_after_failure(m, now).state == CircuitState::Open,
        model_after_failure(m, now).open_since_ms == Some(now),
        model_after_failure(m, now).open_count == sat_inc_u32(m.open_count),
{
}

/// The backoff never exceeds its cap and never shrinks as the circuit
/// keeps re-opening.
pub proof fn law_circuit_backoff_bounded_monotone(base: nat, c1: nat, c2: nat, max: nat)
    requires
        c1 <= c2,
    ensures
        backoff_for(base, c1, max) <= max,
        backoff_for(base, c1, max) <= backoff_for(base, c2, max),
{
    let s1: nat = if c1 < 62 { c1 } else { 62 };
    let s2: nat = if c2 < 62 { c2 } else { 62 };
    if s1 < s2 {
        lemma_pow2_strictly_increases(s1, s2);
    }
    assert(base * pow2(s1) <= base * pow2(s2)) by (nonlinear_arith)
        requires pow2(s1) <= pow2(s2);
}

/// The error returned while the circuit is open.
pub open spec fn circuit_open_message(provider: Seq<char>) -> Seq<char> {
    "circuit breaker open for provider '"@ + provider + "'"@
}

/// The `ServiceUnavailable` (503) error returned while the circuit is open.
pub fn circuit_open_error(provider: &str) -> (e: LiterLlmError)
    ensures
        e matches LiterLlmError::ServiceUnavailable { message, status }
            && status == 503 && message@ == circuit_open_message(provider@),
{
    let mut message = String::from_str("circuit breaker open for provider '");
    message.append(provider);
    message.append("'");
    LiterLlmError::ServiceUnavailable { message, status: 503 }
}

/// Pre-flight gate: `Ok` when the policy lets the request through (and the
/// policy notes it: in half-open state that request is the probe), the
/// open-circuit error otherwise.  The inner service is not to be called on
/// `Err`.
pub fn circuit_gate<P: CircuitPolicy>(policy: &mut P, provider: &str) -> (r: Result<(), LiterLlmError>)
    ensures
        r is Ok <==> old(policy).spec_lets_through(),
        r is Ok ==> *final(policy) == old(policy).spec_after_pass(),
        r is Err ==> *final(policy) == *old(policy),
        r matches Err(e) ==> (e matches LiterLlmError::ServiceUnavailable { message, status }
            && status == 503 && message@ == circuit_open_message(provider@)),
{
    if policy.try_pass() {
        Ok(())
    } else {
        Err(circuit_open_error(provider))
    }
}

/// Post-flight bookkeeping: a success is recorded as such, a transient error
/// as a failure at `now_ms`; any other error is no failure and only ends a
/// pending probe.
pub fn circuit_observe<P: CircuitPolicy, R>(policy: &mut P, outcome: &Result<R, LiterLlmError>, now_ms: u64)
    ensures
        outcome is Ok ==> *final(policy) == old(policy).spec_after_success(),
        outcome matches Err(e) && spec_is_transient(*e) ==> *final(policy) == old(policy).spec_after_failure(now_ms),
        outcome matches Err(e) && !spec_is_transient(*e) ==> *final(policy) == old(policy).spec_after_release(),
{
    match outcome {
        Ok(_) => policy.record_success(),
        Err(e) => {
            if e.is_transient() {
                policy.record_failure(now_ms);
            } else {
                policy.release();
            }
        },
    }
}

/// Layer that wraps a service with a shared [`CircuitPolicy`].
pub struct CircuitLayer<P> {
    policy: Arc<P>,
    provider: String,
}

impl<P> CircuitLayer<P> {
    /// Create a circuit-breaker layer; `provider` labels error messages.
    pub fn new(policy: Arc<P>, provider: String) -> (l: Self)
        ensures
            *l.spec_policy() == *policy,
            l.spec_provider() == provider@,
    {
        CircuitLayer { policy, provider }
    }

    /// The shared policy.
    pub closed spec fn spec_policy(&self) -> Arc<P> {
        self.policy
    }

    /// The provider label.
    pub closed spec fn spec_provider(&self) -> Seq<char> {
        self.provider@
    }

    /// The shared policy.
    pub fn policy(&self) -> (p: &Arc<P>)
        ensures
            *p == self.spec_policy(),
    {
        &self.policy
    }

    /// The provider label.
    pub fn provider(&self) -> (s: &str)
        ensures
            s@ == self.spec_provider(),
    {
        self.provider.as_str()
    }

    /// Wrap `inner`; the service shares this layer's policy.
    pub fn layer<S>(&self, inner: S) -> (s: CircuitService<P, S>)
        ensures
            s.inner == inner,
            *s.policy == *self.spec_policy(),
            s.provider@ == self.spec_provider(),
    {
        CircuitService { inner, policy: Arc::clone(&self.policy), provider: self.provider.clone() }
    }
}

/// Service produced by [`CircuitLayer`].
pub struct CircuitService<P, S> {
    /// The wrapped service.
    pub inner: S,
    /// The policy shared with the layer and all clones.
    pub policy: Arc<P>,
    /// Provider label used in the open-circuit error.
    pub provider: String,
}

} // verus!
