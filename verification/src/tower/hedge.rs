//! Hedged requests: after a delay a second (third, …) copy of a request is
//! launched; the first success wins and the others are cancelled.
//!
//! A [`HedgePolicy`] says how long to wait before each attempt and how many
//! attempts may run.  The race itself alternates waiting and deciding; the
//! decisions are [`next_hedge_delay`] (launch another attempt or not) and
//! [`HedgeRace::observe`] / [`HedgeRace::finish`] (what a finished attempt
//! means for the caller).  Durations are milliseconds.

use vstd::prelude::*;
use std::sync::Arc;
use crate::error::LiterLlmError;

verus! {

/// When and how many hedged attempts are launched.
pub trait HedgePolicy {
    /// Delay before attempt `attempt` (1 is the original request), given the
    /// time since dispatch; `None` skips this attempt and all later ones.
    spec fn spec_delay_for_attempt(&self, attempt: u32, latency_so_far_ms: u64) -> Option<u64>;

    /// Maximum number of concurrent attempts, the original included.
    spec fn spec_max_attempts(&self) -> u32;

    /// Delay before attempt `attempt` (1-indexed).
    fn delay_for_attempt(&self, attempt: u32, latency_so_far_ms: u64) -> (d: Option<u64>)
        requires
            attempt >= 1,
        ensures
            d == self.spec_delay_for_attempt(attempt, latency_so_far_ms),
    ;

    /// Maximum number of concurrent attempts (at least 1).
    fn max_attempts(&self) -> (n: u32)
        ensures
            n == self.spec_max_attempts(),
    ;
}

/// Hedges at fixed intervals: attempt `n` starts `(n - 1) × delay` after
/// dispatch.
pub struct FixedDelayHedge {
    delay_ms: u64,
    max_attempts: u32,
}

impl FixedDelayHedge {
    /// The interval between attempts.
    pub closed spec fn spec_delay_ms(&self) -> u64 {
        self.delay_ms
    }

    /// The attempt cap held by the policy.
    pub closed spec fn spec_cap(&self) -> u32 {
        self.max_attempts
    }

    /// A policy with the given interval and cap; a cap below 1 becomes 1.
    pub fn new(delay_ms: u64, max_attempts: u32) -> (p: Self)
        ensures
            p.spec_delay_ms() == delay_ms,
            p.spec_cap() == if max_attempts >= 1 { max_attempts } else { 1 },
    {
        let cap = if max_attempts >= 1 { max_attempts } else { 1 };
        FixedDelayHedge { delay_ms, max_attempts: cap }
    }
}

/// `a × b`, saturating at `u64::MAX`.
pub open spec fn saturating_product(a: nat, b: nat) -> nat {
    if a * b > u64::MAX { u64::MAX as nat } else { a * b }
}

impl HedgePolicy for FixedDelayHedge {
    /// Attempts beyond the cap are skipped; attempt `n` waits `(n - 1) ×
    /// delay` (saturating at `u64::MAX` milliseconds).
    open spec fn spec_delay_for_attempt(&self, attempt: u32, latency_so_far_ms: u64) -> Option<u64> {
        if attempt > self.spec_cap() {
            None
        } else {
            Some(saturating_product(self.spec_delay_ms() as nat, (attempt - 1) as nat) as u64)
        }
    }

    open spec fn spec_max_attempts(&self) -> u32 {
        self.spec_cap()
    }

    fn delay_for_attempt(&self, attempt: u32, latency_so_far_ms: u64) -> (d: Option<u64>) {
        if attempt > self.max_attempts {
            return None;
        }
        let steps = (attempt - 1) as u64;
        let d = self.delay_ms.checked_mul(steps);
        match d {
            Some(v) => Some(v),
            None => Some(u64::MAX),
        }
    }

    fn max_attempts(&self) -> (n: u32) {
        self.max_attempts
    }
}

/// Layer that wraps a service with hedged racing under a shared policy.
pub struct HedgeLayer<P> {
    policy: Arc<P>,
}

impl<P> HedgeLayer<P> {
    /// The shared policy.
    pub closed spec fn spec_policy(&self) -> P {
        *self.policy
    }

    /// A hedge layer using `policy`.
    pub fn new(policy: Arc<P>) -> (l: Self)
        ensures
            l.spec_policy() == *policy,
    {
        HedgeLayer { policy }
    }

    /// Wrap `inner`; the service shares this layer's policy.
    pub fn layer<S>(&self, inner: S) -> (s: HedgeService<P, S>)
        ensures
            s.inner == inner,
            *s.policy == self.spec_policy(),
    {
        HedgeService { inner, policy: Arc::clone(&self.policy) }
    }
}

/// Service produced by [`HedgeLayer`].
pub struct HedgeService<P, S> {
    /// The service whose clones run the attempts.
    pub inner: S,
    /// The shared policy.
    pub policy: Arc<P>,
}

/// Whether attempt `attempt` is launched, and after which delay: attempts
/// beyond the policy's cap are not, and otherwise the policy decides.
pub fn next_hedge_delay<P: HedgePolicy>(policy: &P, attempt: u32, latency_so_far_ms: u64) -> (d: Option<u64>)
    requires
        attempt >= 2,
    ensures
        attempt > policy.spec_max_attempts() ==> d is None,
        attempt <= policy.spec_max_attempts() ==> d == policy.spec_delay_for_attempt(attempt, latency_so_far_ms),
{
    if attempt > policy.max_attempts() {
        None
    } else {
        policy.delay_for_attempt(attempt, latency_so_far_ms)
    }
}

/// How one attempt of the race ended.
pub enum HedgeEvent<T> {
    /// The attempt ran to completion with this result.
    Finished(Result<T, LiterLlmError>),
    /// The attempt was cancelled.
    Cancelled,
    /// The attempt's task panicked; the text describes the failure.
    Panicked(String),
}

/// Message recorded for a panicked attempt.
pub open spec fn panicked_message(detail: Seq<char>) -> Seq<char> {
    "hedge task panicked: "@ + detail
}

/// Message when the race ends without any recorded error.
pub open spec fn no_error_message() -> Seq<char> {
    "all hedged attempts failed with no error recorded"@
}

/// The internal error recorded for a panicked attempt.
pub open spec fn is_panic_error(e: LiterLlmError, detail: Seq<char>) -> bool {
    e matches LiterLlmError::InternalError { message } && message@ == panicked_message(detail)
}

/// The error a finished or panicked attempt leaves behind, if any.
pub open spec fn event_error<T>(ev: HedgeEvent<T>) -> Option<LiterLlmError> {
    match ev {
        HedgeEvent::Finished(Err(e)) => Some(e),
        HedgeEvent::Panicked(detail) => Some(choose|e: LiterLlmError| #[trigger] is_panic_error(e, detail@)),
        _ => None,
    }
}

/// The state of a race: the last error seen so far.
pub struct HedgeRace {
    last_err: Option<LiterLlmError>,
}

impl HedgeRace {
    /// The last error seen so far.
    pub closed spec fn spec_last_err(&self) -> Option<LiterLlmError> {
        self.last_err
    }

    /// A race in which nothing has finished yet.
    pub fn new() -> (r: Self)
        ensures
            r.spec_last_err() is None,
    {
        HedgeRace { last_err: None }
    }

    /// Account for one attempt's end.  A success wins the race: it is
    /// returned and the other attempts are to be cancelled.  An error (or a
    /// panic, recorded as an internal error) becomes the last error; a
    /// cancellation changes nothing.
    pub fn observe<T>(&mut self, ev: HedgeEvent<T>) -> (win: Option<T>)
        ensures
            ev matches HedgeEvent::Finished(Ok(v)) ==> win == Some(v) && final(self).spec_last_err() == old(self).spec_last_err(),
            !(ev matches HedgeEvent::Finished(Ok(_))) ==> win is None,
            ev matches HedgeEvent::Finished(Err(e)) ==> final(self).spec_last_err() == Some(e),
            ev is Cancelled ==> final(self).spec_last_err() == old(self).spec_last_err(),
            ev matches HedgeEvent::Panicked(detail) ==> (final(self).spec_last_err() matches Some(LiterLlmError::InternalError { message })
                && message@ == panicked_message(detail@)),
    {
        match ev {
            HedgeEvent::Finished(Ok(v)) => Some(v),
            HedgeEvent::Finished(Err(e)) => {
                self.last_err = Some(e);
                None
            },
            HedgeEvent::Cancelled => None,
            HedgeEvent::Panicked(detail) => {
                let mut message = String::from_str("hedge task panicked: ");
                message.append(detail.as_str());
                self.last_err = Some(LiterLlmError::InternalError { message });
                None
            },
        }
    }

    /// The error answered when every attempt ended without a success: the
    /// last recorded error, or an internal error when none was recorded.
    pub fn finish(self) -> (e: LiterLlmError)
        ensures
            self.spec_last_err() matches Some(last) ==> e == last,
            self.spec_last_err() is None ==> (e matches LiterLlmError::InternalError { message } && message@ == no_error_message()),
    {
        match self.last_err {
            Some(e) => e,
            None => LiterLlmError::InternalError { message: String::from_str("all hedged attempts failed with no error recorded") },
        }
    }
}

/// The result of a race whose attempts end in the order of `events`.
pub open spec fn race_result<T>(events: Seq<HedgeEvent<T>>, last: Option<LiterLlmError>) -> Option<Result<T, LiterLlmError>>
    decreases events.len(),
{
    if events.len() == 0 {
        match last {
            Some(e) => Some(Err(e)),
            None => None,
        }
    } else {
        match events[0] {
            HedgeEvent::Finished(Ok(v)) => Some(Ok(v)),
            HedgeEvent::Finished(Err(e)) => race_result(events.drop_first(), Some(e)),
            HedgeEvent::Cancelled => race_result(events.drop_first(), last),
            HedgeEvent::Panicked(_) => race_result(events.drop_first(), event_error(events[0])),
        }
    }
}

/// The first success to arrive is the race's answer, whatever came before
/// it (errors, panics, cancellations).
pub proof fn law_hedge_first_success_wins<T>(events: Seq<HedgeEvent<T>>, k: int, last: Option<LiterLlmError>)
    requires
        0 <= k < events.len(),
        events[k] matches HedgeEvent::Finished(Ok(_)),
        forall|j: int| 0 <= j < k ==> !(#[trigger] events[j] matches HedgeEvent::Finished(Ok(_))),
    ensures
        events[k] matches HedgeEvent::Finished(Ok(v)) && race_result(events, last) == Some(Ok::<T, LiterLlmError>(v)),
    decreases k,
{
    if k > 0 {
        assert(!(events[0] matches HedgeEvent::Finished(Ok(_))));
        let rest = events.drop_first();
        assert forall|j: int| 0 <= j < k - 1 implies !(#[trigger] rest[j] matches HedgeEvent::Finished(Ok(_))) by {
            assert(rest[j] == events[j + 1]);
        }
        let next_last = match events[0] {
            HedgeEvent::Finished(Err(e)) => Some(e),
            HedgeEvent::Panicked(_) => event_error(events[0]),
            _ => last,
        };
        law_hedge_first_success_wins(rest, k - 1, next_last);
    }
}

/// When no attempt succeeds, the answer is the error of the last attempt
/// that failed (a cancellation records none).
pub proof fn law_hedge_all_fail_last_error<T>(events: Seq<HedgeEvent<T>>, k: int, last: Option<LiterLlmError>)
    requires
        0 <= k < events.len(),
        event_error(events[k]) is Some,
        forall|j: int| 0 <= j < events.len() ==> !(#[trigger] events[j] matches HedgeEvent::Finished(Ok(_))),
        forall|j: int| k < j < events.len() ==> #[trigger] events[j] is Cancelled,
    ensures
        race_result(events, last) == Some(Err::<T, LiterLlmError>(event_error(events[k]).unwrap())),
    decreases events.len(),
{
    let rest = events.drop_first();
    assert forall|j: int| 0 <= j < rest.len() implies !(#[trigger] rest[j] matches HedgeEvent::Finished(Ok(_))) by {
        assert(rest[j] == events[j + 1]);
    }
    let next_last = match events[0] {
        HedgeEvent::Finished(Err(e)) => Some(e),
        HedgeEvent::Panicked(_) => event_error(events[0]),
        _ => last,
    };
    if k > 0 {
        assert forall|j: int| k - 1 < j < rest.len() implies #[trigger] rest[j] is Cancelled by {
            assert(rest[j] == events[j + 1]);
        }
        law_hedge_all_fail_last_error(rest, k - 1, next_last);
    } else {
        lemma_cancelled_tail(rest, next_last);
    }
}

proof fn lemma_cancelled_tail<T>(events: Seq<HedgeEvent<T>>, last: Option<LiterLlmError>)
    requires
        forall|j: int| 0 <= j < events.len() ==> #[trigger] events[j] is Cancelled,
        last is Some,
    ensures
        race_result(events, last) == Some(Err::<T, LiterLlmError>(last.unwrap())),
    decreases events.len(),
{
    if events.len() > 0 {
        let rest = events.drop_first();
        assert forall|j: int| 0 <= j < rest.len() implies #[trigger] rest[j] is Cancelled by {
            assert(rest[j] == events[j + 1]);
        }
        assert(events[0] is Cancelled);
        lemma_cancelled_tail(rest, last);
    }
}

} // verus!
