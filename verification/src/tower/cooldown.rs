//! Deployment cooldown: after a transient error the wrapped service rejects
//! every request for a fixed duration, then lets traffic through again.
//!
//! Times are milliseconds on a monotonic clock supplied by the caller.

use vstd::prelude::*;
use vstd::string::*;
use crate::error::{LiterLlmError, spec_is_transient};
use crate::text::{decimal_text, u64_decimal, rounded_secs, rounded_secs_exec};

verus! {

/// Layer that applies a cooldown period after transient errors.
pub struct CooldownLayer {
    duration_ms: u64,
}

impl CooldownLayer {
    /// After a transient error the wrapped service rejects all requests for
    /// `duration_ms` before letting traffic through again.
    pub fn new(duration_ms: u64) -> (l: Self)
        ensures
            l.spec_duration_ms() == duration_ms,
    {
        CooldownLayer { duration_ms }
    }

    /// The cooldown length.
    pub closed spec fn spec_duration_ms(&self) -> u64 {
        self.duration_ms
    }

    /// The cooldown length in milliseconds.
    pub fn duration_ms(&self) -> (d: u64)
        ensures
            d == self.spec_duration_ms(),
    {
        self.duration_ms
    }
}

/// The message of the error returned during a cooldown of `duration_ms`.
pub open spec fn cooldown_message(duration_ms: nat) -> Seq<char> {
    "service is cooling down for "@ + decimal_text(rounded_secs(duration_ms)) + "s after a transient error"@
}

/// Elapsed time since `start`, never negative.
pub open spec fn elapsed_since(start: u64, now: u64) -> int {
    if now >= start { now - start } else { 0 }
}

/// Whether a cooldown that started at `start` is still running at `now`.
pub open spec fn cooling(start: Option<u64>, duration_ms: u64, now: u64) -> bool {
    start matches Some(s) && elapsed_since(s, now) < duration_ms
}

/// Cooldown bookkeeping shared by all clones of a cooldown service.
#[derive(Debug, Clone, Copy)]
pub struct CooldownState {
    cooldown_start_ms: Option<u64>,
}

impl CooldownState {
    /// When the running cooldown started, if one has been entered and not cleared.
    pub closed spec fn spec_start(&self) -> Option<u64> {
        self.cooldown_start_ms
    }

    /// No cooldown in progress.
    pub fn new() -> (s: Self)
        ensures
            s.spec_start() is None,
    {
        CooldownState { cooldown_start_ms: None }
    }

    /// When the running cooldown started, if any.
    pub fn start_ms(&self) -> (r: Option<u64>)
        ensures
            r == self.spec_start(),
    {
        self.cooldown_start_ms
    }

    /// Pre-flight gate at `now_ms`: reject while cooling down; once the
    /// cooldown has run out it is cleared and the request passes.  The inner
    /// service is not to be called on `Err`.
    pub fn gate(&mut self, duration_ms: u64, now_ms: u64) -> (r: Result<(), LiterLlmError>)
        ensures
            r is Ok <==> !cooling(old(self).spec_start(), duration_ms, now_ms),
            r is Err ==> final(self).spec_start() == old(self).spec_start(),
            r is Ok ==> final(self).spec_start() is None,
            r matches Err(e) ==> (e matches LiterLlmError::ServiceUnavailable { message, status }
                && status == 503 && message@ == cooldown_message(duration_ms as nat)),
    {
        if let Some(start) = self.cooldown_start_ms {
            if now_ms.saturating_sub(start) < duration_ms {
                let mut message = String::from_str("service is cooling down for ");
                let secs = u64_decimal(rounded_secs_exec(duration_ms));
                message.append(secs.as_str());
                message.append("s after a transient error");
                proof {
                    reveal_strlit("service is cooling down for ");
                    reveal_strlit("s after a transient error");
                    assert(message@ =~= cooldown_message(duration_ms as nat));
                }
                return Err(LiterLlmError::ServiceUnavailable { message, status: 503 });
            }
            self.cooldown_start_ms = None;
        }
        Ok(())
    }

    /// Post-flight bookkeeping: a transient error at `now_ms` starts a new
    /// cooldown; successes and other errors change nothing.
    pub fn observe<R>(&mut self, outcome: &Result<R, LiterLlmError>, now_ms: u64)
        ensures
            outcome matches Err(e) && spec_is_transient(*e) ==> final(self).spec_start() == Some(now_ms),
            !(outcome matches Err(e) && spec_is_transient(*e)) ==> final(self).spec_start() == old(self).spec_start(),
    {
        if let Err(e) = outcome {
            if e.is_transient() {
                self.cooldown_start_ms = Some(now_ms);
            }
        }
    }
}

/// After a transient error at `t`, every request before `t + duration` is
/// rejected and the first one at or after it passes.
pub proof fn law_cooldown_window(t: u64, duration_ms: u64, now: u64)
    ensures
        now >= t && now - t < duration_ms ==> cooling(Some(t), duration_ms, now),
        now >= t && now - t >= duration_ms ==> !cooling(Some(t), duration_ms, now),
        !cooling(None, duration_ms, now),
{
}

} // verus!
