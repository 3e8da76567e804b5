//! Errors of the circuit-breaker and hedging layers, and the library errors
//! they become: each becomes an `InternalError` carrying its text.

use vstd::prelude::*;
use crate::error::LiterLlmError;

verus! {

/// `Debug` rendering of a duration of `ms` milliseconds (as
/// `format!("{:?}", Duration::from_millis(ms))` prints it, e.g. `1.5s`).
pub uninterp spec fn duration_debug_text(ms: u64) -> Seq<char>;

/// Renders `Duration::from_millis(ms)` with its `Debug` format.  The text is
/// a function of `ms` alone.
#[verifier::external_body]
fn duration_debug(ms: u64) -> (s: String)
    ensures
        s@ == duration_debug_text(ms),
{
    format!("{:?}", std::time::Duration::from_millis(ms))
}

/// The circuit is open for a provider.
#[derive(Debug, Clone)]
pub struct CircuitOpenError {
    /// Provider or deployment name.
    pub provider: String,
    /// Suggested retry delay in milliseconds.
    pub retry_after_ms: u64,
}

/// Text of a [`CircuitOpenError`].
pub open spec fn circuit_open_text(provider: Seq<char>, retry_after_ms: u64) -> Seq<char> {
    "circuit open for provider "@ + provider + ": retry after "@ + duration_debug_text(retry_after_ms)
}

impl CircuitOpenError {
    /// The error's text: `circuit open for provider <p>: retry after <d>`.
    pub fn message(&self) -> (s: String)
        ensures
            s@ == circuit_open_text(self.provider@, self.retry_after_ms),
    {
        let mut s = String::from_str("circuit open for provider ");
        s.append(self.provider.as_str());
        s.append(": retry after ");
        let d = duration_debug(self.retry_after_ms);
        s.append(d.as_str());
        s
    }

    /// The library error it becomes: an internal error with the text.
    pub fn into_error(self) -> (e: LiterLlmError)
        ensures
            e matches LiterLlmError::InternalError { message }
                && message@ == circuit_open_text(self.provider@, self.retry_after_ms),
    {
        let message = self.message();
        LiterLlmError::InternalError { message }
    }
}

/// Every hedged attempt ended without a response.
#[derive(Debug, Clone, Copy, PartialEq, Eq, Structural)]
pub struct HedgeExhaustedError {
    /// Number of attempts launched.
    pub attempts: u32,
}

/// Text of a [`HedgeExhaustedError`].
pub open spec fn hedge_exhausted_text(attempts: nat) -> Seq<char> {
    "all "@ + crate::text::decimal_text(attempts) + " hedged attempts exhausted"@
}

impl HedgeExhaustedError {
    /// The error's text: `all <n> hedged attempts exhausted`.
    pub fn message(&self) -> (s: String)
        ensures
            s@ == hedge_exhausted_text(self.attempts as nat),
    {
        let mut s = String::from_str("all ");
        let n = crate::text::u64_decimal(self.attempts as u64);
        s.append(n.as_str());
        s.append(" hedged attempts exhausted");
        s
    }

    /// The library error it becomes: an internal error with the text.
    pub fn into_error(self) -> (e: LiterLlmError)
        ensures
            e matches LiterLlmError::InternalError { message }
                && message@ == hedge_exhausted_text(self.attempts as nat),
    {
        let message = self.message();
        LiterLlmError::InternalError { message }
    }
}

} // verus!
