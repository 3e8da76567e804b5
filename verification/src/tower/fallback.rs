//! Single fallback: when the primary service fails with a transient error
//! the request is replayed on a fallback service.  Authentication and
//! bad-request errors are returned as they are, because another service
//! would answer them the same way.

use vstd::prelude::*;
use crate::error::{LiterLlmError, spec_is_transient};

verus! {

/// Layer that pairs a primary service with a fallback.
pub struct FallbackLayer<F> {
    fallback: F,
}

impl<F> FallbackLayer<F> {
    /// The fallback service.
    pub closed spec fn spec_fallback(&self) -> F {
        self.fallback
    }

    /// A layer that falls back to `fallback`.
    pub fn new(fallback: F) -> (l: Self)
        ensures
            l.spec_fallback() == fallback,
    {
        FallbackLayer { fallback }
    }

    /// Wrap `primary`; the service gets a clone of the fallback.
    pub fn layer<S>(&self, primary: S) -> (s: FallbackService<S, F>)
        where F: Clone
        ensures
            s.primary == primary,
            cloned::<F>(self.spec_fallback(), s.fallback),
    {
        FallbackService { primary, fallback: self.fallback.clone() }
    }
}

/// Service produced by [`FallbackLayer`].
pub struct FallbackService<S, F> {
    /// Tried first.
    pub primary: S,
    /// Tried when the primary fails transiently.
    pub fallback: F,
}

/// What to do once the primary service has answered.
pub enum FallbackStep<T> {
    /// Hand this result to the caller.
    Return(Result<T, LiterLlmError>),
    /// Replay the request on the fallback and return its result.
    TryFallback,
}

/// Decision after the primary's answer: a success or a non-transient error
/// is returned; a transient error sends the request to the fallback.
pub fn fallback_after_primary<T>(primary: Result<T, LiterLlmError>) -> (s: FallbackStep<T>)
    ensures
        (primary matches Err(e) && spec_is_transient(e)) ==> s is TryFallback,
        !(primary matches Err(e) && spec_is_transient(e)) ==> s == FallbackStep::Return(primary),
{
    match primary {
        Ok(v) => FallbackStep::Return(Ok(v)),
        Err(e) => {
            if e.is_transient() {
                FallbackStep::TryFallback
            } else {
                FallbackStep::Return(Err(e))
            }
        },
    }
}

} // verus!
