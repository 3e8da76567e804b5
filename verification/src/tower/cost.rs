//! Cost tracking: after a successful call the cost of its usage is priced
//! and recorded on the span.  Pricing works on the token counts below.

use vstd::prelude::*;
use crate::types::common::Usage;

verus! {

/// Layer that records the cost of each successful call.
#[derive(Clone, Copy)]
pub struct CostTrackingLayer;

impl CostTrackingLayer {
    /// Wrap `inner`.
    pub fn layer<S>(&self, inner: S) -> (s: CostTrackingService<S>)
        ensures
            s.inner == inner,
    {
        CostTrackingService { inner }
    }
}

/// Service produced by [`CostTrackingLayer`].
pub struct CostTrackingService<S> {
    /// The wrapped service.
    pub inner: S,
}

/// What is priced for a call: the model and `(prompt, cached, completion)`
/// tokens, when the request names a model and the response has usage.
pub fn cost_inputs(model: Option<String>, usage: &Option<Usage>) -> (r: Option<(String, u64, u64, u64)>)
    ensures
        (model is None || usage is None) ==> r is None,
        model matches Some(m) ==> (usage matches Some(u) ==> (r matches Some((name, p, c, k)) && name@ == m@
            && p == u.prompt_tokens && k == u.completion_tokens
            && c == (match u.prompt_tokens_details { Some(d) => d.cached_tokens, None => 0 }))),
{
    match model {
        None => None,
        Some(m) => match usage {
            None => None,
            Some(u) => {
                let cached = match u.prompt_tokens_details {
                    Some(d) => d.cached_tokens,
                    None => 0,
                };
                Some((m, u.prompt_tokens, cached, u.completion_tokens))
            },
        },
    }
}

} // verus!
