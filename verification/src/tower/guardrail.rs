//! Guardrail enforcement around a service.
//!
//! The registered guardrails run at the input stage (before the inner
//! service) and at the output stage (on chat, embedding and model-list
//! responses).  A `Block` decision becomes a `HookRejected` error.  At the
//! input stage `Mutate` and `Allow` let the original request through; at the
//! output stage `Mutate` replaces the response with the mutated payload
//! (decoded back into the response type) and `Allow` keeps the response.

use vstd::prelude::*;
use std::collections::HashMap;
use std::sync::Arc;
use crate::error::LiterLlmError;
use crate::tower::request::RequestKind;

verus! {

/// Decision of the guardrails at one stage.
#[derive(Debug, Clone)]
pub enum GuardrailDecision {
    /// Let the payload through.
    Allow,
    /// Refuse with a reason and a code.
    Block { reason: String, code: String },
    /// Replace the payload (the original is kept by this layer).
    Mutate { payload: String },
}

/// Message for a request blocked at the input stage.
pub open spec fn input_block_message(code: Seq<char>, reason: Seq<char>) -> Seq<char> {
    "guardrail blocked [code="@ + code + "]: "@ + reason
}

/// Message for a response blocked at the output stage.
pub open spec fn output_block_message(code: Seq<char>, reason: Seq<char>) -> Seq<char> {
    "guardrail blocked output [code="@ + code + "]: "@ + reason
}

/// Message when the request cannot be serialised for the guardrails.
pub open spec fn serialize_failure_message(detail: Seq<char>) -> Seq<char> {
    "guardrail: failed to serialize request: "@ + detail
}

/// The error answered when the request could not be serialised.
pub fn serialize_failure(detail: &str) -> (e: LiterLlmError)
    ensures
        e matches LiterLlmError::InternalError { message } && message@ == serialize_failure_message(detail@),
{
    let mut message = String::from_str("guardrail: failed to serialize request: ");
    message.append(detail);
    LiterLlmError::InternalError { message }
}

fn block_message(prefix: &str, code: &str, reason: &str) -> (s: String)
    ensures
        s@ == prefix@ + code@ + "]: "@ + reason@,
{
    let mut s = String::from_str(prefix);
    s.append(code);
    s.append("]: ");
    s.append(reason);
    s
}

/// Input stage: a block refuses the request (the inner service is not
/// called); mutate and allow let the original request through.
pub fn input_verdict(decision: &GuardrailDecision) -> (r: Option<LiterLlmError>)
    ensures
        decision matches GuardrailDecision::Block { reason, code } ==> (r matches Some(LiterLlmError::HookRejected { message })
            && message@ == input_block_message(code@, reason@)),
        !(decision is Block) ==> r is None,
{
    match decision {
        GuardrailDecision::Block { reason, code } => {
            let message = block_message("guardrail blocked [code=", code.as_str(), reason.as_str());
            proof {
                reveal_strlit("guardrail blocked [code=");
                reveal_strlit("]: ");
            }
            Some(LiterLlmError::HookRejected { message })
        },
        _ => None,
    }
}

/// Whether the output stage runs for a response of this kind: only chat,
/// embedding and model-list responses are checked.
pub fn output_stage_applies(kind: RequestKind) -> (b: bool)
    ensures
        b == (kind == RequestKind::Chat || kind == RequestKind::Embed || kind == RequestKind::ListModels),
{
    match kind {
        RequestKind::Chat | RequestKind::Embed | RequestKind::ListModels => true,
        _ => false,
    }
}

/// What the output stage hands back when it does not refuse.
#[derive(Debug, Clone, PartialEq, Eq)]
pub enum OutputAnswer<T> {
    /// The inner service's response, unchanged.
    Original(T),
    /// The mutated payload (JSON) that replaces the response.
    Replaced(String),
}

/// Output stage: a block replaces the response with an error; a mutation
/// replaces it with the mutated payload; allow keeps the original response.
pub fn output_verdict<T>(decision: &GuardrailDecision, response: T) -> (r: Result<OutputAnswer<T>, LiterLlmError>)
    ensures
        decision matches GuardrailDecision::Block { reason, code } ==> (r matches Err(LiterLlmError::HookRejected { message })
            && message@ == output_block_message(code@, reason@)),
        decision matches GuardrailDecision::Mutate { payload } ==> (r matches Ok(OutputAnswer::Replaced(p)) && p@ == payload@),
        decision is Allow ==> r == Ok::<OutputAnswer<T>, LiterLlmError>(OutputAnswer::Original(response)),
{
    match decision {
        GuardrailDecision::Block { reason, code } => {
            let message = block_message("guardrail blocked output [code=", code.as_str(), reason.as_str());
            proof {
                reveal_strlit("guardrail blocked output [code=");
                reveal_strlit("]: ");
            }
            Err(LiterLlmError::HookRejected { message })
        },
        GuardrailDecision::Mutate { payload } => Ok(OutputAnswer::Replaced(payload.clone())),
        GuardrailDecision::Allow => Ok(OutputAnswer::Original(response)),
    }
}

/// Message when a mutated payload does not decode into the response type.
pub open spec fn undecodable_mutation_message() -> Seq<char> {
    "guardrail: mutated output is not a valid response"@
}

/// The response that replaces the original after an output mutation, given
/// the mutated payload decoded into the response type (`None` when it does
/// not decode): the decoded response, or an internal error.
pub fn replaced_response<T>(decoded: Option<T>) -> (r: Result<T, LiterLlmError>)
    ensures
        decoded matches Some(v) ==> r == Ok::<T, LiterLlmError>(v),
        decoded is None ==> (r matches Err(LiterLlmError::InternalError { message })
            && message@ == undecodable_mutation_message()),
{
    match decoded {
        Some(v) => Ok(v),
        None => {
            proof { reveal_strlit("guardrail: mutated output is not a valid response"); }
            Err(LiterLlmError::InternalError { message: String::from_str("guardrail: mutated output is not a valid response") })
        },
    }
}

/// Layer running a guardrail registry `G` with static metadata tags.
pub struct GuardrailLayer<G> {
    registry: Arc<G>,
    metadata: Arc<HashMap<String, String>>,
}

impl<G> GuardrailLayer<G> {
    /// The registry.
    pub closed spec fn spec_registry(&self) -> G {
        *self.registry
    }

    /// The static metadata.
    pub closed spec fn spec_metadata(&self) -> HashMap<String, String> {
        *self.metadata
    }

    /// A layer with the given registry and static metadata.
    pub fn new(registry: Arc<G>, metadata: HashMap<String, String>) -> (l: Self)
        ensures
            l.spec_registry() == *registry,
            l.spec_metadata() == metadata,
    {
        GuardrailLayer { registry, metadata: Arc::new(metadata) }
    }

    /// A layer with no static metadata.
    pub fn with_registry(registry: Arc<G>) -> (l: Self)
        ensures
            l.spec_registry() == *registry,
            l.spec_metadata()@ == Map::<String, String>::empty(),
    {
        Self::new(registry, HashMap::new())
    }

    /// Wrap `inner`; the service shares the registry and metadata.
    pub fn layer<S>(&self, inner: S) -> (s: GuardrailService<G, S>)
        ensures
            s.inner == inner,
            *s.registry == self.spec_registry(),
            *s.metadata == self.spec_metadata(),
    {
        GuardrailService { inner, registry: Arc::clone(&self.registry), metadata: Arc::clone(&self.metadata) }
    }
}

/// Service produced by [`GuardrailLayer`].
pub struct GuardrailService<G, S> {
    /// The wrapped service.
    pub inner: S,
    /// The shared registry.
    pub registry: Arc<G>,
    /// The shared static metadata.
    pub metadata: Arc<HashMap<String, String>>,
}

} // verus!
