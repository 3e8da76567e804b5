//! GenAI semantic-convention span attributes.
//!
//! The tracing layer opens one `gen_ai` span per call with the operation
//! name, the requested model and the provider ("system") prefix of the
//! model, and records from a chat response its id, model, finish reasons
//! and token usage; on error it records the error's type name.

use vstd::prelude::*;
use crate::types::chat::{ChatCompletionResponse, FinishReason};
use crate::tower::request::{RequestKind, spec_operation_name};
use crate::text::{provider_prefix, first_slash};

verus! {

/// GenAI name of a finish reason.
pub open spec fn spec_finish_reason_name(r: FinishReason) -> Seq<char> {
    match r {
        FinishReason::Stop => "stop"@,
        FinishReason::Length => "length"@,
        FinishReason::ToolCalls => "tool_calls"@,
        FinishReason::ContentFilter => "content_filter"@,
        FinishReason::FunctionCall => "function_call"@,
        FinishReason::Other => "other"@,
    }
}

/// The GenAI name of a finish reason.
pub fn finish_reason_name(reason: &FinishReason) -> (s: &'static str)
    ensures
        s@ == spec_finish_reason_name(*reason),
{
    match reason {
        FinishReason::Stop => {
            proof { reveal_strlit("stop"); }
            "stop"
        },
        FinishReason::Length => {
            proof { reveal_strlit("length"); }
            "length"
        },
        FinishReason::ToolCalls => {
            proof { reveal_strlit("tool_calls"); }
            "tool_calls"
        },
        FinishReason::ContentFilter => {
            proof { reveal_strlit("content_filter"); }
            "content_filter"
        },
        FinishReason::FunctionCall => {
            proof { reveal_strlit("function_call"); }
            "function_call"
        },
        FinishReason::Other => {
            proof { reveal_strlit("other"); }
            "other"
        },
    }
}

/// The names of the present finish reasons, separated by single spaces.
pub open spec fn finish_reasons_text(rs: Seq<Option<FinishReason>>) -> Seq<char>
    decreases rs.len(),
{
    if rs.len() == 0 {
        Seq::empty()
    } else {
        let prev = finish_reasons_text(rs.drop_last());
        match rs.last() {
            None => prev,
            Some(r) => if prev.len() == 0 {
                spec_finish_reason_name(r)
            } else {
                prev + " "@ + spec_finish_reason_name(r)
            },
        }
    }
}

/// Space-separated finish reason names of the choices; `None` entries are
/// skipped, and no reason at all gives the empty string.
pub fn finish_reasons_str(reasons: &Vec<Option<FinishReason>>) -> (s: String)
    ensures
        s@ == finish_reasons_text(reasons@),
{
    let mut s = String::new();
    let mut i: usize = 0;
    while i < reasons.len()
        invariant
            i <= reasons.len(),
            s@ == finish_reasons_text(reasons@.subrange(0, i as int)),
        decreases reasons.len() - i,
    {
        proof {
            assert(reasons@.subrange(0, i as int + 1).drop_last() =~= reasons@.subrange(0, i as int));
        }
        if let Some(r) = &reasons[i] {
            let name = finish_reason_name(r);
            if s.as_str().is_empty() {
                s.append(name);
            } else {
                s.append(" ");
                s.append(name);
                proof { reveal_strlit(" "); }
            }
        }
        i = i + 1;
    }
    proof {
        assert(reasons@.subrange(0, reasons@.len() as int) =~= reasons@);
    }
    s
}

/// The finish reasons of a chat response, one per choice.
pub fn choice_finish_reasons(resp: &ChatCompletionResponse) -> (rs: Vec<Option<FinishReason>>)
    ensures
        rs@.len() == resp.choices@.len(),
        forall|i: int| 0 <= i < rs@.len() ==> rs@[i] == #[trigger] resp.choices@[i].finish_reason,
{
    let mut rs: Vec<Option<FinishReason>> = Vec::new();
    let mut i: usize = 0;
    while i < resp.choices.len()
        invariant
            i <= resp.choices@.len(),
            rs@.len() == i,
            forall|j: int| 0 <= j < i ==> rs@[j] == #[trigger] resp.choices@[j].finish_reason,
        decreases resp.choices@.len() - i,
    {
        rs.push(resp.choices[i].finish_reason);
        i = i + 1;
    }
    rs
}

/// Attributes of a `gen_ai` span known when the request is made.
pub struct RequestSpanAttributes {
    /// `gen_ai.operation.name`.
    pub operation_name: &'static str,
    /// `gen_ai.request.model` (empty when the request names no model).
    pub model: String,
    /// `gen_ai.system`: the provider prefix of the model.
    pub system: String,
}

/// The request-side span attributes.
pub fn request_span_attributes(kind: RequestKind, model: Option<&str>) -> (a: RequestSpanAttributes)
    ensures
        a.operation_name@ == spec_operation_name(kind),
        model is None ==> a.model@.len() == 0 && a.system@.len() == 0,
        model matches Some(m) ==> a.model@ == m@
            && (forall|i: int| first_slash(m@, i) ==> a.system@ == m@.subrange(0, i))
            && ((forall|i: int| 0 <= i < m@.len() ==> m@[i] != '/') ==> a.system@.len() == 0),
{
    let operation_name = kind.operation_name();
    match model {
        Some(m) => RequestSpanAttributes { operation_name, model: String::from_str(m), system: provider_prefix(m) },
        None => RequestSpanAttributes { operation_name, model: String::new(), system: String::new() },
    }
}

/// Layer that wraps a service with GenAI tracing spans.
pub struct TracingLayer;

impl TracingLayer {
    /// Wrap `inner`.
    pub fn layer<S>(&self, inner: S) -> (s: TracingService<S>)
        ensures
            s.inner == inner,
    {
        TracingService { inner }
    }
}

/// Service produced by [`TracingLayer`].
pub struct TracingService<S> {
    /// The wrapped service.
    pub inner: S,
}

} // verus!
