//! User hooks around a service, and the usage record of a completed call.
//!
//! Pre-request hooks run in registration order; the first that fails (or
//! panics) short-circuits the call.  After the call one usage record is
//! built, on the success path from the response's usage, on the error path
//! with zero tokens.

use vstd::prelude::*;
use crate::error::LiterLlmError;
use crate::types::chat::{ChatCompletionResponse, FinishReason};
use crate::types::common::Usage;
use crate::text::{provider_prefix, first_slash, u64_decimal, decimal_text};

verus! {

/// How one pre-request hook ended.
pub enum PreHookOutcome {
    /// The hook let the request through.
    Passed,
    /// The hook refused the request with this error.
    Failed(LiterLlmError),
    /// The hook panicked.
    Panicked,
}

/// Message of the error answered when a pre-request hook panicked.
pub open spec fn hook_panicked_message() -> Seq<char> {
    "hook panicked"@
}

/// The error a pre-request hook's outcome stops the call with, if any.
pub open spec fn pre_hook_error(o: PreHookOutcome, e: LiterLlmError) -> bool {
    match o {
        PreHookOutcome::Passed => false,
        PreHookOutcome::Failed(err) => e == err,
        PreHookOutcome::Panicked => e matches LiterLlmError::HookRejected { message } && message@ == hook_panicked_message(),
    }
}

/// Decision after one pre-request hook: `None` runs the next hook (or the
/// inner service after the last one); an error ends the call.
pub fn pre_hook_step(outcome: PreHookOutcome) -> (r: Option<LiterLlmError>)
    ensures
        outcome is Passed ==> r is None,
        !(outcome is Passed) ==> (r matches Some(e) && pre_hook_error(outcome, e)),
{
    match outcome {
        PreHookOutcome::Passed => None,
        PreHookOutcome::Failed(e) => Some(e),
        PreHookOutcome::Panicked => {
            proof { reveal_strlit("hook panicked"); }
            Some(LiterLlmError::HookRejected { message: String::from_str("hook panicked") })
        },
    }
}

/// Running the hooks whose outcomes are `outs`, in order: the index of the
/// first hook that stops the call, or `None` when all passed.
pub open spec fn first_stopping_hook(outs: Seq<PreHookOutcome>) -> Option<nat>
    decreases outs.len(),
{
    if outs.len() == 0 {
        None
    } else if !(outs[0] is Passed) {
        Some(0)
    } else {
        match first_stopping_hook(outs.drop_first()) {
            Some(i) => Some(i + 1),
            None => None,
        }
    }
}

/// The pre-request chain stops at the first hook that does not pass, and
/// no later hook runs; the inner service is called only when every hook
/// passed.
pub proof fn law_hooks_short_circuit(outs: Seq<PreHookOutcome>, k: int)
    requires
        0 <= k < outs.len(),
        !(outs[k] is Passed),
        forall|j: int| 0 <= j < k ==> #[trigger] outs[j] is Passed,
    ensures
        first_stopping_hook(outs) == Some(k as nat),
    decreases k,
{
    if k > 0 {
        let rest = outs.drop_first();
        assert forall|j: int| 0 <= j < k - 1 implies #[trigger] rest[j] is Passed by {
            assert(rest[j] == outs[j + 1]);
        }
        assert(outs[0] is Passed);
        law_hooks_short_circuit(rest, k - 1);
    }
}

/// All hooks passing lets the call through.
pub proof fn law_hooks_all_pass(outs: Seq<PreHookOutcome>)
    requires
        forall|j: int| 0 <= j < outs.len() ==> #[trigger] outs[j] is Passed,
    ensures
        first_stopping_hook(outs) is None,
    decreases outs.len(),
{
    if outs.len() > 0 {
        let rest = outs.drop_first();
        assert forall|j: int| 0 <= j < rest.len() implies #[trigger] rest[j] is Passed by {
            assert(rest[j] == outs[j + 1]);
        }
        assert(outs[0] is Passed);
        law_hooks_all_pass(rest);
    }
}

/// Outcome of a completed call, as reported in its usage record.
#[derive(Debug, Clone, Copy, PartialEq, Eq, Structural)]
pub enum UsageOutcome {
    /// The call succeeded.
    Success,
    /// The call failed.
    Error,
    /// The call timed out.
    TimedOut,
    /// The caller dropped the call before it finished.
    Cancelled,
}

/// A timeout is reported as such; every other error as an error.
pub fn classify_error_outcome(err: &LiterLlmError) -> (o: UsageOutcome)
    ensures
        o == (if *err is Timeout { UsageOutcome::TimedOut } else { UsageOutcome::Error }),
{
    match err {
        LiterLlmError::Timeout => UsageOutcome::TimedOut,
        _ => UsageOutcome::Error,
    }
}

/// Lowercased `Debug` name of a finish reason (`ToolCalls` gives `toolcalls`).
pub open spec fn finish_reason_debug_lower(r: FinishReason) -> Seq<char> {
    match r {
        FinishReason::Stop => "stop"@,
        FinishReason::Length => "length"@,
        FinishReason::ToolCalls => "toolcalls"@,
        FinishReason::ContentFilter => "contentfilter"@,
        FinishReason::FunctionCall => "functioncall"@,
        FinishReason::Other => "other"@,
    }
}

/// The finish reason of the first choice, if any.
pub open spec fn first_reason(c: ChatCompletionResponse) -> Option<FinishReason> {
    if c.choices@.len() > 0 { c.choices@[0].finish_reason } else { None }
}

/// `s` is the lowercased `Debug` name of `r` (both absent, or both present).
pub open spec fn reason_matches(s: Option<String>, r: Option<FinishReason>) -> bool {
    match r {
        Some(fr) => s matches Some(t) && t@ == finish_reason_debug_lower(fr),
        None => s is None,
    }
}

/// The finish reason of the first choice, as its lowercased `Debug` name.
pub fn first_finish_reason(resp: &ChatCompletionResponse) -> (r: Option<String>)
    ensures
        reason_matches(r, first_reason(*resp)),
{
    if resp.choices.len() == 0 {
        return None;
    }
    match resp.choices[0].finish_reason {
        None => None,
        Some(fr) => {
            let s = match fr {
                FinishReason::Stop => "stop",
                FinishReason::Length => "length",
                FinishReason::ToolCalls => "toolcalls",
                FinishReason::ContentFilter => "contentfilter",
                FinishReason::FunctionCall => "functioncall",
                FinishReason::Other => "other",
            };
            proof {
                reveal_strlit("stop");
                reveal_strlit("length");
                reveal_strlit("toolcalls");
                reveal_strlit("contentfilter");
                reveal_strlit("functioncall");
                reveal_strlit("other");
            }
            Some(String::from_str(s))
        },
    }
}

/// Token counts of a usage block: `(prompt, completion, cached, total)`,
/// all zero without usage and cached zero without a prompt breakdown.
pub fn usage_tokens(usage: &Option<Usage>) -> (t: (u64, u64, u64, u64))
    ensures
        usage is None ==> t == (0u64, 0u64, 0u64, 0u64),
        usage matches Some(u) ==> t.0 == u.prompt_tokens && t.1 == u.completion_tokens && t.3 == u.total_tokens
            && t.2 == (match u.prompt_tokens_details { Some(d) => d.cached_tokens, None => 0 }),
{
    match usage {
        None => (0, 0, 0, 0),
        Some(u) => {
            let cached = match u.prompt_tokens_details {
                Some(d) => d.cached_tokens,
                None => 0,
            };
            (u.prompt_tokens, u.completion_tokens, cached, u.total_tokens)
        },
    }
}

/// The request id of a usage record: the idempotency key when there is
/// one, otherwise the next value of the process-wide counter in decimal.
pub fn request_id(idempotency_key: Option<String>, counter: u64) -> (s: String)
    ensures
        idempotency_key matches Some(k) ==> s@ == k@,
        idempotency_key is None ==> s@ == decimal_text(counter as nat),
{
    match idempotency_key {
        Some(k) => k,
        None => u64_decimal(counter),
    }
}

/// The usage record of a completed call (the cost is attached separately).
pub struct UsageRecord {
    /// Tenant of the request.
    pub tenant_id: Option<String>,
    /// Correlation id.
    pub request_id: String,
    /// Requested model (empty when none).
    pub model: String,
    /// Provider prefix of the model.
    pub provider: String,
    /// Prompt tokens.
    pub prompt_tokens: u64,
    /// Completion tokens.
    pub completion_tokens: u64,
    /// Cached prompt tokens.
    pub cached_tokens: u64,
    /// Total tokens.
    pub total_tokens: u64,
    /// Finish reason of the first choice of a chat response.
    pub finish_reason: Option<String>,
    /// How the call ended.
    pub outcome: UsageOutcome,
    /// Latency in milliseconds.
    pub latency_ms: u64,
}

/// Whether `provider` is the provider prefix of `model`.
pub open spec fn is_provider_of(provider: Seq<char>, model: Seq<char>) -> bool {
    &&& forall|i: int| first_slash(model, i) ==> provider == model.subrange(0, i)
    &&& (forall|i: int| 0 <= i < model.len() ==> model[i] != '/') ==> provider.len() == 0
}

/// The usage record of a successful call: tokens from the response's usage,
/// finish reason from a chat response's first choice.
pub fn success_usage_record(
    tenant_id: Option<String>,
    request_id: String,
    model: Option<&str>,
    usage: &Option<Usage>,
    chat: Option<&ChatCompletionResponse>,
    latency_ms: u64,
) -> (r: UsageRecord)
    ensures
        r.tenant_id == tenant_id,
        r.request_id@ == request_id@,
        model matches Some(m) ==> r.model@ == m@,
        model is None ==> r.model@.len() == 0,
        is_provider_of(r.provider@, r.model@),
        usage is None ==> r.prompt_tokens == 0 && r.completion_tokens == 0 && r.cached_tokens == 0 && r.total_tokens == 0,
        usage matches Some(u) ==> r.prompt_tokens == u.prompt_tokens && r.completion_tokens == u.completion_tokens
            && r.total_tokens == u.total_tokens
            && r.cached_tokens == (match u.prompt_tokens_details { Some(d) => d.cached_tokens, None => 0 }),
        chat is None ==> r.finish_reason is None,
        chat matches Some(c) ==> reason_matches(r.finish_reason, first_reason(*c)),
        r.outcome == UsageOutcome::Success,
        r.latency_ms == latency_ms,
{
    let model_s = match model {
        Some(m) => String::from_str(m),
        None => String::new(),
    };
    let provider = provider_prefix(model_s.as_str());
    let (p, c, k, t) = usage_tokens(usage);
    let finish_reason = match chat {
        Some(resp) => first_finish_reason(resp),
        None => None,
    };
    UsageRecord {
        tenant_id,
        request_id,
        model: model_s,
        provider,
        prompt_tokens: p,
        completion_tokens: c,
        cached_tokens: k,
        total_tokens: t,
        finish_reason,
        outcome: UsageOutcome::Success,
        latency_ms,
    }
}

/// The usage record of a failed or cancelled call: no tokens, no finish reason.
pub fn error_usage_record(
    tenant_id: Option<String>,
    request_id: String,
    model: Option<&str>,
    outcome: UsageOutcome,
    latency_ms: u64,
) -> (r: UsageRecord)
    ensures
        r.tenant_id == tenant_id,
        r.request_id@ == request_id@,
        model matches Some(m) ==> r.model@ == m@,
        model is None ==> r.model@.len() == 0,
        is_provider_of(r.provider@, r.model@),
        r.prompt_tokens == 0 && r.completion_tokens == 0 && r.cached_tokens == 0 && r.total_tokens == 0,
        r.finish_reason is None,
        r.outcome == outcome,
        r.latency_ms == latency_ms,
{
    let model_s = match model {
        Some(m) => String::from_str(m),
        None => String::new(),
    };
    let provider = provider_prefix(model_s.as_str());
    UsageRecord {
        tenant_id,
        request_id,
        model: model_s,
        provider,
        prompt_tokens: 0,
        completion_tokens: 0,
        cached_tokens: 0,
        total_tokens: 0,
        finish_reason: None,
        outcome,
        latency_ms,
    }
}

} // verus!
