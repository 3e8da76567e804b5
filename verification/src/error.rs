//! Error type shared by every layer, with the transient/terminal
//! classification that drives retries, fallbacks, cooldowns and circuit trips.

use vstd::prelude::*;
use vstd::string::*;

verus! {

/// Errors surfaced by the client and by the middleware layers.
#[derive(Debug, Clone)]
pub enum LiterLlmError {
    /// Credentials were rejected by the provider.
    Authentication { message: String },
    /// The request was malformed or rejected as invalid.
    BadRequest { message: String, status: u16 },
    /// A spending budget would be exceeded.
    BudgetExceeded { message: String, model: Option<String> },
    /// The provider does not support the requested endpoint.
    EndpointNotSupported { endpoint: String, provider: String },
    /// A hook or guardrail rejected the request.
    HookRejected { message: String },
    /// The same idempotency key was reused with a different body.
    IdempotencyConflict { key: String },
    /// A request with the same idempotency key is still in flight.
    IdempotencyInFlight { key: String },
    /// An internal invariant failed or an internal component errored.
    InternalError { message: String },
    /// The provider or a local limiter rate-limited the request.
    /// `retry_after_ms` is the suggested wait in milliseconds.
    RateLimited { message: String, retry_after_ms: Option<u64> },
    /// The provider returned a server-side (5xx) error.
    ServerError { message: String, status: u16 },
    /// The provider (or a protective layer) is unavailable.
    ServiceUnavailable { message: String, status: u16 },
    /// A streaming parser or buffer guard aborted the stream.
    Streaming { message: String },
    /// The request timed out.
    Timeout,
    /// A network-level failure occurred.
    Network { message: String },
}

/// Transient errors are those worth retrying elsewhere or later: rate
/// limiting, unavailability, timeouts, server errors and network failures.
pub open spec fn spec_is_transient(e: LiterLlmError) -> bool {
    match e {
        LiterLlmError::RateLimited { .. } => true,
        LiterLlmError::ServiceUnavailable { .. } => true,
        LiterLlmError::Timeout => true,
        LiterLlmError::ServerError { .. } => true,
        LiterLlmError::Network { .. } => true,
        _ => false,
    }
}

/// Stable variant name used as the `error.type` span attribute.
pub open spec fn spec_error_type(e: LiterLlmError) -> Seq<char> {
    match e {
        LiterLlmError::Authentication { .. } => "authentication"@,
        LiterLlmError::BadRequest { .. } => "bad_request"@,
        LiterLlmError::BudgetExceeded { .. } => "budget_exceeded"@,
        LiterLlmError::EndpointNotSupported { .. } => "endpoint_not_supported"@,
        LiterLlmError::HookRejected { .. } => "hook_rejected"@,
        LiterLlmError::IdempotencyConflict { .. } => "idempotency_conflict"@,
        LiterLlmError::IdempotencyInFlight { .. } => "idempotency_in_flight"@,
        LiterLlmError::InternalError { .. } => "internal_error"@,
        LiterLlmError::RateLimited { .. } => "rate_limited"@,
        LiterLlmError::ServerError { .. } => "server_error"@,
        LiterLlmError::ServiceUnavailable { .. } => "service_unavailable"@,
        LiterLlmError::Streaming { .. } => "streaming"@,
        LiterLlmError::Timeout => "timeout"@,
        LiterLlmError::Network { .. } => "network"@,
    }
}

impl LiterLlmError {
    /// `true` for errors worth retrying: rate limited, service unavailable,
    /// timeout, server error and network failures.
    pub fn is_transient(&self) -> (b: bool)
        ensures
            b == spec_is_transient(*self),
    {
        match self {
            LiterLlmError::RateLimited { .. } => true,
            LiterLlmError::ServiceUnavailable { .. } => true,
            LiterLlmError::Timeout => true,
            LiterLlmError::ServerError { .. } => true,
            LiterLlmError::Network { .. } => true,
            _ => false,
        }
    }

    /// The variant name recorded as `error.type`.
    pub fn error_type(&self) -> (s: &'static str)
        ensures
            s@ == spec_error_type(*self),
    {
        proof {
            reveal_strlit("authentication");
            reveal_strlit("bad_request");
            reveal_strlit("budget_exceeded");
            reveal_strlit("endpoint_not_supported");
            reveal_strlit("hook_rejected");
            reveal_strlit("idempotency_conflict");
            reveal_strlit("idempotency_in_flight");
            reveal_strlit("internal_error");
            reveal_strlit("rate_limited");
            reveal_strlit("server_error");
            reveal_strlit("service_unavailable");
            reveal_strlit("streaming");
            reveal_strlit("timeout");
            reveal_strlit("network");
        }
        match self {
            LiterLlmError::Authentication { .. } => "authentication",
            LiterLlmError::BadRequest { .. } => "bad_request",
            LiterLlmError::BudgetExceeded { .. } => "budget_exceeded",
            LiterLlmError::EndpointNotSupported { .. } => "endpoint_not_supported",
            LiterLlmError::HookRejected { .. } => "hook_rejected",
            LiterLlmError::IdempotencyConflict { .. } => "idempotency_conflict",
            LiterLlmError::IdempotencyInFlight { .. } => "idempotency_in_flight",
            LiterLlmError::InternalError { .. } => "internal_error",
            LiterLlmError::RateLimited { .. } => "rate_limited",
            LiterLlmError::ServerError { .. } => "server_error",
            LiterLlmError::ServiceUnavailable { .. } => "service_unavailable",
            LiterLlmError::Streaming { .. } => "streaming",
            LiterLlmError::Timeout => "timeout",
            LiterLlmError::Network { .. } => "network",
        }
    }
}

} // verus!
