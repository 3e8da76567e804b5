//! Verified core of an LLM gateway middleware stack: request/response data
//! types, and the decision logic of the resilience layers (circuit breaker,
//! health gating, rate limiting, cooldown, caching, idempotency, fallback
//! chains, hedging, routing and semantic-route classification).

pub mod error;
pub mod text;
pub mod types;
pub mod util;
pub mod tower;
