//! Decision logic of the Tower-style middleware layers.

pub mod circuit;
pub mod health;
pub mod window;
pub mod rate_limit;
pub mod cooldown;
pub mod cache;
pub mod cache_opendal;
pub mod negative;
pub mod fallback;
pub mod fallback_chain;
pub mod router;
pub mod hedge;
pub mod budget;
pub mod ledger;
pub mod request;
pub mod idempotency;
pub mod tracing;
pub mod guardrail;
pub mod hooks;
pub mod singleflight;
pub mod route_classify;
pub mod cache_policy;
pub mod error;
pub mod metrics;
pub mod service;
pub mod cost;
