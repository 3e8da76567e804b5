//! Responses-API usage.

use vstd::prelude::*;

verus! {

/// Token usage of a response object.
#[derive(Debug, Clone, Copy, Default, PartialEq, Eq, Structural)]
pub struct ResponseUsage {
    /// Input tokens.
    pub input_tokens: u64,
    /// Output tokens.
    pub output_tokens: u64,
    /// Total tokens.
    pub total_tokens: u64,
}

} // verus!
