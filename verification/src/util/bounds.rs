//! Memory-bound constants and the guard that every buffer accumulator calls
//! before appending bytes.

use vstd::prelude::*;
use vstd::string::*;
use crate::error::LiterLlmError;
use crate::text::{decimal_text, usize_decimal};

verus! {

/// Maximum bytes buffered in the SSE line parser before the stream is aborted.
pub const SSE_BUFFER_MAX_BYTES: usize = 1048576;

/// Maximum bytes buffered in the AWS EventStream binary parser before abort.
pub const EVENT_STREAM_BUFFER_MAX_BYTES: usize = 16777216;

/// Maximum bytes accepted in a non-streaming response body before abort.
pub const RESPONSE_BODY_MAX_BYTES: usize = 33554432;

/// Maximum bytes accumulated when collecting streamed chunks for
/// non-streaming response assembly (same as [`RESPONSE_BODY_MAX_BYTES`]).
pub const CHUNK_ACCUMULATION_MAX_BYTES: usize = 33554432;

/// The message carried by the error that [`check_bound`] returns.
pub open spec fn bound_exceeded_message(context: Seq<char>, limit: nat) -> Seq<char> {
    context + " buffer exceeded "@ + decimal_text(limit) + " bytes; aborting"@
}

/// Check that `current_len + incoming` does not exceed `limit`; call this
/// before appending `incoming` bytes to a buffer that must stay within
/// `limit`.  The sum is compared exactly, so it never wraps.
pub fn check_bound(context: &str, current_len: usize, incoming: usize, limit: usize) -> (r: Result<(), LiterLlmError>)
    ensures
        r is Ok <==> current_len + incoming <= limit,
        r is Err ==> (r matches Err(LiterLlmError::Streaming { message })
            && message@ == bound_exceeded_message(context@, limit as nat)),
{
    if current_len > limit || incoming > limit - current_len {
        let mut message = String::from_str(context);
        message.append(" buffer exceeded ");
        let digits = usize_decimal(limit);
        message.append(digits.as_str());
        message.append(" bytes; aborting");
        return Err(LiterLlmError::Streaming { message });
    }
    Ok(())
}

} // verus!
