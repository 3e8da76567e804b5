//! Chat completion responses and stream chunks.

use vstd::prelude::*;
use crate::types::common::{AssistantMessage, ToolType, Usage};

verus! {

/// Why the model stopped generating.
#[derive(Debug, Clone, Copy, Default, PartialEq, Eq, Structural)]
pub enum FinishReason {
    /// Natural stop or stop sequence.
    #[default]
    Stop,
    /// Token limit reached.
    Length,
    /// The model called tools.
    ToolCalls,
    /// Content was filtered.
    ContentFilter,
    /// Deprecated legacy finish reason.
    FunctionCall,
    /// Catch-all for unknown finish reasons.
    Other,
}

/// How much reasoning effort the model should use.
#[derive(Debug, Clone, Copy, Default, PartialEq, Eq, Structural)]
pub enum ReasoningEffort {
    /// Low effort.
    Low,
    /// Medium effort.
    #[default]
    Medium,
    /// High effort.
    High,
}

/// Options for streaming responses.
#[derive(Debug, Clone, Copy, Default, PartialEq, Eq, Structural)]
pub struct StreamOptions {
    /// If true, include token usage in the final stream chunk.
    pub include_usage: Option<bool>,
}

/// Chat completion response from the API.
#[derive(Debug, Clone, Default, PartialEq)]
pub struct ChatCompletionResponse {
    /// Unique identifier for this response.
    pub id: String,
    /// Object type, usually `chat.completion`.
    pub object: String,
    /// Unix timestamp of response creation.
    pub created: u64,
    /// Model used to generate the response.
    pub model: String,
    /// Completion choices.
    pub choices: Vec<Choice>,
    /// Token usage statistics.
    pub usage: Option<Usage>,
    /// Fingerprint of the system configuration.
    pub system_fingerprint: Option<String>,
    /// Service tier used.
    pub service_tier: Option<String>,
}

/// A single completion choice.
#[derive(Debug, Clone, Default, PartialEq)]
pub struct Choice {
    /// Index of this choice.
    pub index: u32,
    /// The assistant's message.
    pub message: AssistantMessage,
    /// Why the model stopped generating.
    pub finish_reason: Option<FinishReason>,
}

/// A streamed chunk of a chat completion response.
#[derive(Debug, Clone, Default, PartialEq)]
pub struct ChatCompletionChunk {
    /// Unique identifier for this stream.
    pub id: String,
    /// Object type, usually `chat.completion.chunk`.
    pub object: String,
    /// Unix timestamp of chunk creation.
    pub created: u64,
    /// Model used to generate the chunk.
    pub model: String,
    /// Streaming choices.
    pub choices: Vec<StreamChoice>,
    /// Token usage (typically only in the final chunk).
    pub usage: Option<Usage>,
    /// Fingerprint of the system configuration.
    pub system_fingerprint: Option<String>,
    /// Service tier used.
    pub service_tier: Option<String>,
}

/// A streaming choice with incremental delta.
#[derive(Debug, Clone, Default, PartialEq)]
pub struct StreamChoice {
    /// Index of this choice.
    pub index: u32,
    /// Incremental update to the message.
    pub delta: StreamDelta,
    /// Why the stream ended.
    pub finish_reason: Option<FinishReason>,
}

/// Incremental delta in a stream chunk.
#[derive(Debug, Clone, Default, PartialEq)]
pub struct StreamDelta {
    /// Role (typically only in the first chunk).
    pub role: Option<String>,
    /// Partial content.
    pub content: Option<String>,
    /// Partial tool calls.
    pub tool_calls: Option<Vec<StreamToolCall>>,
    /// Deprecated legacy function_call delta.
    pub function_call: Option<StreamFunctionCall>,
    /// Partial refusal message.
    pub refusal: Option<String>,
}

/// A streaming tool call being built incrementally.
#[derive(Debug, Clone, Default, PartialEq)]
pub struct StreamToolCall {
    /// Index of this tool call.
    pub index: u32,
    /// Tool call ID.
    pub id: Option<String>,
    /// Tool type.
    pub call_type: Option<ToolType>,
    /// Partial function name and arguments.
    pub function: Option<StreamFunctionCall>,
}

/// Partial function call details in a stream.
#[derive(Debug, Clone, Default, PartialEq)]
pub struct StreamFunctionCall {
    /// Function name.
    pub name: Option<String>,
    /// Partial JSON arguments chunk.
    pub arguments: Option<String>,
}

} // verus!
