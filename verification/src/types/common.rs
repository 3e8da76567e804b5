//! Chat messages, content parts, tools, tool choice, usage and stop sequences.

use vstd::prelude::*;
use vstd::string::*;
use base64::Engine;

verus! {

/// A chat message in a conversation.
#[derive(Debug, Clone, PartialEq)]
pub enum Message {
    /// System message.
    System(SystemMessage),
    /// User message.
    User(UserMessage),
    /// Assistant message.
    Assistant(AssistantMessage),
    /// Tool result message.
    Tool(ToolMessage),
    /// Developer message.
    Developer(DeveloperMessage),
    /// Deprecated legacy function-role message.
    Function(FunctionMessage),
}

impl Default for Message {
    /// An empty assistant message.
    fn default() -> (m: Self)
        ensures
            m matches Message::Assistant(a) && a.content is None && a.name is None && a.tool_calls is None
                && a.refusal is None && a.function_call is None,
    {
        Message::Assistant(AssistantMessage { content: None, name: None, tool_calls: None, refusal: None, function_call: None })
    }
}

/// System message guiding model behavior for the entire conversation.
#[derive(Debug, Clone, Default, PartialEq)]
pub struct SystemMessage {
    /// Instructions or context that apply throughout the conversation.
    pub content: String,
    /// Optional name for the system message source.
    pub name: Option<String>,
}

/// User message in the conversation.
#[derive(Debug, Clone, PartialEq)]
pub struct UserMessage {
    /// Plain text or multimodal parts.
    pub content: UserContent,
    /// Optional name for the user.
    pub name: Option<String>,
}

/// User message content as either plain text or a list of multimodal parts.
#[derive(Debug, Clone, PartialEq)]
pub enum UserContent {
    /// Plain text content.
    Text(String),
    /// Array of content parts (text, images, documents, audio).
    Parts(Vec<ContentPart>),
}

impl Default for UserContent {
    /// Empty text.
    fn default() -> (c: Self)
        ensures
            c matches UserContent::Text(t) && t@ == Seq::<char>::empty(),
    {
        UserContent::Text(String::new())
    }
}

/// A single content part in a user message.
#[derive(Debug, Clone, PartialEq)]
pub enum ContentPart {
    /// Plain text.
    Text { text: String },
    /// Image identified by URL (with optional detail level).
    ImageUrl { image_url: ImageUrl },
    /// Document file as base64 or URL.
    Document { document: DocumentContent },
    /// Audio input as base64.
    InputAudio { input_audio: AudioContent },
}

impl Default for ContentPart {
    /// Empty text.
    fn default() -> (c: Self)
        ensures
            c matches ContentPart::Text { text } && text@ == Seq::<char>::empty(),
    {
        ContentPart::Text { text: String::new() }
    }
}

/// An image URL reference with optional detail level.
#[derive(Debug, Clone, Default, PartialEq)]
pub struct ImageUrl {
    /// URL of the image (data URI or HTTP/HTTPS URL).
    pub url: String,
    /// Detail level.
    pub detail: Option<ImageDetail>,
}

/// Image detail level controlling token cost and processing.
#[derive(Debug, Clone, Copy, PartialEq, Eq, Structural)]
pub enum ImageDetail {
    /// Scales the image to 512x512.
    Low,
    /// Processes up to a 2x2 grid of tiles.
    High,
    /// Model chooses.
    Auto,
}

/// PDF/document content part.
#[derive(Debug, Clone, Default, PartialEq)]
pub struct DocumentContent {
    /// Base64-encoded document data or URL.
    pub data: String,
    /// MIME type.
    pub media_type: String,
}

/// Audio content part.
#[derive(Debug, Clone, Default, PartialEq)]
pub struct AudioContent {
    /// Base64-encoded audio data.
    pub data: String,
    /// Audio format (e.g. "wav").
    pub format: String,
}

/// Assistant's response to a user message.
#[derive(Debug, Clone, Default, PartialEq)]
pub struct AssistantMessage {
    /// Text response, absent when tool calls are returned instead.
    pub content: Option<String>,
    /// Optional name for the assistant.
    pub name: Option<String>,
    /// Tool calls the model wants to execute.
    pub tool_calls: Option<Vec<ToolCall>>,
    /// Refusal reason.
    pub refusal: Option<String>,
    /// Deprecated legacy function_call field.
    pub function_call: Option<FunctionCall>,
}

/// Tool execution result returned to the model.
#[derive(Debug, Clone, Default, PartialEq)]
pub struct ToolMessage {
    /// Result of the tool execution.
    pub content: String,
    /// ID of the tool call this result responds to.
    pub tool_call_id: String,
    /// Optional tool/function name.
    pub name: Option<String>,
}

/// Developer message.
#[derive(Debug, Clone, Default, PartialEq)]
pub struct DeveloperMessage {
    /// Developer-specific instructions.
    pub content: String,
    /// Optional name.
    pub name: Option<String>,
}

/// Deprecated legacy function-role message body.
#[derive(Debug, Clone, Default, PartialEq)]
pub struct FunctionMessage {
    /// Content.
    pub content: String,
    /// Function name.
    pub name: String,
}

/// The tool type discriminator; always `function`.
#[derive(Debug, Clone, Copy, Default, PartialEq, Eq, Structural)]
pub enum ToolType {
    /// A function tool.
    #[default]
    Function,
}

/// A tool call the model wants to execute.
#[derive(Debug, Clone, PartialEq)]
pub struct ToolCall {
    /// Unique ID for this call.
    pub id: String,
    /// Tool type (always function).
    pub call_type: ToolType,
    /// Function name and arguments.
    pub function: FunctionCall,
}

/// Function call details.
#[derive(Debug, Clone, PartialEq)]
pub struct FunctionCall {
    /// Function name.
    pub name: String,
    /// Arguments as a JSON string.
    pub arguments: String,
}

/// Tool usage mode or a specific tool to call.
#[derive(Debug, Clone, PartialEq)]
pub enum ToolChoice {
    /// Predefined mode.
    Mode(ToolChoiceMode),
    /// Force a specific tool to be called.
    Specific(SpecificToolChoice),
}

impl Default for ToolChoice {
    /// `auto` mode.
    fn default() -> (c: Self)
        ensures
            c == ToolChoice::Mode(ToolChoiceMode::Auto),
    {
        ToolChoice::Mode(ToolChoiceMode::Auto)
    }
}

/// Tool choice mode.
#[derive(Debug, Clone, Copy, Default, PartialEq, Eq, Structural)]
pub enum ToolChoiceMode {
    /// Model may or may not call tools.
    #[default]
    Auto,
    /// Model must call at least one tool.
    Required,
    /// Model must not call any tools (the `none` mode).
    Disallowed,
}

/// Directive to call a specific tool.
#[derive(Debug, Clone, Default, PartialEq)]
pub struct SpecificToolChoice {
    /// Tool type (always function).
    pub choice_type: ToolType,
    /// The function to invoke.
    pub function: SpecificFunction,
}

/// Name of the specific function to invoke.
#[derive(Debug, Clone, Default, PartialEq)]
pub struct SpecificFunction {
    /// Function name.
    pub name: String,
}

/// Token-usage accounting returned by the provider.
#[derive(Debug, Clone, Copy, Default, PartialEq, Eq, Structural)]
pub struct Usage {
    /// Prompt tokens used.
    pub prompt_tokens: u64,
    /// Completion tokens used.
    pub completion_tokens: u64,
    /// Total tokens used.
    pub total_tokens: u64,
    /// Breakdown of prompt tokens, if returned.
    pub prompt_tokens_details: Option<PromptTokensDetails>,
}

/// Breakdown of tokens used in the prompt portion of a request.
#[derive(Debug, Clone, Copy, Default, PartialEq, Eq, Structural)]
pub struct PromptTokensDetails {
    /// Cached tokens present in the prompt.
    pub cached_tokens: u64,
    /// Audio input tokens present in the prompt.
    pub audio_tokens: u64,
}

/// Stop sequence(s) that cause the model to stop generating.
#[derive(Debug, Clone, PartialEq)]
pub enum StopSequence {
    /// Single stop sequence.
    Single(String),
    /// Multiple stop sequences.
    Multiple(Vec<String>),
}

impl Default for StopSequence {
    /// An empty single stop sequence.
    fn default() -> (s: Self)
        ensures
            s matches StopSequence::Single(t) && t@ == Seq::<char>::empty(),
    {
        StopSequence::Single(String::new())
    }
}

/// The standard (padded) base64 encoding of a byte sequence.
pub uninterp spec fn base64_standard(bytes: Seq<u8>) -> Seq<char>;

/// Encodes `bytes` with `base64::engine::general_purpose::STANDARD`.
///
/// Trusted: the result is the standard padded base64 text of the bytes
/// (its characters are not spelled out here), and decoding it with the
/// same engine gives the bytes back, as the crate's engines promise.
#[verifier::external_body]
pub(crate) fn base64_encode(bytes: &[u8]) -> (s: String)
    ensures
        s@ == base64_standard(bytes@),
        crate::types::embedding::base64_standard_decoded(s@) == Some(bytes@),
{
    base64::engine::general_purpose::STANDARD.encode(bytes)
}

/// The data URL of `bytes` with MIME type `mime`.
pub open spec fn data_url(mime: Seq<char>, bytes: Seq<u8>) -> Seq<char> {
    "data:"@ + mime + ";base64,"@ + base64_standard(bytes)
}

/// `data:<mime>;base64,<payload>` for `bytes`.
pub fn encode_data_url(bytes: &[u8], mime: &str) -> (s: String)
    ensures
        s@ == data_url(mime@, bytes@),
{
    let mut s = String::from_str("data:");
    s.append(mime);
    s.append(";base64,");
    let payload = base64_encode(bytes);
    s.append(payload.as_str());
    proof {
        reveal_strlit("data:");
        reveal_strlit(";base64,");
    }
    s
}

/// The image part for `url` with no detail level.
pub open spec fn is_image_part(p: ContentPart, url: Seq<char>, detail: Option<ImageDetail>) -> bool {
    p matches ContentPart::ImageUrl { image_url } && image_url.url@ == url && image_url.detail == detail
}

impl Message {
    /// Build a user message with multimodal content parts.
    pub fn user_with_parts(parts: Vec<ContentPart>) -> (m: Self)
        ensures
            m matches Message::User(u) && u.name is None && (u.content matches UserContent::Parts(p) && p@ == parts@),
    {
        Message::User(UserMessage { content: UserContent::Parts(parts), name: None })
    }
}

impl ContentPart {
    /// Create a text content part.
    pub fn text(s: &str) -> (p: Self)
        ensures
            p matches ContentPart::Text { text } && text@ == s@,
    {
        ContentPart::Text { text: String::from_str(s) }
    }

    /// Create an image content part from a data URL.
    pub fn image_data_url(url: String) -> (p: Self)
        ensures
            is_image_part(p, url@, None),
    {
        ContentPart::ImageUrl { image_url: ImageUrl { url, detail: None } }
    }

    /// Create an image content part from an HTTP/HTTPS URL.
    pub fn image_url(url: String) -> (p: Self)
        ensures
            is_image_part(p, url@, None),
    {
        ContentPart::ImageUrl { image_url: ImageUrl { url, detail: None } }
    }

    /// Create an image content part with an explicit detail level.
    pub fn image_with_detail(url: String, detail: ImageDetail) -> (p: Self)
        ensures
            is_image_part(p, url@, Some(detail)),
    {
        ContentPart::ImageUrl { image_url: ImageUrl { url, detail: Some(detail) } }
    }

    /// Create an image content part from raw PNG bytes, encoded as a data URL.
    pub fn image_png(bytes: &[u8]) -> (p: Self)
        ensures
            is_image_part(p, data_url("image/png"@, bytes@), None),
    {
        proof { reveal_strlit("image/png"); }
        Self::image_data_url(encode_data_url(bytes, "image/png"))
    }

    /// Create an image content part from raw JPEG bytes, encoded as a data URL.
    pub fn image_jpeg(bytes: &[u8]) -> (p: Self)
        ensures
            is_image_part(p, data_url("image/jpeg"@, bytes@), None),
    {
        proof { reveal_strlit("image/jpeg"); }
        Self::image_data_url(encode_data_url(bytes, "image/jpeg"))
    }

    /// Create an image content part from raw WebP bytes, encoded as a data URL.
    pub fn image_webp(bytes: &[u8]) -> (p: Self)
        ensures
            is_image_part(p, data_url("image/webp"@, bytes@), None),
    {
        proof { reveal_strlit("image/webp"); }
        Self::image_data_url(encode_data_url(bytes, "image/webp"))
    }

    /// Create an image content part from raw TIFF bytes, encoded as a data URL.
    pub fn image_tiff(bytes: &[u8]) -> (p: Self)
        ensures
            is_image_part(p, data_url("image/tiff"@, bytes@), None),
    {
        proof { reveal_strlit("image/tiff"); }
        Self::image_data_url(encode_data_url(bytes, "image/tiff"))
    }
}

/// `serde_json::Value`, an arbitrary JSON document (here: a JSON Schema).
#[verifier::external_type_specification]
#[verifier::external_body]
pub struct ExJsonValue(serde_json::Value);

/// JSON Schema specification for constrained output.
#[derive(Debug)]
pub struct JsonSchemaFormat {
    /// Name of the schema.
    pub name: String,
    /// Description of what the schema represents.
    pub description: Option<String>,
    /// The JSON Schema document, carried through unchanged.
    pub schema: serde_json::Value,
    /// Whether the provider enforces the schema strictly.
    pub strict: Option<bool>,
}

impl JsonSchemaFormat {
    /// A strict schema format: `strict = Some(true)`, no description.
    pub fn new(name: &str, schema: serde_json::Value) -> (f: Self)
        ensures
            f.name@ == name@,
            f.description is None,
            f.schema == schema,
            f.strict == Some(true),
    {
        JsonSchemaFormat { name: String::from_str(name), description: None, schema, strict: Some(true) }
    }

    /// The same format with the strict flag set to `on`.
    pub fn strict(self, on: bool) -> (f: Self)
        ensures
            f.strict == Some(on),
            f.name == self.name,
            f.description == self.description,
            f.schema == self.schema,
    {
        JsonSchemaFormat { strict: Some(on), ..self }
    }

    /// The same format with description `d`.
    pub fn description(self, d: &str) -> (f: Self)
        ensures
            f.description matches Some(t) && t@ == d@,
            f.name == self.name,
            f.schema == self.schema,
            f.strict == self.strict,
    {
        JsonSchemaFormat { description: Some(String::from_str(d)), ..self }
    }
}

/// The output format a chat request asks for.
#[derive(Debug)]
pub enum ResponseFormat {
    /// Plain text output.
    Text,
    /// Any valid JSON object.
    JsonObject,
    /// Output conforming to a JSON Schema.
    JsonSchema {
        /// The schema and its options.
        json_schema: JsonSchemaFormat,
    },
}

impl Default for ResponseFormat {
    /// Plain text.
    fn default() -> (r: Self)
        ensures
            r is Text,
    {
        ResponseFormat::Text
    }
}

impl ResponseFormat {
    /// A strict `json_schema` format named `name`.
    pub fn json_schema(name: &str, schema: serde_json::Value) -> (r: Self)
        ensures
            r matches ResponseFormat::JsonSchema { json_schema: f } && f.name@ == name@ && f.description is None
                && f.schema == schema && f.strict == Some(true),
    {
        ResponseFormat::JsonSchema { json_schema: JsonSchemaFormat::new(name, schema) }
    }

    /// The `json_object` format.
    pub fn json_object() -> (r: Self)
        ensures
            r is JsonObject,
    {
        ResponseFormat::JsonObject
    }

    /// The plain-text format.
    pub fn text() -> (r: Self)
        ensures
            r is Text,
    {
        ResponseFormat::Text
    }
}

} // verus!
