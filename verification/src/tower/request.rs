//! The kinds of request that travel through the middleware stack, and the
//! labels the layers attach to them.

use vstd::prelude::*;

verus! {

/// Which client operation a request stands for.
#[derive(Debug, Clone, Copy, PartialEq, Eq, Structural)]
pub enum RequestKind {
    /// Non-streaming chat completion.
    Chat,
    /// Streaming chat completion.
    ChatStream,
    /// Text embedding.
    Embed,
    /// List available models.
    ListModels,
    /// Image generation.
    ImageGenerate,
    /// Text-to-speech.
    Speech,
    /// Audio transcription.
    Transcribe,
    /// Content moderation.
    Moderate,
    /// Document reranking.
    Rerank,
    /// Web/document search.
    Search,
    /// Document OCR.
    Ocr,
}

/// GenAI `gen_ai.operation.name` of a request kind.
pub open spec fn spec_operation_name(k: RequestKind) -> Seq<char> {
    match k {
        RequestKind::Chat | RequestKind::ChatStream => "chat"@,
        RequestKind::Embed => "embeddings"@,
        RequestKind::ListModels => "list_models"@,
        RequestKind::ImageGenerate => "image_generate"@,
        RequestKind::Speech => "speech"@,
        RequestKind::Transcribe => "transcribe"@,
        RequestKind::Moderate => "moderate"@,
        RequestKind::Rerank => "rerank"@,
        RequestKind::Search => "search"@,
        RequestKind::Ocr => "ocr"@,
    }
}

/// Span / metric label of a request kind (streaming chat is `chat_stream`).
pub open spec fn spec_request_type(k: RequestKind) -> Seq<char> {
    match k {
        RequestKind::ChatStream => "chat_stream"@,
        _ => spec_operation_name(k),
    }
}

impl RequestKind {
    /// The GenAI operation name: both chat forms are `chat`.
    pub fn operation_name(&self) -> (s: &'static str)
        ensures
            s@ == spec_operation_name(*self),
    {
        match self {
            RequestKind::Chat | RequestKind::ChatStream => {
                proof { reveal_strlit("chat"); }
                "chat"
            },
            RequestKind::Embed => {
                proof { reveal_strlit("embeddings"); }
                "embeddings"
            },
            RequestKind::ListModels => {
                proof { reveal_strlit("list_models"); }
                "list_models"
            },
            RequestKind::ImageGenerate => {
                proof { reveal_strlit("image_generate"); }
                "image_generate"
            },
            RequestKind::Speech => {
                proof { reveal_strlit("speech"); }
                "speech"
            },
            RequestKind::Transcribe => {
                proof { reveal_strlit("transcribe"); }
                "transcribe"
            },
            RequestKind::Moderate => {
                proof { reveal_strlit("moderate"); }
                "moderate"
            },
            RequestKind::Rerank => {
                proof { reveal_strlit("rerank"); }
                "rerank"
            },
            RequestKind::Search => {
                proof { reveal_strlit("search"); }
                "search"
            },
            RequestKind::Ocr => {
                proof { reveal_strlit("ocr"); }
                "ocr"
            },
        }
    }

    /// The request-type label.
    pub fn request_type(&self) -> (s: &'static str)
        ensures
            s@ == spec_request_type(*self),
    {
        match self {
            RequestKind::ChatStream => {
                proof { reveal_strlit("chat_stream"); }
                "chat_stream"
            },
            _ => self.operation_name(),
        }
    }
}

/// Only chat and embedding responses can be cached or replayed.
pub fn is_cacheable_kind(kind: &RequestKind) -> (b: bool)
    ensures
        b == (*kind == RequestKind::Chat || *kind == RequestKind::Embed),
{
    match kind {
        RequestKind::Chat | RequestKind::Embed => true,
        _ => false,
    }
}

} // verus!
