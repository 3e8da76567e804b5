//! Reranking types.

use vstd::prelude::*;
use vstd::string::*;

verus! {

/// Rerank request.
#[derive(Debug, Clone, Default, PartialEq)]
pub struct RerankRequest {
    /// Model ID.
    pub model: String,
    /// Query.
    pub query: String,
    /// Documents to rank.
    pub documents: Vec<RerankDocument>,
    /// Number of results to return.
    pub top_n: Option<u32>,
    /// Whether to return documents.
    pub return_documents: Option<bool>,
}

/// A document to rank.
#[derive(Debug, Clone, PartialEq)]
pub enum RerankDocument {
    /// Plain text.
    Text(String),
    /// Object with a text field.
    Object { text: String },
}

impl Default for RerankDocument {
    /// Empty text.
    fn default() -> (d: Self)
        ensures
            d matches RerankDocument::Text(t) && t@ == Seq::<char>::empty(),
    {
        RerankDocument::Text(String::new())
    }
}

/// A returned document.
#[derive(Debug, Clone, PartialEq)]
pub struct RerankResultDocument {
    /// Text.
    pub text: String,
}

} // verus!
