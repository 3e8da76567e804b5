//! Document OCR types.

use vstd::prelude::*;
use vstd::string::*;
use crate::types::common::Usage;

verus! {

/// OCR request.
#[derive(Debug, Clone, Default)]
pub struct OcrRequest {
    /// Model ID.
    pub model: String,
    /// The document.
    pub document: OcrDocument,
    /// Pages to process.
    pub pages: Option<Vec<u32>>,
    /// Whether to return extracted images.
    pub include_image_base64: Option<bool>,
}

/// The document to process.
#[derive(Debug, Clone)]
pub enum OcrDocument {
    /// Document at a URL.
    Url { url: String },
    /// Inline base64 document.
    Base64 { data: String, media_type: String },
}

impl Default for OcrDocument {
    /// An empty URL.
    fn default() -> (d: Self)
        ensures
            d matches OcrDocument::Url { url } && url@ == Seq::<char>::empty(),
    {
        OcrDocument::Url { url: String::new() }
    }
}

/// OCR result.
#[derive(Debug, Clone)]
pub struct OcrResponse {
    /// Pages.
    pub pages: Vec<OcrPage>,
    /// Model used.
    pub model: String,
    /// Token usage.
    pub usage: Option<Usage>,
}

/// One processed page.
#[derive(Debug, Clone)]
pub struct OcrPage {
    /// Page index.
    pub index: u32,
    /// Extracted markdown.
    pub markdown: String,
    /// Extracted images.
    pub images: Option<Vec<OcrImage>>,
    /// Page size.
    pub dimensions: Option<PageDimensions>,
}

/// An image extracted from a page.
#[derive(Debug, Clone)]
pub struct OcrImage {
    /// Image ID.
    pub id: String,
    /// Base64-encoded image.
    pub image_base64: Option<String>,
}

/// Page size in pixels.
#[derive(Debug, Clone, Copy)]
pub struct PageDimensions {
    /// Width.
    pub width: u32,
    /// Height.
    pub height: u32,
}

} // verus!
