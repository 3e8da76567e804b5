//! Image generation types.

use vstd::prelude::*;

verus! {

/// Image generation request.
#[derive(Debug, Clone, Default, PartialEq)]
pub struct CreateImageRequest {
    /// Text prompt.
    pub prompt: String,
    /// Model ID.
    pub model: Option<String>,
    /// Number of images.
    pub n: Option<u32>,
    /// Image size.
    pub size: Option<String>,
    /// Quality.
    pub quality: Option<String>,
    /// Style.
    pub style: Option<String>,
    /// Response format (`url` or `b64_json`).
    pub response_format: Option<String>,
    /// End-user identifier.
    pub user: Option<String>,
}

/// Generated images.
#[derive(Debug, Clone, Default, PartialEq)]
pub struct ImagesResponse {
    /// Creation time.
    pub created: u64,
    /// The images.
    pub data: Vec<Image>,
}

/// One generated image.
#[derive(Debug, Clone, Default, PartialEq)]
pub struct Image {
    /// URL of the image.
    pub url: Option<String>,
    /// Base64-encoded image.
    pub b64_json: Option<String>,
    /// Prompt as revised by the model.
    pub revised_prompt: Option<String>,
}

} // verus!
