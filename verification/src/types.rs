//! Provider-neutral request and response data types.
pub mod common;
pub mod chat;
pub mod embedding;
pub mod files;
pub mod image;
pub mod models;
pub mod moderation;
pub mod ocr;
pub mod rerank;
pub mod batch;
pub mod responses;
