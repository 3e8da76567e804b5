//! File upload and listing types.

use vstd::prelude::*;

verus! {

/// Intended use of an uploaded file.
#[derive(Debug, Clone, Copy, Default, PartialEq, Eq, Structural)]
pub enum FilePurpose {
    /// Assistants.
    #[default]
    Assistants,
    /// Batch input.
    Batch,
    /// Fine-tuning.
    FineTune,
    /// Vision.
    Vision,
}

/// File upload request.
#[derive(Debug, Clone, Default, PartialEq)]
pub struct CreateFileRequest {
    /// Base64-encoded file contents.
    pub file: String,
    /// Intended use.
    pub purpose: FilePurpose,
    /// Optional file name.
    pub filename: Option<String>,
}

/// An uploaded file.
#[derive(Debug, Clone, Default, PartialEq)]
pub struct FileObject {
    /// File ID.
    pub id: String,
    /// Object type.
    pub object: String,
    /// Size in bytes.
    pub bytes: u64,
    /// Creation time.
    pub created_at: u64,
    /// File name.
    pub filename: String,
    /// Intended use.
    pub purpose: String,
    /// Processing status.
    pub status: Option<String>,
}

/// A page of files.
#[derive(Debug, Clone, Default, PartialEq)]
pub struct FileListResponse {
    /// Object type.
    pub object: String,
    /// The files.
    pub data: Vec<FileObject>,
    /// Whether more files follow.
    pub has_more: Option<bool>,
}

/// Query parameters for listing files.
#[derive(Debug, Clone, Default, PartialEq)]
pub struct FileListQuery {
    /// Filter by purpose.
    pub purpose: Option<String>,
    /// Page size.
    pub limit: Option<u32>,
    /// Cursor.
    pub after: Option<String>,
}

/// Result of a deletion.
#[derive(Debug, Clone, Default, PartialEq)]
pub struct DeleteResponse {
    /// ID of the deleted object.
    pub id: String,
    /// Object type.
    pub object: String,
    /// Whether the object was deleted.
    pub deleted: bool,
}

} // verus!
