//! Model listing types.

use vstd::prelude::*;

verus! {

/// List of available models.
#[derive(Debug, Clone, Default, PartialEq)]
pub struct ModelsListResponse {
    /// Object type.
    pub object: String,
    /// The models.
    pub data: Vec<ModelObject>,
}

/// One available model.
#[derive(Debug, Clone, Default, PartialEq)]
pub struct ModelObject {
    /// Model ID.
    pub id: String,
    /// Object type.
    pub object: String,
    /// Creation time.
    pub created: u64,
    /// Owner.
    pub owned_by: String,
}

} // verus!
