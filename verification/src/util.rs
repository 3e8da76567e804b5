//! Small shared utilities.

pub mod bounds;
pub mod string_map;
pub mod dash;
