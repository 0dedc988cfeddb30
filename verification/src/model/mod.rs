//! Data models and validation for memory entries.

pub mod entry;
pub mod json;
pub mod types;
pub mod validation;
