//! The crate-level error type.

use vstd::prelude::*;

verus! {

/// Errors reported by the memory bank.
#[derive(Debug, Clone)]
pub enum LoreError {
    /// The storage engine failed; the text is its own message.
    Database(String),
    /// An input broke a validation rule.
    Validation(String),
    /// No live entry has the given id.
    NotFound(String),
    /// The role may not write entries of the type.
    RoleViolation { role: String, entry_type: String },
    /// Metadata could not be read as the entry type's schema.
    Serialization(String),
    /// The project root could not be located.
    ProjectRoot(String),
    /// A lock guarding the storage was poisoned.
    Poison(String),
    /// An unexpected internal failure.
    Internal(String),
}

/// The human-readable message of an error.
pub open spec fn error_text(e: LoreError) -> Seq<char> {
    match e {
        LoreError::Database(m) => "database error: "@ + m@,
        LoreError::Validation(m) => "validation error: "@ + m@,
        LoreError::NotFound(m) => "entry not found: "@ + m@,
        LoreError::RoleViolation { role, entry_type } => "role violation: "@ + role@
            + " cannot write "@ + entry_type@,
        LoreError::Serialization(m) => "serialization error: "@ + m@,
        LoreError::ProjectRoot(m) => "project root not found: "@ + m@,
        LoreError::Poison(m) => "lock poisoned: "@ + m@,
        LoreError::Internal(m) => "internal error: "@ + m@,
    }
}

impl LoreError {
    /// The human-readable message of this error.
    pub fn message(&self) -> (r: String)
        ensures
            r@ == error_text(*self),
    {
        match self {
            LoreError::Database(m) => String::from_str("database error: ").concat(m.as_str()),
            LoreError::Validation(m) => String::from_str("validation error: ").concat(m.as_str()),
            LoreError::NotFound(m) => String::from_str("entry not found: ").concat(m.as_str()),
            LoreError::RoleViolation { role, entry_type } => String::from_str("role violation: ")
                .concat(role.as_str()).concat(" cannot write ").concat(entry_type.as_str()),
            LoreError::Serialization(m) => String::from_str("serialization error: ").concat(
                m.as_str(),
            ),
            LoreError::ProjectRoot(m) => String::from_str("project root not found: ").concat(
                m.as_str(),
            ),
            LoreError::Poison(m) => String::from_str("lock poisoned: ").concat(m.as_str()),
            LoreError::Internal(m) => String::from_str("internal error: ").concat(m.as_str()),
        }
    }
}

} // verus!
