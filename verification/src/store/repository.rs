//! Parameters and results of repository operations.

use crate::model::entry::Timestamp;
use crate::model::types::EntryType;
use vstd::prelude::*;

verus! {

/// Parameters for searching memory entries.
#[derive(Debug, Clone)]
pub struct SearchQuery {
    /// The search keywords for full-text search.
    pub query: String,
    /// Optional filter by entry type.
    pub entry_type: Option<EntryType>,
    /// Maximum number of results to return.
    pub limit: u32,
}

/// Pagination and filtering parameters for list operations.
#[derive(Debug, Clone)]
pub struct Filters {
    /// Optional status filter (the `status` member of the metadata).
    pub status: Option<String>,
    /// Maximum number of results to return.
    pub limit: u32,
    /// Number of results to skip.
    pub offset: u32,
}

/// Statistical overview of the memory bank.
#[derive(Debug, Clone)]
pub struct MemoryStats {
    /// Total number of non-deleted entries.
    pub total: u64,
    /// Count of entries grouped by type.
    pub by_type: Vec<(EntryType, u64)>,
    /// Count of entries grouped by metadata status.
    pub by_status: Vec<(String, u64)>,
    /// Timestamp of the most recent update.
    pub last_updated: Option<Timestamp>,
}

} // verus!
