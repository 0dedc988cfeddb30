//! Project-local configuration values that the reflect analysis reads.

use vstd::prelude::*;

verus! {

/// Configuration for the memory-health reflection tool.
#[derive(Debug, Clone)]
pub struct ReflectConfig {
    /// Number of days without an update before an entry is considered stale.
    pub stale_days: u32,
    /// Number of days since creation without any access before an entry is considered dead.
    pub dead_entry_days: u32,
    /// Minimum access count to classify an entry as "hot".
    pub hot_access_threshold: u32,
}

impl Default for ReflectConfig {
    /// The compiled-in defaults: 30 stale days, 7 dead days, 5 accesses for "hot".
    fn default() -> (r: Self)
        ensures
            r.stale_days == 30,
            r.dead_entry_days == 7,
            r.hot_access_threshold == 5,
    {
        ReflectConfig { stale_days: 30, dead_entry_days: 7, hot_access_threshold: 5 }
    }
}

} // verus!
