//! Retention and capacity settings of the context.
use vstd::prelude::*;

verus! {

/// Retention, garbage-collection and capacity settings.
#[derive(Debug, Clone)]
pub struct ContextConfig {
    /// How long an exited process is retained, in milliseconds.
    pub retention_ttl_ms: i64,
    /// Number of tracked processes above which retention is enforced regardless of age.
    pub max_process_capacity: usize,
    /// Capacity of the interaction log.
    pub max_interaction_capacity: usize,
    /// Interval between background collection passes, in milliseconds.
    pub gc_interval_ms: u64,
    /// Keep expired parents of live processes as tombstones so ancestry stays walkable.
    pub enable_tombstones: bool,
}

impl Default for ContextConfig {
    /// Production settings: 10-minute retention, 50 000 processes, 100 000 interactions,
    /// a pass every 5 s, tombstones on.
    fn default() -> (c: Self)
        ensures
            c.retention_ttl_ms == 600_000,
            c.max_process_capacity == 50_000,
            c.max_interaction_capacity == 100_000,
            c.gc_interval_ms == 5_000,
            c.enable_tombstones,
    {
        ContextConfig {
            retention_ttl_ms: 10 * 60 * 1000,
            max_process_capacity: 50_000,
            max_interaction_capacity: 100_000,
            gc_interval_ms: 5_000,
            enable_tombstones: true,
        }
    }
}

impl ContextConfig {
    /// Fast settings for tests: 100 ms retention, 10 processes, 50 interactions, a pass every
    /// 20 ms, tombstones on.
    pub fn for_test() -> (c: Self)
        ensures
            c.retention_ttl_ms == 100,
            c.max_process_capacity == 10,
            c.max_interaction_capacity == 50,
            c.gc_interval_ms == 20,
            c.enable_tombstones,
    {
        ContextConfig {
            retention_ttl_ms: 100,
            max_process_capacity: 10,
            max_interaction_capacity: 50,
            gc_interval_ms: 20,
            enable_tombstones: true,
        }
    }
}

} // verus!
