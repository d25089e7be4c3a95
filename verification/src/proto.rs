//! The scheduler's messages, as plain values.

use vstd::prelude::*;

verus! {

/// One task of a schedule, as the scheduler sends it.
#[derive(Debug)]
pub struct ScheduledTask {
    pub name: String,
    pub sched_priority: i32,
    pub sched_policy: i32,
    pub period_us: i32,
    pub release_time_us: i32,
    pub runtime_us: i32,
    pub deadline_us: i32,
    /// A bitmask: bit N stands for CPU N.
    pub cpu_affinity: u64,
    pub max_dmiss: i32,
    pub assigned_node: String,
}

/// The answer to a request for this node's schedule.
#[derive(Debug)]
pub struct NodeSchedResponse {
    pub workload_id: String,
    pub hyperperiod_us: u64,
    pub tasks: Vec<ScheduledTask>,
}

/// The answer to a request to start together with the other nodes.
#[derive(Debug, Clone, Copy, PartialEq, Eq, Structural)]
pub struct SyncResponse {
    /// Whether all nodes checked in.
    pub ack: bool,
    pub start_time_sec: i64,
    pub start_time_nsec: i32,
}

} // verus!
