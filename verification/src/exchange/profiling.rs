//! Replay profiling records.

use vstd::prelude::*;

verus! {

/// Replay throughput in messages per second.
#[derive(Clone, Debug, Default)]
pub struct ReplayThroughputReport {
    pub msgs_per_sec: u64,
}

/// Latency, in nanoseconds, measured under queue pressure.
#[derive(Clone, Debug, Default)]
pub struct QueuePressureBenchmark {
    pub latency_ns: u64,
}

/// Length, in ticks, of a performance window.
#[derive(Clone, Debug, Default)]
pub struct DeterministicPerfWindow {
    pub ticks: u64,
}

/// Bytes used by a replay.
#[derive(Clone, Debug, Default)]
pub struct ReplayMemoryProfile {
    pub bytes_used: u64,
}

impl ReplayThroughputReport {
    /// The default (all-zero, empty) value.
    pub fn new() -> (r: ReplayThroughputReport)
        ensures
            r.msgs_per_sec == 0,
    {
        ReplayThroughputReport { msgs_per_sec: 0 }
    }
}

impl QueuePressureBenchmark {
    /// The default (all-zero, empty) value.
    pub fn new() -> (r: QueuePressureBenchmark)
        ensures
            r.latency_ns == 0,
    {
        QueuePressureBenchmark { latency_ns: 0 }
    }
}

impl DeterministicPerfWindow {
    /// The default (all-zero, empty) value.
    pub fn new() -> (r: DeterministicPerfWindow)
        ensures
            r.ticks == 0,
    {
        DeterministicPerfWindow { ticks: 0 }
    }
}

impl ReplayMemoryProfile {
    /// The default (all-zero, empty) value.
    pub fn new() -> (r: ReplayMemoryProfile)
        ensures
            r.bytes_used == 0,
    {
        ReplayMemoryProfile { bytes_used: 0 }
    }
}

} // verus!
