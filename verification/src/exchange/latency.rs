//! Deterministic latency records.

use vstd::prelude::*;

verus! {

/// A delay, in nanoseconds, applied to a message.
#[derive(Clone, Debug, Default)]
pub struct LatencyEnvelope {
    pub delay_ns: u64,
}

/// The venue a latency profile belongs to.
#[derive(Clone, Debug, Default)]
pub struct VenueLatencyProfile {
    pub venue_id: u64,
}

/// Size of the window over which execution is delayed.
#[derive(Clone, Debug, Default)]
pub struct ExecutionDelayWindow {
    pub window_size: u64,
}

/// Seed of the deterministic latency injector.
#[derive(Clone, Debug, Default)]
pub struct DeterministicLatencyInjector {
    pub seed: u64,
}

impl LatencyEnvelope {
    /// The default (all-zero, empty) value.
    pub fn new() -> (r: LatencyEnvelope)
        ensures
            r.delay_ns == 0,
    {
        LatencyEnvelope { delay_ns: 0 }
    }
}

impl VenueLatencyProfile {
    /// The default (all-zero, empty) value.
    pub fn new() -> (r: VenueLatencyProfile)
        ensures
            r.venue_id == 0,
    {
        VenueLatencyProfile { venue_id: 0 }
    }
}

impl ExecutionDelayWindow {
    /// The default (all-zero, empty) value.
    pub fn new() -> (r: ExecutionDelayWindow)
        ensures
            r.window_size == 0,
    {
        ExecutionDelayWindow { window_size: 0 }
    }
}

impl DeterministicLatencyInjector {
    /// The default (all-zero, empty) value.
    pub fn new() -> (r: DeterministicLatencyInjector)
        ensures
            r.seed == 0,
    {
        DeterministicLatencyInjector { seed: 0 }
    }
}

} // verus!
