//! Queue and matching-decision records.

use vstd::prelude::*;

verus! {

/// Position of an order in its price-level queue.
#[derive(Clone, Debug, Default)]
pub struct QueuePosition {
    pub position: u64,
}

/// Priority of an order in execution.
#[derive(Clone, Debug, Default)]
pub struct ExecutionPriority {
    pub priority: u64,
}

/// Time at which an order queue was captured.
#[derive(Clone, Debug, Default)]
pub struct OrderQueueSnapshot {
    pub timestamp: u64,
}

/// The sequence of fills, in order.
#[derive(Clone, Debug, Default)]
pub struct DeterministicFillChain {
    pub fills: Vec<u64>,
}

/// Sequence window of an execution lineage.
#[derive(Clone, Debug, Default)]
pub struct ExecutionLineageWindow {
    pub start: u64,
    pub end: u64,
}

/// Identifier of a traced matching decision.
#[derive(Clone, Debug, Default)]
pub struct MatchingDecisionTrace {
    pub trace_id: u64,
}

impl QueuePosition {
    /// The default (all-zero, empty) value.
    pub fn new() -> (r: QueuePosition)
        ensures
            r.position == 0,
    {
        QueuePosition { position: 0 }
    }
}

impl ExecutionPriority {
    /// The default (all-zero, empty) value.
    pub fn new() -> (r: ExecutionPriority)
        ensures
            r.priority == 0,
    {
        ExecutionPriority { priority: 0 }
    }
}

impl OrderQueueSnapshot {
    /// The default (all-zero, empty) value.
    pub fn new() -> (r: OrderQueueSnapshot)
        ensures
            r.timestamp == 0,
    {
        OrderQueueSnapshot { timestamp: 0 }
    }
}

impl DeterministicFillChain {
    /// The default (all-zero, empty) value.
    pub fn new() -> (r: DeterministicFillChain)
        ensures
            r.fills@.len() == 0,
    {
        DeterministicFillChain { fills: Vec::new() }
    }
}

impl ExecutionLineageWindow {
    /// The default (all-zero, empty) value.
    pub fn new() -> (r: ExecutionLineageWindow)
        ensures
            r.start == 0,
            r.end == 0,
    {
        ExecutionLineageWindow { start: 0, end: 0 }
    }
}

impl MatchingDecisionTrace {
    /// The default (all-zero, empty) value.
    pub fn new() -> (r: MatchingDecisionTrace)
        ensures
            r.trace_id == 0,
    {
        MatchingDecisionTrace { trace_id: 0 }
    }
}

} // verus!
