//! Formal invariants and their proofs.

use vstd::prelude::*;

verus! {

/// The invariants a replay is held to.
#[derive(Clone, Debug)]
pub enum FormalInvariant {
    Determinism,
    Monotonicity,
    ReplayEquivalence,
    LineageContinuity,
    AggregationParity,
    ShardEquivalence,
}

/// Whether an invariant held, and the first sequence at which it did not.
#[derive(Clone, Debug)]
pub struct InvariantProof {
    pub invariant_id: String,
    pub is_valid: bool,
    pub violation_sequence: Option<u64>,
}

/// Replays of the same input end in the same state.
#[derive(Clone, Debug)]
pub struct DeterminismInvariant {}

/// Sequence ids increase.
#[derive(Clone, Debug)]
pub struct SequenceMonotonicityInvariant {}

/// A replay is equivalent to the original run.
#[derive(Clone, Debug)]
pub struct ReplayEquivalenceInvariant {}

/// Lineage is continuous.
#[derive(Clone, Debug)]
pub struct LineageContinuityInvariant {}

/// Aggregated results match their parts.
#[derive(Clone, Debug)]
pub struct AggregationParityInvariant {}

/// A distributed replay is equivalent to a monolithic one.
#[derive(Clone, Debug)]
pub struct DistributedShardEquivalenceInvariant {}

} // verus!
