//! Replay-fidelity records of order books and fills.

use vstd::prelude::*;

verus! {

/// Whether a replayed order book was verified against the original.
#[derive(Clone, Debug, Default)]
pub struct OrderBookReplayVerifier {
    pub verified: bool,
}

/// Whether a snapshot matched its replayed counterpart.
#[derive(Clone, Debug, Default)]
pub struct SnapshotParityValidator {
    pub valid: bool,
}

/// Identifier of a certification of replayed fills.
#[derive(Clone, Debug, Default)]
pub struct FillReplayCertification {
    pub cert_id: u64,
}

/// Proof bytes attesting an execution state.
#[derive(Clone, Debug, Default)]
pub struct ExecutionStateProof {
    pub proof: Vec<u8>,
}

/// Hash of a queue state.
#[derive(Clone, Debug, Default)]
pub struct QueueStateHash {
    pub hash: [u8; 32],
}

impl OrderBookReplayVerifier {
    /// The default (all-zero, empty) value.
    pub fn new() -> (r: OrderBookReplayVerifier)
        ensures
            !r.verified,
    {
        OrderBookReplayVerifier { verified: false }
    }
}

impl SnapshotParityValidator {
    /// The default (all-zero, empty) value.
    pub fn new() -> (r: SnapshotParityValidator)
        ensures
            !r.valid,
    {
        SnapshotParityValidator { valid: false }
    }
}

impl FillReplayCertification {
    /// The default (all-zero, empty) value.
    pub fn new() -> (r: FillReplayCertification)
        ensures
            r.cert_id == 0,
    {
        FillReplayCertification { cert_id: 0 }
    }
}

impl ExecutionStateProof {
    /// The default (all-zero, empty) value.
    pub fn new() -> (r: ExecutionStateProof)
        ensures
            r.proof@.len() == 0,
    {
        ExecutionStateProof { proof: Vec::new() }
    }
}

impl QueueStateHash {
    /// The default (all-zero, empty) value.
    pub fn new() -> (r: QueueStateHash)
        ensures
            r.hash@ == Seq::new(32, |i: int| 0u8),
    {
        QueueStateHash { hash: [0u8; 32] }
    }
}

} // verus!
