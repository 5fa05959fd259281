//! Aggregation proofs and their verifier.

use vstd::prelude::*;

verus! {

/// A proof of an aggregated hash.
#[derive(Clone, Debug)]
pub struct AggregationProof {
    pub proof_id: String,
    pub aggregated_hash: [u8; 32],
}

/// The invariant of replay aggregation.
#[derive(Clone, Debug)]
pub struct ReplayAggregationInvariant {}

/// An aggregation proof of a cluster.
#[derive(Clone, Debug)]
pub struct DistributedAggregationProof {
    pub cluster_id: String,
    pub proof: AggregationProof,
}

/// A chain of aggregated certifications.
#[derive(Clone, Debug)]
pub struct CertificationAggregationChain {}

/// Verifies aggregation proofs.
#[derive(Clone, Debug)]
pub struct AggregationParityVerifier {}

impl AggregationParityVerifier {
    /// Verifies an aggregation proof; every proof is currently accepted.
    pub fn verify_aggregation(_proof: &AggregationProof) -> (ok: bool)
        ensures
            ok,
    {
        true
    }
}

} // verus!
