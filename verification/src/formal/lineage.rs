//! Lineage proofs and their verifier.

use vstd::prelude::*;

verus! {

/// A node of a lineage proof: a sequence and its hash.
#[derive(Clone, Debug)]
pub struct LineageProofNode {
    pub sequence: u64,
    pub node_hash: [u8; 32],
}

/// A lineage tree: its root and leaves.
#[derive(Clone, Debug)]
pub struct FormalLineageTree {
    pub root_node: LineageProofNode,
    pub leaves: Vec<LineageProofNode>,
}

/// A certification chain over a lineage tree.
#[derive(Clone, Debug)]
pub struct CertificationLineageChain {
    pub chain_id: String,
    pub tree: FormalLineageTree,
}

/// The hash at a replay boundary.
#[derive(Clone, Debug)]
pub struct ReplayBoundaryProof {
    pub boundary_hash: [u8; 32],
}

/// The hash of merged shard lineages.
#[derive(Clone, Debug)]
pub struct ShardLineageMergeProof {
    pub merged_hash: [u8; 32],
}

/// Verifies lineage chains.
#[derive(Clone, Debug)]
pub struct DeterministicLineageVerifier {}

impl DeterministicLineageVerifier {
    /// Verifies a lineage chain; every chain is currently accepted.
    pub fn verify_lineage(_chain: &CertificationLineageChain) -> (ok: bool)
        ensures
            ok,
    {
        true
    }
}

} // verus!
