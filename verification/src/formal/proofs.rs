//! Replay proofs and proof chains.

use vstd::prelude::*;

verus! {

/// A sequence window and its proof hash.
#[derive(Clone, Debug)]
pub struct SequenceProofWindow {
    pub start_sequence: u64,
    pub end_sequence: u64,
    pub proof_hash: [u8; 32],
}

/// A named proof over a sequence window.
#[derive(Clone, Debug)]
pub struct ReplayProof {
    pub proof_id: String,
    pub window: SequenceProofWindow,
}

/// A chain of replay proofs.
#[derive(Clone, Debug)]
pub struct ReplayProofChain {
    pub chain_id: String,
    pub proofs: Vec<ReplayProof>,
}

/// The hash of a canonical state.
#[derive(Clone, Debug)]
pub struct CanonicalStateProof {
    pub state_hash: [u8; 32],
}

/// Expected and actual hashes and whether they are equivalent.
#[derive(Clone, Debug)]
pub struct ReplayEquivalenceProof {
    pub expected_hash: [u8; 32],
    pub actual_hash: [u8; 32],
    pub is_equivalent: bool,
}

/// A manifest and its terminal proof hash.
#[derive(Clone, Debug)]
pub struct ProofCertificationManifest {
    pub manifest_id: String,
    pub terminal_proof_hash: [u8; 32],
}

} // verus!
