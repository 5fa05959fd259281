//! Formal verification reports.

use vstd::prelude::*;
use crate::formal::invariants::InvariantProof;

verus! {

/// Whether a formal verification succeeded.
#[derive(Clone, Debug)]
pub struct FormalVerificationReport {
    pub report_id: String,
    pub is_valid: bool,
}

/// A determinism certification and its terminal hash.
#[derive(Clone, Debug)]
pub struct DeterminismCertificationReport {
    pub certification_id: String,
    pub terminal_hash: [u8; 32],
}

/// Whether a replay was equivalent.
#[derive(Clone, Debug)]
pub struct ReplayEquivalenceReport {
    pub is_equivalent: bool,
}

/// Whether a cluster matched.
#[derive(Clone, Debug)]
pub struct DistributedParityCertification {
    pub cluster_id: String,
    pub parity_matched: bool,
}

/// The invariant proofs that report violations.
#[derive(Clone, Debug)]
pub struct InvariantViolationManifest {
    pub violations: Vec<InvariantProof>,
}

/// A trust chain and its score.
#[derive(Clone, Debug)]
pub struct CertificationTrustChain {
    pub chain_id: String,
    pub trust_score: u64,
}

/// The determinism certification of a federation.
#[derive(Clone, Debug)]
pub struct FederatedDeterminismCertification {
    pub federation_id: String,
    pub global_parity_hash: [u8; 32],
    pub is_formally_verified: bool,
}

/// Whether two clusters were equivalent.
#[derive(Clone, Debug)]
pub struct CrossClusterEquivalenceReport {
    pub source_cluster_id: String,
    pub target_cluster_id: String,
    pub equivalence_matched: bool,
}

/// Compliance of a replay with a treaty.
#[derive(Clone, Debug)]
pub struct ReplayTreatyVerificationReport {
    pub treaty_id: String,
    pub invariant_violations: u64,
    pub is_compliant: bool,
}

/// Integrity of the clusters of a federation.
#[derive(Clone, Debug)]
pub struct FederationIntegrityManifest {
    pub manifest_id: String,
    pub total_clusters_verified: u64,
    pub integrity_score_ppm: u64,
}

} // verus!
