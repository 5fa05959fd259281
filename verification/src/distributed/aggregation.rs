//! Aggregation of shard certifications.

use vstd::prelude::*;
use crate::distributed::partition::ReplayShardCertification;

verus! {

/// Whether a shard replay matched its expected result.
#[derive(Clone, Debug)]
pub struct ShardParityReport {
    pub shard_id: String,
    pub parity_matched: bool,
}

/// Parity reports of the shards under an aggregation root hash.
#[derive(Clone, Debug)]
pub struct ReplayAggregationTree {
    pub root_hash: [u8; 32],
    pub reports: Vec<ShardParityReport>,
}

/// A certification chain over an aggregation tree.
#[derive(Clone, Debug)]
pub struct DistributedCertificationChain {
    pub chain_id: String,
    pub tree: ReplayAggregationTree,
}

/// The certificate of a whole manifest: its terminal hash.
#[derive(Clone, Debug)]
pub struct AggregatedReplayCertificate {
    pub manifest_id: String,
    pub global_terminal_hash: [u8; 32],
}

/// Merges shard certifications into one certificate.
#[derive(Clone, Debug)]
pub struct ReplayLineageMerge;

/// A proof hash for a shard aggregation.
#[derive(Clone, Debug)]
pub struct FormalShardAggregationProof {
    pub shard_id: String,
    pub proof_hash: [u8; 32],
}

/// Monolithic and distributed replay hashes of a cluster and whether they are equivalent.
#[derive(Clone, Debug)]
pub struct DistributedReplayEquivalenceProof {
    pub cluster_id: String,
    pub monolithic_hash: [u8; 32],
    pub distributed_hash: [u8; 32],
    pub is_equivalent: bool,
}

/// Whether the certifications of a manifest matched globally.
#[derive(Clone, Debug)]
pub struct AggregatedCertificationParityProof {
    pub manifest_id: String,
    pub global_parity_matched: bool,
}

impl ReplayLineageMerge {
    /// Merges shard certifications into one certificate. The merge does not
    /// yet combine the certifications: the certificate has an empty manifest
    /// id and an all-zero terminal hash whatever it is given.
    pub fn merge_certifications(_certs: &[ReplayShardCertification]) -> (c: AggregatedReplayCertificate)
        ensures
            c.manifest_id@.len() == 0,
            c.global_terminal_hash@ == Seq::new(32, |i: int| 0u8),
    {
        AggregatedReplayCertificate { manifest_id: String::new(), global_terminal_hash: [0u8; 32] }
    }
}

} // verus!
