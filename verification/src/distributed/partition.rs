//! Partitioning of a replay into shards.

use vstd::prelude::*;

verus! {

/// An inclusive range of sequence ids.
#[derive(Clone, Debug)]
pub struct SequenceRange {
    pub start_sequence: u64,
    pub end_sequence: u64,
}

/// A named range of sequence ids.
#[derive(Clone, Debug)]
pub struct ReplayPartition {
    pub partition_id: String,
    pub range: SequenceRange,
}

/// A partition to replay and the hash it is expected to end in.
#[derive(Clone, Debug)]
pub struct ReplayShard {
    pub shard_id: String,
    pub partition: ReplayPartition,
    pub expected_hash: [u8; 32],
}

/// A time window of a partition.
#[derive(Clone, Debug)]
pub struct PartitionWindow {
    pub start_time: u64,
    pub end_time: u64,
}

/// The shards of a distributed replay.
#[derive(Clone, Debug)]
pub struct DistributedReplayManifest {
    pub manifest_id: String,
    pub shards: Vec<ReplayShard>,
}

/// The terminal and lineage hashes certified for a shard.
#[derive(Clone, Debug)]
pub struct ReplayShardCertification {
    pub shard_id: String,
    pub terminal_hash: [u8; 32],
    pub lineage_hash: [u8; 32],
}

} // verus!
