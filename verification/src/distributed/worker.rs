//! Shard execution by workers.

use vstd::prelude::*;
use crate::distributed::partition::{ReplayShard, ReplayShardCertification};

verus! {

/// The status and certification of an executed shard.
#[derive(Clone, Debug)]
pub struct ShardExecutionResult {
    pub shard_id: String,
    pub status: String,
    pub certification: ReplayShardCertification,
}

/// The window a worker certifies.
#[derive(Clone, Debug)]
pub struct WorkerCertificationWindow {
    pub start: u64,
    pub end: u64,
}

/// A node that executes replays.
#[derive(Clone, Debug)]
pub struct ReplayExecutionNode {
    pub node_id: String,
}

/// Executes shards.
#[derive(Clone, Debug)]
pub struct ReplayWorker;

/// Executes distributed replays.
#[derive(Clone, Debug)]
pub struct DistributedReplayExecutor;

impl ReplayWorker {
    /// Executes a shard. Execution does not yet replay anything: the result
    /// has empty ids and status and all-zero hashes whatever the shard.
    pub fn execute_shard(_shard: &ReplayShard) -> (r: ShardExecutionResult)
        ensures
            r.shard_id@.len() == 0,
            r.status@.len() == 0,
            r.certification.shard_id@.len() == 0,
            r.certification.terminal_hash@ == Seq::new(32, |i: int| 0u8),
            r.certification.lineage_hash@ == Seq::new(32, |i: int| 0u8),
    {
        ShardExecutionResult {
            shard_id: String::new(),
            status: String::new(),
            certification: ReplayShardCertification {
                shard_id: String::new(),
                terminal_hash: [0u8; 32],
                lineage_hash: [0u8; 32],
            },
        }
    }
}

} // verus!
