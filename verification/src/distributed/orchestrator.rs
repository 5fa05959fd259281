//! Scheduling of distributed replay plans.

use vstd::prelude::*;
use crate::distributed::partition::DistributedReplayManifest;

verus! {

/// A plan to replay a distributed manifest.
#[derive(Clone, Debug)]
pub struct ReplayExecutionPlan {
    pub plan_id: String,
    pub manifest: DistributedReplayManifest,
}

/// The shards assigned to a node.
#[derive(Clone, Debug)]
pub struct ReplayExecutionTopology {
    pub node_id: String,
    pub assigned_shards: Vec<String>,
}

/// Schedules replay plans onto nodes.
#[derive(Clone, Debug)]
pub struct DistributedReplayOrchestrator;

/// Coordinates benchmark fan-out.
#[derive(Clone, Debug)]
pub struct BenchmarkFanoutCoordinator;

/// Coordinates distributed verification.
#[derive(Clone, Debug)]
pub struct DistributedVerificationCoordinator;

/// A federation and the clusters it coordinates.
#[derive(Clone, Debug)]
pub struct FederatedReplayCoordinator {
    pub federation_id: String,
    pub coordinated_clusters: Vec<String>,
}

/// A plan across clusters, identified by its global manifest hash.
#[derive(Clone, Debug)]
pub struct CrossClusterExecutionPlan {
    pub plan_id: String,
    pub global_manifest_hash: [u8; 32],
}

/// A synchronisation point of a federation at a target sequence.
#[derive(Clone, Debug)]
pub struct FederationReplaySynchronization {
    pub sync_id: String,
    pub target_sequence: u64,
}

impl DistributedReplayOrchestrator {
    /// Schedules a plan onto a node. Scheduling does not yet assign
    /// anything: the topology has an empty node id and no shards whatever the plan.
    pub fn schedule_plan(_plan: &ReplayExecutionPlan) -> (t: ReplayExecutionTopology)
        ensures
            t.node_id@.len() == 0,
            t.assigned_shards@.len() == 0,
    {
        ReplayExecutionTopology { node_id: String::new(), assigned_shards: Vec::new() }
    }
}

} // verus!
