use astraquant::distributed::aggregation::ReplayLineageMerge;
use astraquant::distributed::orchestrator::DistributedReplayOrchestrator;
use astraquant::distributed::orchestrator::ReplayExecutionPlan;
use astraquant::distributed::partition::{
    DistributedReplayManifest, ReplayPartition, ReplayShard, ReplayShardCertification,
    SequenceRange,
};
use astraquant::distributed::worker::ReplayWorker;
use astraquant::exchange::fidelity::{ExecutionStateProof, QueueStateHash};
use astraquant::exchange::latency::LatencyEnvelope;
use astraquant::exchange::matching::{DeterministicFillChain, ExecutionLineageWindow};
use astraquant::exchange::profiling::ReplayThroughputReport;
use astraquant::exchange::realism::SpreadEvolutionModel;
use astraquant::federation::bridge::synchronize_remote_certifications;
use astraquant::federation::consensus::verify_replay_consensus;
use astraquant::federation::treaty::verify_treaty_compatibility;
use astraquant::formal::aggregation::{AggregationParityVerifier, AggregationProof};
use astraquant::formal::lineage::{
    CertificationLineageChain, DeterministicLineageVerifier, FormalLineageTree, LineageProofNode,
};

fn shard() -> ReplayShard {
    ReplayShard {
        shard_id: "s1".to_string(),
        partition: ReplayPartition {
            partition_id: "p1".to_string(),
            range: SequenceRange { start_sequence: 1, end_sequence: 10 },
        },
        expected_hash: [7u8; 32],
    }
}

#[test]
fn distributed_stubs_return_empty_results() {
    let cert = ReplayShardCertification {
        shard_id: "s1".to_string(),
        terminal_hash: [1u8; 32],
        lineage_hash: [2u8; 32],
    };
    let merged = ReplayLineageMerge::merge_certifications(&[cert]);
    assert!(merged.manifest_id.is_empty());
    assert_eq!(merged.global_terminal_hash, [0u8; 32]);

    let plan = ReplayExecutionPlan {
        plan_id: "plan".to_string(),
        manifest: DistributedReplayManifest { manifest_id: "m".to_string(), shards: vec![shard()] },
    };
    let topo = DistributedReplayOrchestrator::schedule_plan(&plan);
    assert!(topo.node_id.is_empty());
    assert!(topo.assigned_shards.is_empty());

    let result = ReplayWorker::execute_shard(&shard());
    assert!(result.shard_id.is_empty());
    assert!(result.status.is_empty());
    assert_eq!(result.certification.terminal_hash, [0u8; 32]);
    assert_eq!(result.certification.lineage_hash, [0u8; 32]);
}

#[test]
fn exchange_records_start_empty() {
    assert_eq!(QueueStateHash::new().hash, [0u8; 32]);
    assert!(ExecutionStateProof::new().proof.is_empty());
    assert_eq!(LatencyEnvelope::new().delay_ns, 0);
    assert!(DeterministicFillChain::new().fills.is_empty());
    let w = ExecutionLineageWindow::new();
    assert_eq!((w.start, w.end), (0, 0));
    assert_eq!(ReplayThroughputReport::new().msgs_per_sec, 0);
    assert_eq!(SpreadEvolutionModel::new().spread, 0);
}

#[test]
fn federation_and_formal_checks_accept() {
    assert!(synchronize_remote_certifications());
    assert!(verify_replay_consensus());
    assert!(verify_treaty_compatibility());
    let proof = AggregationProof { proof_id: "a".to_string(), aggregated_hash: [0u8; 32] };
    assert!(AggregationParityVerifier::verify_aggregation(&proof));
    let node = LineageProofNode { sequence: 1, node_hash: [0u8; 32] };
    let chain = CertificationLineageChain {
        chain_id: "c".to_string(),
        tree: FormalLineageTree { root_node: node.clone(), leaves: vec![node] },
    };
    assert!(DeterministicLineageVerifier::verify_lineage(&chain));
}
