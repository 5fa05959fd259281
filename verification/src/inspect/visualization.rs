//! Diagram exports. Each appends its text to `out`; the caller decides
//! where the text goes. Every line ends with a newline.

use vstd::prelude::*;
use vstd::string::{StrSliceExecFns, StringExecFns};
use crate::inspect::timeline::{LiquiditySide, ReplayTimeline, TimelineEvent};
use std::collections::BTreeMap;
use vstd::std_specs::btree::{increasing_seq, spec_btree_map_iter};
use vstd::std_specs::iter::IteratorSpec;
use crate::inspect::strategy_analytics::{
    lemma_iteration_in_key_order, StrategyAnalytics, StrategyAnalyticsCollector,
};
use crate::sorted::{insert_sorted, lemma_sorted_ids_is, sorted_ids, strictly_increasing};
use crate::text::{dec, dec_int, push_i64, push_u64};
use crate::inspect::book::{
    book_for, hashes, lemma_queue_total_prefix, level_line, level_totals_fit, levels_descending,
    queue_text, queue_total, symbols_distinct, BookDepth, PriceLevel, SymbolBook, VenueLiquidity,
};

verus! {

/// Appends the liquidation cascade timeline diagram.
pub fn export_liquidation_cascade_timeline(out: &mut String)
    ensures
        final(out)@ == old(out)@ + "graph TD\n    A[Margin Breach] --> B[Forced Liquidation]\n"@,
{
    out.append("graph TD\n    A[Margin Breach] --> B[Forced Liquidation]\n");
}

/// Appends the venue failure topology map diagram.
pub fn export_venue_failure_topology_map(out: &mut String)
    ensures
        final(out)@ == old(out)@ + "graph TD\n    SOR --> V1[Venue 1 - FAILED]\n"@,
{
    out.append("graph TD\n    SOR --> V1[Venue 1 - FAILED]\n");
}

/// Appends the collateral deterioration heatmap diagram.
pub fn export_collateral_deterioration_heatmap(out: &mut String)
    ensures
        final(out)@ == old(out)@ + "Collateral Heatmap Placeholder\n"@,
{
    out.append("Collateral Heatmap Placeholder\n");
}

/// Appends the funding imbalance diagram diagram.
pub fn export_funding_imbalance_diagram(out: &mut String)
    ensures
        final(out)@ == old(out)@ + "Funding Imbalance Placeholder\n"@,
{
    out.append("Funding Imbalance Placeholder\n");
}

/// Appends the operational intervention timeline diagram.
pub fn export_operational_intervention_timeline(out: &mut String)
    ensures
        final(out)@ == old(out)@ + "graph TD\n    A[Intervention Start] --> B[Venue Paused]\n"@,
{
    out.append("graph TD\n    A[Intervention Start] --> B[Venue Paused]\n");
}

/// Appends the replay divergence map diagram.
pub fn export_replay_divergence_map(out: &mut String)
    ensures
        final(out)@ == old(out)@ + "graph TD\n    A[Checkpoint Match] --> B[Divergence Detected]\n"@,
{
    out.append("graph TD\n    A[Checkpoint Match] --> B[Divergence Detected]\n");
}

/// Appends the recovery topology graph diagram.
pub fn export_recovery_topology_graph(out: &mut String)
    ensures
        final(out)@ == old(out)@ + "Recovery Topology Placeholder\n"@,
{
    out.append("Recovery Topology Placeholder\n");
}

/// Appends the checkpoint lineage diagram diagram.
pub fn export_checkpoint_lineage_diagram(out: &mut String)
    ensures
        final(out)@ == old(out)@ + "Checkpoint Lineage Placeholder\n"@,
{
    out.append("Checkpoint Lineage Placeholder\n");
}

/// Appends the governance decision tree diagram.
pub fn export_governance_decision_tree(out: &mut String)
    ensures
        final(out)@ == old(out)@ + "Governance Decision Tree Placeholder\n"@,
{
    out.append("Governance Decision Tree Placeholder\n");
}

/// Appends the replay checkpoint diff diagram.
pub fn export_replay_checkpoint_diff(out: &mut String)
    ensures
        final(out)@ == old(out)@ + "Checkpoint Diff Placeholder\n"@,
{
    out.append("Checkpoint Diff Placeholder\n");
}

/// Appends the experiment comparison heatmap diagram.
pub fn export_experiment_comparison_heatmap(out: &mut String)
    ensures
        final(out)@ == old(out)@ + "Experiment Comparison Heatmap Placeholder\n"@,
{
    out.append("Experiment Comparison Heatmap Placeholder\n");
}

/// Appends the replay divergence tree diagram.
pub fn export_replay_divergence_tree(out: &mut String)
    ensures
        final(out)@ == old(out)@ + "Replay Divergence Tree Placeholder\n"@,
{
    out.append("Replay Divergence Tree Placeholder\n");
}

/// Appends the parameter sweep topology map diagram.
pub fn export_parameter_sweep_topology_map(out: &mut String)
    ensures
        final(out)@ == old(out)@ + "Parameter Sweep Topology Map Placeholder\n"@,
{
    out.append("Parameter Sweep Topology Map Placeholder\n");
}

/// Appends the scenario branching diagram diagram.
pub fn export_scenario_branching_diagram(out: &mut String)
    ensures
        final(out)@ == old(out)@ + "Scenario Branching Diagram Placeholder\n"@,
{
    out.append("Scenario Branching Diagram Placeholder\n");
}

/// Appends the recovery policy comparison graph diagram.
pub fn export_recovery_policy_comparison_graph(out: &mut String)
    ensures
        final(out)@ == old(out)@ + "Recovery Policy Comparison Graph Placeholder\n"@,
{
    out.append("Recovery Policy Comparison Graph Placeholder\n");
}

/// Appends the replay lineage tree diagram.
pub fn export_replay_lineage_tree(out: &mut String)
    ensures
        final(out)@ == old(out)@ + "graph TD\n    ROOT[\"Root Hash\"] --> CP1[\"Checkpoint 1000\"]\n    CP1 --> CP2[\"Checkpoint 2000\"]\n    CP2 --> TERMINAL[\"Terminal Hash\"]\n    style ROOT fill:#2d3748,color:#e2e8f0\n    style TERMINAL fill:#2f855a,color:#e2e8f0\n"@,
{
    out.append("graph TD\n    ROOT[\"Root Hash\"] --> CP1[\"Checkpoint 1000\"]\n    CP1 --> CP2[\"Checkpoint 2000\"]\n    CP2 --> TERMINAL[\"Terminal Hash\"]\n    style ROOT fill:#2d3748,color:#e2e8f0\n    style TERMINAL fill:#2f855a,color:#e2e8f0\n");
}

/// Appends the invariant violation map diagram.
pub fn export_invariant_violation_map(out: &mut String)
    ensures
        final(out)@ == old(out)@ + "graph LR\n    SEQ_MON[\"Sequence Monotonicity\"] -->|PASS| OK1((✓))\n    JOURNAL[\"Journal Continuity\"] -->|PASS| OK2((✓))\n    REPLAY[\"Replay Parity\"] -->|PASS| OK3((✓))\n    LIQUIDITY[\"Liquidity Conservation\"] -->|FAIL| FAIL1((✗))\n    style FAIL1 fill:#c53030,color:#fff\n"@,
{
    out.append("graph LR\n    SEQ_MON[\"Sequence Monotonicity\"] -->|PASS| OK1((✓))\n    JOURNAL[\"Journal Continuity\"] -->|PASS| OK2((✓))\n    REPLAY[\"Replay Parity\"] -->|PASS| OK3((✓))\n    LIQUIDITY[\"Liquidity Conservation\"] -->|FAIL| FAIL1((✗))\n    style FAIL1 fill:#c53030,color:#fff\n");
}

/// Appends the replay divergence topology diagram.
pub fn export_replay_divergence_topology(out: &mut String)
    ensures
        final(out)@ == old(out)@ + "graph TD\n    COMMON[\"Common Ancestor\"] --> LEFT[\"Left Branch\"]\n    COMMON --> RIGHT[\"Right Branch\"]\n    LEFT --> L_TERM[\"Left Terminal\"]\n    RIGHT --> R_TERM[\"Right Terminal\"]\n    style COMMON fill:#2b6cb0,color:#e2e8f0\n"@,
{
    out.append("graph TD\n    COMMON[\"Common Ancestor\"] --> LEFT[\"Left Branch\"]\n    COMMON --> RIGHT[\"Right Branch\"]\n    LEFT --> L_TERM[\"Left Terminal\"]\n    RIGHT --> R_TERM[\"Right Terminal\"]\n    style COMMON fill:#2b6cb0,color:#e2e8f0\n");
}

/// Appends the certification ancestry diagram diagram.
pub fn export_certification_ancestry_diagram(out: &mut String)
    ensures
        final(out)@ == old(out)@ + "graph BT\n    CERT[\"Terminal Certificate\"] --> PROOF[\"Parity Proof\"]\n    PROOF --> LINEAGE[\"Lineage Tree\"]\n    LINEAGE --> MANIFEST[\"Benchmark Manifest\"]\n    style CERT fill:#2f855a,color:#e2e8f0\n"@,
{
    out.append("graph BT\n    CERT[\"Terminal Certificate\"] --> PROOF[\"Parity Proof\"]\n    PROOF --> LINEAGE[\"Lineage Tree\"]\n    LINEAGE --> MANIFEST[\"Benchmark Manifest\"]\n    style CERT fill:#2f855a,color:#e2e8f0\n");
}

/// Appends the benchmark trust graph diagram.
pub fn export_benchmark_trust_graph(out: &mut String)
    ensures
        final(out)@ == old(out)@ + "graph LR\n    REPLAY[\"Replay Integrity\"] --> TRUST[\"Overall Trust\"]\n    LINEAGE[\"Lineage Consistency\"] --> TRUST\n    INVARIANT[\"Invariant Compliance\"] --> TRUST\n    BENCHMARK[\"Benchmark Integrity\"] --> TRUST\n    style TRUST fill:#2f855a,color:#e2e8f0\n"@,
{
    out.append("graph LR\n    REPLAY[\"Replay Integrity\"] --> TRUST[\"Overall Trust\"]\n    LINEAGE[\"Lineage Consistency\"] --> TRUST\n    INVARIANT[\"Invariant Compliance\"] --> TRUST\n    BENCHMARK[\"Benchmark Integrity\"] --> TRUST\n    style TRUST fill:#2f855a,color:#e2e8f0\n");
}

/// Appends the agent topology graph diagram.
pub fn export_agent_topology_graph(out: &mut String)
    ensures
        final(out)@ == old(out)@ + "graph TD\n    MM[Market Maker] -->|Provides| VENUE[Exchange Venue]\n    ARB[Arbitrageur] -->|Balances| VENUE\n    LIQ[Panic Liquidator] -->|Drains| VENUE\n    style VENUE fill:#2b6cb0,color:#fff\n"@,
{
    out.append("graph TD\n    MM[Market Maker] -->|Provides| VENUE[Exchange Venue]\n    ARB[Arbitrageur] -->|Balances| VENUE\n    LIQ[Panic Liquidator] -->|Drains| VENUE\n    style VENUE fill:#2b6cb0,color:#fff\n");
}

/// Appends the liquidity retreat tree diagram.
pub fn export_liquidity_retreat_tree(out: &mut String)
    ensures
        final(out)@ == old(out)@ + "graph TD\n    STRESS[Volatility Spike] --> MM_W[MM Withdrawal]\n    MM_W --> SPREAD[Spread Widening]\n    SPREAD --> PANIC[Panic Liquidation]\n    style STRESS fill:#c53030,color:#fff\n"@,
{
    out.append("graph TD\n    STRESS[Volatility Spike] --> MM_W[MM Withdrawal]\n    MM_W --> SPREAD[Spread Widening]\n    SPREAD --> PANIC[Panic Liquidation]\n    style STRESS fill:#c53030,color:#fff\n");
}

/// Appends the systemic panic topology diagram.
pub fn export_systemic_panic_topology(out: &mut String)
    ensures
        final(out)@ == old(out)@ + "graph LR\n    P1[Distressed Fund] --> M1[Margin Call]\n    M1 --> L1[Forced Liquidation]\n    L1 --> P2[Clearing Member Stress]\n    style P1 fill:#dd6b20,color:#fff\n"@,
{
    out.append("graph LR\n    P1[Distressed Fund] --> M1[Margin Call]\n    M1 --> L1[Forced Liquidation]\n    L1 --> P2[Clearing Member Stress]\n    style P1 fill:#dd6b20,color:#fff\n");
}

/// Appends the policy transition topology diagram.
pub fn export_policy_transition_topology(out: &mut String)
    ensures
        final(out)@ == old(out)@ + "graph TD\n    S1[Normal] -->|Widen Spread| S2[Stress]\n    S2 -->|Reduce Inventory| S3[Recovery]\n    style S1 fill:#3182ce,color:#fff\n"@,
{
    out.append("graph TD\n    S1[Normal] -->|Widen Spread| S2[Stress]\n    S2 -->|Reduce Inventory| S3[Recovery]\n    style S1 fill:#3182ce,color:#fff\n");
}

/// Appends the reward evolution graph diagram.
pub fn export_reward_evolution_graph(out: &mut String)
    ensures
        final(out)@ == old(out)@ + "graph LR\n    E1[Epoch 1] --> E2[Epoch 2]\n    E2 --> E3[Epoch 3]\n    style E3 fill:#38a169,color:#fff\n"@,
{
    out.append("graph LR\n    E1[Epoch 1] --> E2[Epoch 2]\n    E2 --> E3[Epoch 3]\n    style E3 fill:#38a169,color:#fff\n");
}

/// Appends the trajectory lineage tree diagram.
pub fn export_trajectory_lineage_tree(out: &mut String)
    ensures
        final(out)@ == old(out)@ + "graph TD\n    ROOT[Root State] --> T1[Trajectory A]\n    ROOT --> T2[Trajectory B]\n    style ROOT fill:#805ad5,color:#fff\n"@,
{
    out.append("graph TD\n    ROOT[Root State] --> T1[Trajectory A]\n    ROOT --> T2[Trajectory B]\n    style ROOT fill:#805ad5,color:#fff\n");
}

/// Appends the adaptive containment topology diagram.
pub fn export_adaptive_containment_topology(out: &mut String)
    ensures
        final(out)@ == old(out)@ + "graph TD\n    PANIC[Panic] --> ACT[Policy Action]\n    ACT --> CONT[Containment]\n    style CONT fill:#38a169,color:#fff\n"@,
{
    out.append("graph TD\n    PANIC[Panic] --> ACT[Policy Action]\n    ACT --> CONT[Containment]\n    style CONT fill:#38a169,color:#fff\n");
}

/// Appends the policy divergence map diagram.
pub fn export_policy_divergence_map(out: &mut String)
    ensures
        final(out)@ == old(out)@ + "graph LR\n    STATE[State] -->|Policy A| A[Action A]\n    STATE -->|Policy B| B[Action B]\n    style STATE fill:#718096,color:#fff\n"@,
{
    out.append("graph LR\n    STATE[State] -->|Policy A| A[Action A]\n    STATE -->|Policy B| B[Action B]\n    style STATE fill:#718096,color:#fff\n");
}

/// Appends the replay shard topology diagram.
pub fn export_replay_shard_topology(out: &mut String)
    ensures
        final(out)@ == old(out)@ + "graph TD\n    M[Manifest] --> S1[Shard 1]\n    M --> S2[Shard 2]\n    style M fill:#2b6cb0,color:#fff\n"@,
{
    out.append("graph TD\n    M[Manifest] --> S1[Shard 1]\n    M --> S2[Shard 2]\n    style M fill:#2b6cb0,color:#fff\n");
}

/// Appends the distributed execution graph diagram.
pub fn export_distributed_execution_graph(out: &mut String)
    ensures
        final(out)@ == old(out)@ + "graph TD\n    O[Orchestrator] -->|Dispatch| W1[Worker A]\n    O -->|Dispatch| W2[Worker B]\n    style O fill:#c53030,color:#fff\n"@,
{
    out.append("graph TD\n    O[Orchestrator] -->|Dispatch| W1[Worker A]\n    O -->|Dispatch| W2[Worker B]\n    style O fill:#c53030,color:#fff\n");
}

/// Appends the certification aggregation tree diagram.
pub fn export_certification_aggregation_tree(out: &mut String)
    ensures
        final(out)@ == old(out)@ + "graph BT\n    C1[Cert 1] --> ROOT[Aggregated Cert]\n    C2[Cert 2] --> ROOT\n    style ROOT fill:#38a169,color:#fff\n"@,
{
    out.append("graph BT\n    C1[Cert 1] --> ROOT[Aggregated Cert]\n    C2[Cert 2] --> ROOT\n    style ROOT fill:#38a169,color:#fff\n");
}

/// Appends the replay lineage merge graph diagram.
pub fn export_replay_lineage_merge_graph(out: &mut String)
    ensures
        final(out)@ == old(out)@ + "graph LR\n    L1[Lineage A] --> M[Merge Node]\n    L2[Lineage B] --> M\n    M --> FINAL[Global Lineage]\n    style FINAL fill:#805ad5,color:#fff\n"@,
{
    out.append("graph LR\n    L1[Lineage A] --> M[Merge Node]\n    L2[Lineage B] --> M\n    M --> FINAL[Global Lineage]\n    style FINAL fill:#805ad5,color:#fff\n");
}

/// Appends the distributed benchmark fanout diagram.
pub fn export_distributed_benchmark_fanout(out: &mut String)
    ensures
        final(out)@ == old(out)@ + "graph TD\n    B[Benchmark] -->|Fanout| C1[Cluster 1]\n    B -->|Fanout| C2[Cluster 2]\n    style B fill:#dd6b20,color:#fff\n"@,
{
    out.append("graph TD\n    B[Benchmark] -->|Fanout| C1[Cluster 1]\n    B -->|Fanout| C2[Cluster 2]\n    style B fill:#dd6b20,color:#fff\n");
}

/// Appends the invariant dependency graph diagram.
pub fn export_invariant_dependency_graph(out: &mut String)
    ensures
        final(out)@ == old(out)@ + "graph TD\n    I1[Invariant A] --> I2[Invariant B]\n    style I1 fill:#2b6cb0,color:#fff\n"@,
{
    out.append("graph TD\n    I1[Invariant A] --> I2[Invariant B]\n    style I1 fill:#2b6cb0,color:#fff\n");
}

/// Appends the replay proof chain diagram.
pub fn export_replay_proof_chain(out: &mut String)
    ensures
        final(out)@ == old(out)@ + "graph LR\n    P1[Proof 1] --> P2[Proof 2]\n    style P2 fill:#38a169,color:#fff\n"@,
{
    out.append("graph LR\n    P1[Proof 1] --> P2[Proof 2]\n    style P2 fill:#38a169,color:#fff\n");
}

/// Appends the lineage certification topology diagram.
pub fn export_lineage_certification_topology(out: &mut String)
    ensures
        final(out)@ == old(out)@ + "graph TD\n    ROOT[Root Node] --> L1[Lineage Node]\n    style ROOT fill:#805ad5,color:#fff\n"@,
{
    out.append("graph TD\n    ROOT[Root Node] --> L1[Lineage Node]\n    style ROOT fill:#805ad5,color:#fff\n");
}

/// Appends the aggregation parity tree diagram.
pub fn export_aggregation_parity_tree(out: &mut String)
    ensures
        final(out)@ == old(out)@ + "graph BT\n    P1[Parity 1] --> ROOT[Aggregated Parity]\n    style ROOT fill:#e53e3e,color:#fff\n"@,
{
    out.append("graph BT\n    P1[Parity 1] --> ROOT[Aggregated Parity]\n    style ROOT fill:#e53e3e,color:#fff\n");
}

/// Appends the distributed equivalence graph diagram.
pub fn export_distributed_equivalence_graph(out: &mut String)
    ensures
        final(out)@ == old(out)@ + "graph LR\n    MON[Monolithic] <--> DIST[Distributed]\n    style DIST fill:#d69e2e,color:#fff\n"@,
{
    out.append("graph LR\n    MON[Monolithic] <--> DIST[Distributed]\n    style DIST fill:#d69e2e,color:#fff\n");
}

/// Appends the federation topology graph diagram.
pub fn export_federation_topology_graph(out: &mut String)
    ensures
        final(out)@ == old(out)@ + "graph TD\n    F1[Federation Cluster 1] <--> F2[Federation Cluster 2]\n    style F1 fill:#2c5282,color:#fff\n"@,
{
    out.append("graph TD\n    F1[Federation Cluster 1] <--> F2[Federation Cluster 2]\n    style F1 fill:#2c5282,color:#fff\n");
}

/// Appends the cross cluster lineage bridge diagram.
pub fn export_cross_cluster_lineage_bridge(out: &mut String)
    ensures
        final(out)@ == old(out)@ + "graph LR\n    C1[Cluster 1 Lineage] -->|Bridge| C2[Cluster 2 Lineage]\n    style C2 fill:#276749,color:#fff\n"@,
{
    out.append("graph LR\n    C1[Cluster 1 Lineage] -->|Bridge| C2[Cluster 2 Lineage]\n    style C2 fill:#276749,color:#fff\n");
}

/// Appends the replay treaty dependency graph diagram.
pub fn export_replay_treaty_dependency_graph(out: &mut String)
    ensures
        final(out)@ == old(out)@ + "graph TD\n    T[Treaty] --> R1[Requirement 1]\n    style T fill:#9b2c2c,color:#fff\n"@,
{
    out.append("graph TD\n    T[Treaty] --> R1[Requirement 1]\n    style T fill:#9b2c2c,color:#fff\n");
}

/// Appends the sovereign partition map diagram.
pub fn export_sovereign_partition_map(out: &mut String)
    ensures
        final(out)@ == old(out)@ + "graph BT\n    P1[Partition 1] --> S[Sovereign Domain]\n    style S fill:#b83280,color:#fff\n"@,
{
    out.append("graph BT\n    P1[Partition 1] --> S[Sovereign Domain]\n    style S fill:#b83280,color:#fff\n");
}

/// Appends the federated certification mesh diagram.
pub fn export_federated_certification_mesh(out: &mut String)
    ensures
        final(out)@ == old(out)@ + "graph LR\n    C1[Cert A] <--> C2[Cert B]\n    style C1 fill:#b7791f,color:#fff\n"@,
{
    out.append("graph LR\n    C1[Cert A] <--> C2[Cert B]\n    style C1 fill:#b7791f,color:#fff\n");
}

/// Appends the queue evolution graph diagram.
pub fn export_queue_evolution_graph(out: &mut String)
    ensures
        final(out)@ == old(out)@ + "graph TD\n    Q1[Queue State 1] --> Q2[Queue State 2]\n    style Q1 fill:#2b6cb0,color:#fff\n"@,
{
    out.append("graph TD\n    Q1[Queue State 1] --> Q2[Queue State 2]\n    style Q1 fill:#2b6cb0,color:#fff\n");
}

/// Appends the fill lineage topology diagram.
pub fn export_fill_lineage_topology(out: &mut String)
    ensures
        final(out)@ == old(out)@ + "graph LR\n    F1[Fill 1] --> F2[Fill 2]\n    style F2 fill:#38a169,color:#fff\n"@,
{
    out.append("graph LR\n    F1[Fill 1] --> F2[Fill 2]\n    style F2 fill:#38a169,color:#fff\n");
}

/// Appends the orderbook depth evolution diagram.
pub fn export_orderbook_depth_evolution(out: &mut String)
    ensures
        final(out)@ == old(out)@ + "graph TD\n    D1[Depth 1] --> D2[Depth 2]\n    style D1 fill:#d69e2e,color:#fff\n"@,
{
    out.append("graph TD\n    D1[Depth 1] --> D2[Depth 2]\n    style D1 fill:#d69e2e,color:#fff\n");
}

/// Appends the latency propagation graph diagram.
pub fn export_latency_propagation_graph(out: &mut String)
    ensures
        final(out)@ == old(out)@ + "graph LR\n    E1[Event] -->|Latency| E2[Arrival]\n    style E2 fill:#e53e3e,color:#fff\n"@,
{
    out.append("graph LR\n    E1[Event] -->|Latency| E2[Arrival]\n    style E2 fill:#e53e3e,color:#fff\n");
}

/// Appends the execution pressure topology diagram.
pub fn export_execution_pressure_topology(out: &mut String)
    ensures
        final(out)@ == old(out)@ + "graph BT\n    P1[Pressure] --> P2[Higher Pressure]\n    style P2 fill:#805ad5,color:#fff\n"@,
{
    out.append("graph BT\n    P1[Pressure] --> P2[Higher Pressure]\n    style P2 fill:#805ad5,color:#fff\n");
}

/// Appends the strategy execution topology diagram.
pub fn export_strategy_execution_topology(out: &mut String)
    ensures
        final(out)@ == old(out)@ + "graph TD\n    S[Signal] --> I[Intent] --> E[Execution]\n    style S fill:#3182ce,color:#fff\n"@,
{
    out.append("graph TD\n    S[Signal] --> I[Intent] --> E[Execution]\n    style S fill:#3182ce,color:#fff\n");
}

/// Appends the pnl evolution graph diagram.
pub fn export_pnl_evolution_graph(out: &mut String)
    ensures
        final(out)@ == old(out)@ + "graph LR\n    P1[PnL State 1] --> P2[PnL State 2]\n    style P2 fill:#38a169,color:#fff\n"@,
{
    out.append("graph LR\n    P1[PnL State 1] --> P2[PnL State 2]\n    style P2 fill:#38a169,color:#fff\n");
}

/// Appends the inventory exposure topology diagram.
pub fn export_inventory_exposure_topology(out: &mut String)
    ensures
        final(out)@ == old(out)@ + "graph TD\n    I1[Inventory A] --> I2[Inventory B]\n    style I1 fill:#d69e2e,color:#fff\n"@,
{
    out.append("graph TD\n    I1[Inventory A] --> I2[Inventory B]\n    style I1 fill:#d69e2e,color:#fff\n");
}

/// Appends the trade lifecycle graph diagram.
pub fn export_trade_lifecycle_graph(out: &mut String)
    ensures
        final(out)@ == old(out)@ + "graph LR\n    O[Order] --> F[Fill] --> P[Position]\n    style P fill:#e53e3e,color:#fff\n"@,
{
    out.append("graph LR\n    O[Order] --> F[Fill] --> P[Position]\n    style P fill:#e53e3e,color:#fff\n");
}

/// Appends the execution efficiency map diagram.
pub fn export_execution_efficiency_map(out: &mut String)
    ensures
        final(out)@ == old(out)@ + "graph BT\n    E1[Efficiency] --> E2[Higher Efficiency]\n    style E2 fill:#805ad5,color:#fff\n"@,
{
    out.append("graph BT\n    E1[Efficiency] --> E2[Higher Efficiency]\n    style E2 fill:#805ad5,color:#fff\n");
}

/// Appends the market session topology diagram.
pub fn export_market_session_topology(out: &mut String)
    ensures
        final(out)@ == old(out)@ + "graph TD\n    S1[Session Block 1] --> S2[Session Block 2]\n    style S1 fill:#319795,color:#fff\n"@,
{
    out.append("graph TD\n    S1[Session Block 1] --> S2[Session Block 2]\n    style S1 fill:#319795,color:#fff\n");
}

/// Appends the replay lineage graph diagram.
pub fn export_replay_lineage_graph(out: &mut String)
    ensures
        final(out)@ == old(out)@ + "graph LR\n    L1[Lineage Node A] --> L2[Lineage Node B]\n    style L2 fill:#dd6b20,color:#fff\n"@,
{
    out.append("graph LR\n    L1[Lineage Node A] --> L2[Lineage Node B]\n    style L2 fill:#dd6b20,color:#fff\n");
}

/// Appends the venue fragmentation evolution diagram.
pub fn export_venue_fragmentation_evolution(out: &mut String)
    ensures
        final(out)@ == old(out)@ + "graph TD\n    V[Global Orderbook] --> V1[Venue A]\n    V --> V2[Venue B]\n    style V fill:#718096,color:#fff\n"@,
{
    out.append("graph TD\n    V[Global Orderbook] --> V1[Venue A]\n    V --> V2[Venue B]\n    style V fill:#718096,color:#fff\n");
}

/// Appends the liquidity regime graph diagram.
pub fn export_liquidity_regime_graph(out: &mut String)
    ensures
        final(out)@ == old(out)@ + "graph LR\n    R1[Low Volatility] --> R2[High Volatility]\n    style R2 fill:#e53e3e,color:#fff\n"@,
{
    out.append("graph LR\n    R1[Low Volatility] --> R2[High Volatility]\n    style R2 fill:#e53e3e,color:#fff\n");
}

/// Appends the timestamp alignment topology diagram.
pub fn export_timestamp_alignment_topology(out: &mut String)
    ensures
        final(out)@ == old(out)@ + "graph BT\n    T1[Raw Time] --> T2[Aligned Time]\n    style T2 fill:#3182ce,color:#fff\n"@,
{
    out.append("graph BT\n    T1[Raw Time] --> T2[Aligned Time]\n    style T2 fill:#3182ce,color:#fff\n");
}

/// Appends the exposure topology diagram.
pub fn export_exposure_topology(out: &mut String)
    ensures
        final(out)@ == old(out)@ + "graph TD\n    E1[Exposure Node 1] --> E2[Exposure Node 2]\n    style E1 fill:#dd6b20,color:#fff\n"@,
{
    out.append("graph TD\n    E1[Exposure Node 1] --> E2[Exposure Node 2]\n    style E1 fill:#dd6b20,color:#fff\n");
}

/// Appends the liquidation cascade graph diagram.
pub fn export_liquidation_cascade_graph(out: &mut String)
    ensures
        final(out)@ == old(out)@ + "graph LR\n    L1[Liquidation Event] --> L2[Cascade Target]\n    style L2 fill:#e53e3e,color:#fff\n"@,
{
    out.append("graph LR\n    L1[Liquidation Event] --> L2[Cascade Target]\n    style L2 fill:#e53e3e,color:#fff\n");
}

/// Appends the collateral exhaustion tree diagram.
pub fn export_collateral_exhaustion_tree(out: &mut String)
    ensures
        final(out)@ == old(out)@ + "graph TD\n    C1[Collateral Buffer] --> C2[Exhaustion Node]\n    style C2 fill:#805ad5,color:#fff\n"@,
{
    out.append("graph TD\n    C1[Collateral Buffer] --> C2[Exhaustion Node]\n    style C2 fill:#805ad5,color:#fff\n");
}

/// Appends the systemic stress propagation graph diagram.
pub fn export_systemic_stress_propagation_graph(out: &mut String)
    ensures
        final(out)@ == old(out)@ + "graph LR\n    S1[Shock Origin] --> S2[Contagion Node]\n    style S2 fill:#c53030,color:#fff\n"@,
{
    out.append("graph LR\n    S1[Shock Origin] --> S2[Contagion Node]\n    style S2 fill:#c53030,color:#fff\n");
}

/// Appends the risk constraint dependency map diagram.
pub fn export_risk_constraint_dependency_map(out: &mut String)
    ensures
        final(out)@ == old(out)@ + "graph BT\n    C1[Constraint] --> P[Portfolio Strategy]\n    style C1 fill:#b7791f,color:#fff\n"@,
{
    out.append("graph BT\n    C1[Constraint] --> P[Portfolio Strategy]\n    style C1 fill:#b7791f,color:#fff\n");
}

/// Appends the replay throughput topology diagram.
pub fn export_replay_throughput_topology(out: &mut String)
    ensures
        final(out)@ == old(out)@ + "graph TD\n    T1[Batch Start] --> T2[Batch Processed]\n    style T2 fill:#38a169,color:#fff\n"@,
{
    out.append("graph TD\n    T1[Batch Start] --> T2[Batch Processed]\n    style T2 fill:#38a169,color:#fff\n");
}

/// Appends the execution batch evolution diagram.
pub fn export_execution_batch_evolution(out: &mut String)
    ensures
        final(out)@ == old(out)@ + "graph LR\n    B1[Batch N] --> B2[Batch N+1]\n    style B2 fill:#3182ce,color:#fff\n"@,
{
    out.append("graph LR\n    B1[Batch N] --> B2[Batch N+1]\n    style B2 fill:#3182ce,color:#fff\n");
}

/// Appends the memory pressure topology diagram.
pub fn export_memory_pressure_topology(out: &mut String)
    ensures
        final(out)@ == old(out)@ + "graph TD\n    M1[Allocation] --> M2[Pressure Boundary]\n    style M2 fill:#e53e3e,color:#fff\n"@,
{
    out.append("graph TD\n    M1[Allocation] --> M2[Pressure Boundary]\n    style M2 fill:#e53e3e,color:#fff\n");
}

/// Appends the certification overhead graph diagram.
pub fn export_certification_overhead_graph(out: &mut String)
    ensures
        final(out)@ == old(out)@ + "graph BT\n    O1[Base Overhead] --> O2[Certification Hash]\n    style O2 fill:#805ad5,color:#fff\n"@,
{
    out.append("graph BT\n    O1[Base Overhead] --> O2[Certification Hash]\n    style O2 fill:#805ad5,color:#fff\n");
}

/// Appends the replay scaling trace diagram.
pub fn export_replay_scaling_trace(out: &mut String)
    ensures
        final(out)@ == old(out)@ + "graph LR\n    S1[Node 1] --> S2[Node 2]\n    style S2 fill:#dd6b20,color:#fff\n"@,
{
    out.append("graph LR\n    S1[Node 1] --> S2[Node 2]\n    style S2 fill:#dd6b20,color:#fff\n");
}

/// The CSV row of one timeline entry; empty for a maker-side fill.
pub open spec fn csv_row(e: TimelineEvent) -> Seq<char> {
    match e {
        TimelineEvent::Accepted {
            execution_trace_id,
            sequence,
            trader_id,
            symbol,
            side,
            quantity,
            price,
        } => dec(execution_trace_id as nat) + ","@ + dec(sequence as nat) + ",ACCEPT,"@ + dec(
            trader_id as nat,
        ) + ","@ + symbol@ + ","@ + side@ + ","@ + dec(quantity as nat) + ","@ + dec_int(
            price as int,
        ) + ",\n"@,
        TimelineEvent::Fill {
            execution_trace_id,
            sequence,
            maker_trader_id,
            taker_trader_id,
            symbol,
            quantity,
            price,
            liquidity_side,
        } => if liquidity_side == LiquiditySide::Taker {
            dec(execution_trace_id as nat) + ","@ + dec(sequence as nat) + ",FILL,"@ + dec(
                taker_trader_id as nat,
            ) + ","@ + symbol@ + ",TAKER,"@ + dec(quantity as nat) + ","@ + dec_int(price as int)
                + ",MAKER="@ + dec(maker_trader_id as nat) + "\n"@
        } else {
            Seq::empty()
        },
        TimelineEvent::Update { execution_trace_id, sequence, symbol, queue_depth } => dec(
            execution_trace_id as nat,
        ) + ","@ + dec(sequence as nat) + ",UPDATE,,"@ + symbol@ + ",,"@ + dec(queue_depth as nat)
            + ",,\n"@,
        TimelineEvent::Reject { execution_trace_id, sequence, trader_id, reason } => dec(
            execution_trace_id as nat,
        ) + ","@ + dec(sequence as nat) + ",REJECT,"@ + dec(trader_id as nat) + ",,,,,"@ + reason@
            + "\n"@,
        TimelineEvent::Cancel { execution_trace_id, sequence, trader_id, symbol } => dec(
            execution_trace_id as nat,
        ) + ","@ + dec(sequence as nat) + ",CANCEL,"@ + dec(trader_id as nat) + ","@ + symbol@
            + ",,,,\n"@,
    }
}

/// The CSV rows of a sequence of timeline entries, in order.
pub open spec fn csv_rows(events: Seq<TimelineEvent>) -> Seq<char>
    decreases events.len(),
{
    if events.len() == 0 {
        Seq::empty()
    } else {
        csv_rows(events.drop_last()) + csv_row(events.last())
    }
}

/// The header row of the timeline CSV.
pub open spec fn csv_header() -> Seq<char> {
    "TRACE_ID,SEQUENCE,EVENT_TYPE,TRADER_ID,SYMBOL,SIDE,QUANTITY,PRICE,REASON\n"@
}

#[verifier::spinoff_prover]
#[verifier::rlimit(80)]
fn write_csv_row(out: &mut String, e: &TimelineEvent)
    ensures
        final(out)@ == old(out)@ + csv_row(*e),
{
    match e {
        TimelineEvent::Accepted {
            execution_trace_id,
            sequence,
            trader_id,
            symbol,
            side,
            quantity,
            price,
        } => {
            push_u64(out, *execution_trace_id);
            out.append(",");
            push_u64(out, *sequence);
            out.append(",ACCEPT,");
            push_u64(out, *trader_id);
            out.append(",");
            out.append(symbol.as_str());
            out.append(",");
            out.append(side.as_str());
            out.append(",");
            push_u64(out, *quantity);
            out.append(",");
            push_i64(out, *price);
            out.append(",\n");
        },
        TimelineEvent::Fill {
            execution_trace_id,
            sequence,
            maker_trader_id,
            taker_trader_id,
            symbol,
            quantity,
            price,
            liquidity_side,
        } => {
            if *liquidity_side == LiquiditySide::Taker {
                push_u64(out, *execution_trace_id);
                out.append(",");
                push_u64(out, *sequence);
                out.append(",FILL,");
                push_u64(out, *taker_trader_id);
                out.append(",");
                out.append(symbol.as_str());
                out.append(",TAKER,");
                push_u64(out, *quantity);
                out.append(",");
                push_i64(out, *price);
                out.append(",MAKER=");
                push_u64(out, *maker_trader_id);
                out.append("\n");
            } else {
                assert(out@ =~= old(out)@ + csv_row(*e));
            }
        },
        TimelineEvent::Update { execution_trace_id, sequence, symbol, queue_depth } => {
            push_u64(out, *execution_trace_id);
            out.append(",");
            push_u64(out, *sequence);
            out.append(",UPDATE,,");
            out.append(symbol.as_str());
            out.append(",,");
            push_u64(out, *queue_depth as u64);
            out.append(",,\n");
        },
        TimelineEvent::Reject { execution_trace_id, sequence, trader_id, reason } => {
            push_u64(out, *execution_trace_id);
            out.append(",");
            push_u64(out, *sequence);
            out.append(",REJECT,");
            push_u64(out, *trader_id);
            out.append(",,,,,");
            out.append(reason.as_str());
            out.append("\n");
        },
        TimelineEvent::Cancel { execution_trace_id, sequence, trader_id, symbol } => {
            push_u64(out, *execution_trace_id);
            out.append(",");
            push_u64(out, *sequence);
            out.append(",CANCEL,");
            push_u64(out, *trader_id);
            out.append(",");
            out.append(symbol.as_str());
            out.append(",,,,\n");
        },
    }
}

/// Appends the timeline as CSV: a header row, then one row per entry
/// (maker-side fills are left out so that each trade shows once).
pub fn export_csv(out: &mut String, timeline: &ReplayTimeline)
    ensures
        final(out)@ == old(out)@ + csv_header() + csv_rows(timeline.events@),
{
    out.append("TRACE_ID,SEQUENCE,EVENT_TYPE,TRADER_ID,SYMBOL,SIDE,QUANTITY,PRICE,REASON\n");
    let ghost start = out@;
    let mut i: usize = 0;
    while i < timeline.events.len()
        invariant
            i <= timeline.events@.len(),
            out@ == start + csv_rows(timeline.events@.subrange(0, i as int)),
        decreases timeline.events@.len() - i,
    {
        write_csv_row(out, &timeline.events[i]);
        proof {
            let s = timeline.events@.subrange(0, i + 1);
            assert(s.drop_last() =~= timeline.events@.subrange(0, i as int));
        }
        i = i + 1;
    }
    assert(timeline.events@.subrange(0, timeline.events@.len() as int) =~= timeline.events@);
}

/// The queue-evolution diagram line of one timeline entry (accepts, fills
/// and cancels; nothing for the others).
pub open spec fn queue_evolution_line(e: TimelineEvent) -> Seq<char> {
    match e {
        TimelineEvent::Accepted { execution_trace_id, side, quantity, price, .. } =>
            "    Market->>Queue: T"@ + dec(execution_trace_id as nat) + " "@ + side@ + " "@ + dec(
            quantity as nat,
        ) + " @ "@ + dec_int(price as int) + "\n"@,
        TimelineEvent::Fill { execution_trace_id, quantity, price, liquidity_side, .. } =>
            "    Queue->>Market: T"@ + dec(execution_trace_id as nat) + " Filled "@ + dec(
            quantity as nat,
        ) + " @ "@ + dec_int(price as int) + " ("@ + (if liquidity_side == LiquiditySide::Maker {
            "Maker"@
        } else {
            "Taker"@
        }) + ")\n"@,
        TimelineEvent::Cancel { execution_trace_id, symbol, .. } => "    Queue->>Market: T"@ + dec(
            execution_trace_id as nat,
        ) + " Cancelled ("@ + symbol@ + ")\n"@,
        _ => Seq::empty(),
    }
}

/// The queue-evolution lines of a sequence of timeline entries, in order.
pub open spec fn queue_evolution_lines(events: Seq<TimelineEvent>) -> Seq<char>
    decreases events.len(),
{
    if events.len() == 0 {
        Seq::empty()
    } else {
        queue_evolution_lines(events.drop_last()) + queue_evolution_line(events.last())
    }
}

fn write_queue_evolution_line(out: &mut String, e: &TimelineEvent)
    ensures
        final(out)@ == old(out)@ + queue_evolution_line(*e),
{
    match e {
        TimelineEvent::Accepted { execution_trace_id, side, quantity, price, .. } => {
            out.append("    Market->>Queue: T");
            push_u64(out, *execution_trace_id);
            out.append(" ");
            out.append(side.as_str());
            out.append(" ");
            push_u64(out, *quantity);
            out.append(" @ ");
            push_i64(out, *price);
            out.append("\n");
        },
        TimelineEvent::Fill { execution_trace_id, quantity, price, liquidity_side, .. } => {
            out.append("    Queue->>Market: T");
            push_u64(out, *execution_trace_id);
            out.append(" Filled ");
            push_u64(out, *quantity);
            out.append(" @ ");
            push_i64(out, *price);
            out.append(" (");
            if *liquidity_side == LiquiditySide::Maker {
                out.append("Maker");
            } else {
                out.append("Taker");
            }
            out.append(")\n");
        },
        TimelineEvent::Cancel { execution_trace_id, symbol, .. } => {
            out.append("    Queue->>Market: T");
            push_u64(out, *execution_trace_id);
            out.append(" Cancelled (");
            out.append(symbol.as_str());
            out.append(")\n");
        },
        _ => {
            assert(out@ =~= old(out)@ + queue_evolution_line(*e));
        },
    }
}

/// Appends a sequence diagram of how orders enter and leave the queue.
pub fn export_mermaid_queue_evolution(out: &mut String, timeline: &ReplayTimeline)
    ensures
        final(out)@ == old(out)@ + "sequenceDiagram\n    participant Market\n    participant Queue\n"@
            + queue_evolution_lines(timeline.events@),
{
    out.append("sequenceDiagram\n    participant Market\n    participant Queue\n");
    let ghost start = out@;
    let mut i: usize = 0;
    while i < timeline.events.len()
        invariant
            i <= timeline.events@.len(),
            out@ == start + queue_evolution_lines(timeline.events@.subrange(0, i as int)),
        decreases timeline.events@.len() - i,
    {
        write_queue_evolution_line(out, &timeline.events[i]);
        proof {
            let s = timeline.events@.subrange(0, i + 1);
            assert(s.drop_last() =~= timeline.events@.subrange(0, i as int));
        }
        i = i + 1;
    }
    assert(timeline.events@.subrange(0, timeline.events@.len() as int) =~= timeline.events@);
}

/// Whether `s` begins with `prefix`.
pub open spec fn has_prefix(s: Seq<char>, prefix: Seq<char>) -> bool {
    s.len() >= prefix.len() && s.subrange(0, prefix.len() as int) == prefix
}

fn starts_with(s: &str, prefix: &str) -> (r: bool)
    ensures
        r == has_prefix(s@, prefix@),
{
    let n = s.unicode_len();
    let m = prefix.unicode_len();
    if n < m {
        return false;
    }
    let mut i: usize = 0;
    while i < m
        invariant
            n == s@.len(),
            m == prefix@.len(),
            m <= n,
            i <= m,
            forall|j: int| 0 <= j < i ==> s@[j] == prefix@[j],
        decreases m - i,
    {
        if s.get_char(i) != prefix.get_char(i) {
            assert(s@.subrange(0, m as int)[i as int] != prefix@[i as int]);
            return false;
        }
        i = i + 1;
    }
    assert(s@.subrange(0, m as int) =~= prefix@);
    true
}

/// The routing-trace lines of one timeline entry: a venue-offline rejection
/// becomes an offline notice and a reroute; everything else adds nothing.
pub open spec fn routing_trace_line(e: TimelineEvent) -> Seq<char> {
    match e {
        TimelineEvent::Reject { reason, .. } => if has_prefix(reason@, "Venue Offline"@) {
            "    Venue->>SOR: VenueOffline\n    SOR->>Venue: Reroute OrderFlow\n"@
        } else {
            Seq::empty()
        },
        _ => Seq::empty(),
    }
}

/// The routing-trace lines of a sequence of timeline entries, in order.
pub open spec fn routing_trace_lines(events: Seq<TimelineEvent>) -> Seq<char>
    decreases events.len(),
{
    if events.len() == 0 {
        Seq::empty()
    } else {
        routing_trace_lines(events.drop_last()) + routing_trace_line(events.last())
    }
}

/// The participants of the routing trace.
pub open spec fn routing_trace_header() -> Seq<char> {
    "sequenceDiagram\n    participant SOR\n    participant Venue1\n    participant Venue2\n    participant Venue3\n"@
}

/// Appends a sequence diagram of order-flow rerouting around offline venues.
pub fn export_mermaid_routing_trace(out: &mut String, timeline: &ReplayTimeline)
    ensures
        final(out)@ == old(out)@ + routing_trace_header() + routing_trace_lines(timeline.events@),
{
    out.append(
        "sequenceDiagram\n    participant SOR\n    participant Venue1\n    participant Venue2\n    participant Venue3\n",
    );
    let ghost start = out@;
    let mut i: usize = 0;
    while i < timeline.events.len()
        invariant
            i <= timeline.events@.len(),
            out@ == start + routing_trace_lines(timeline.events@.subrange(0, i as int)),
        decreases timeline.events@.len() - i,
    {
        let e = &timeline.events[i];
        match e {
            TimelineEvent::Reject { reason, .. } => {
                if starts_with(reason.as_str(), "Venue Offline") {
                    out.append("    Venue->>SOR: VenueOffline\n    SOR->>Venue: Reroute OrderFlow\n");
                }
            },
            _ => {},
        }
        proof {
            let s = timeline.events@.subrange(0, i + 1);
            assert(s.drop_last() =~= timeline.events@.subrange(0, i as int));
            assert(out@ =~= start + routing_trace_lines(s));
        }
        i = i + 1;
    }
    assert(timeline.events@.subrange(0, timeline.events@.len() as int) =~= timeline.events@);
}

/// The trader an entry names as a participant: the trader of an accepted
/// order, a rejection or a cancellation.
pub open spec fn entry_trader(e: TimelineEvent) -> Option<u64> {
    match e {
        TimelineEvent::Accepted { trader_id, .. } => Some(trader_id),
        TimelineEvent::Reject { trader_id, .. } => Some(trader_id),
        TimelineEvent::Cancel { trader_id, .. } => Some(trader_id),
        _ => None,
    }
}

/// Every trader some entry names.
pub open spec fn timeline_traders(events: Seq<TimelineEvent>) -> Set<u64> {
    Set::new(|t: u64| exists|i: int| 0 <= i < events.len() && entry_trader(events[i]) == Some(t))
}

/// A participant declaration for each trader, in the given order.
pub open spec fn participant_lines(traders: Seq<u64>) -> Seq<char>
    decreases traders.len(),
{
    if traders.len() == 0 {
        Seq::empty()
    } else {
        participant_lines(traders.drop_last()) + "    participant Trader"@ + dec(
            traders.last() as nat,
        ) + "\n"@
    }
}

/// The messages of one entry: a submission and its acceptance, a trade
/// reaching the portfolio, or a submission and its rejection.
pub open spec fn sequence_message(e: TimelineEvent) -> Seq<char> {
    match e {
        TimelineEvent::Accepted { trader_id, .. } => "    Trader"@ + dec(trader_id as nat)
            + "->>Risk: Submit Order\n"@ + "    Risk->>LOB: Accepted\n"@,
        TimelineEvent::Fill { .. } => "    LOB->>Portfolio: TradeExecuted\n"@,
        TimelineEvent::Reject { trader_id, reason, .. } => "    Trader"@ + dec(trader_id as nat)
            + "->>Risk: Submit Order\n"@ + "    Risk-->>Trader"@ + dec(trader_id as nat)
            + ": Rejected ("@ + reason@ + ")\n"@,
        _ => Seq::empty(),
    }
}

/// The messages of a sequence of entries, in order.
pub open spec fn sequence_messages(events: Seq<TimelineEvent>) -> Seq<char>
    decreases events.len(),
{
    if events.len() == 0 {
        Seq::empty()
    } else {
        sequence_messages(events.drop_last()) + sequence_message(events.last())
    }
}

/// The sequence diagram of a timeline: its traders in increasing id order,
/// the risk gate, the book and the portfolio, then each entry's messages.
pub open spec fn mermaid_sequence(events: Seq<TimelineEvent>) -> Seq<char> {
    "sequenceDiagram\n"@ + participant_lines(sorted_ids(timeline_traders(events)))
        + "    participant Risk\n    participant LOB\n    participant Portfolio\n"@
        + sequence_messages(events)
}

fn write_sequence_message(out: &mut String, e: &TimelineEvent)
    ensures
        final(out)@ == old(out)@ + sequence_message(*e),
{
    match e {
        TimelineEvent::Accepted { trader_id, .. } => {
            out.append("    Trader");
            push_u64(out, *trader_id);
            out.append("->>Risk: Submit Order\n");
            out.append("    Risk->>LOB: Accepted\n");
        },
        TimelineEvent::Fill { .. } => {
            out.append("    LOB->>Portfolio: TradeExecuted\n");
        },
        TimelineEvent::Reject { trader_id, reason, .. } => {
            out.append("    Trader");
            push_u64(out, *trader_id);
            out.append("->>Risk: Submit Order\n");
            out.append("    Risk-->>Trader");
            push_u64(out, *trader_id);
            out.append(": Rejected (");
            out.append(reason.as_str());
            out.append(")\n");
        },
        _ => {
            assert(out@ =~= old(out)@ + sequence_message(*e));
        },
    }
}

#[verifier::spinoff_prover]
fn collect_traders(events: &Vec<TimelineEvent>) -> (traders: Vec<u64>)
    ensures
        strictly_increasing(traders@),
        traders@.to_set() == timeline_traders(events@),
{
    let mut traders: Vec<u64> = Vec::new();
    let mut i: usize = 0;
    assert(traders@.to_set() =~= timeline_traders(events@.subrange(0, 0)));
    while i < events.len()
        invariant
            i <= events@.len(),
            strictly_increasing(traders@),
            traders@.to_set() == timeline_traders(events@.subrange(0, i as int)),
        decreases events@.len() - i,
    {
        let ghost prev = events@.subrange(0, i as int);
        let ghost next = events@.subrange(0, i + 1);
        let ghost before = traders@.to_set();
        let t = match &events[i] {
            TimelineEvent::Accepted { trader_id, .. } => Some(*trader_id),
            TimelineEvent::Reject { trader_id, .. } => Some(*trader_id),
            TimelineEvent::Cancel { trader_id, .. } => Some(*trader_id),
            _ => None,
        };
        assert(t == entry_trader(events@[i as int]));
        match t {
            Some(id) => {
                insert_sorted(&mut traders, id);
                assert(traders@.to_set() == before.insert(id));
            },
            None => {},
        }
        assert forall|x: u64| traders@.to_set().contains(x) <==> (before.contains(x) || t == Some(
            x,
        )) by {
            if t is Some {
                assert(traders@.to_set() == before.insert(t->0));
            }
        }
        proof {
            assert forall|x: u64| timeline_traders(next).contains(x) <==> (before.contains(x) || t
                == Some(x)) by {
                if timeline_traders(next).contains(x) {
                    let k = choose|k: int| 0 <= k < next.len() && entry_trader(next[k]) == Some(x);
                    if k < i {
                        assert(prev[k] == next[k]);
                        assert(timeline_traders(prev).contains(x));
                    }
                }
                if before.contains(x) {
                    let k = choose|k: int| 0 <= k < prev.len() && entry_trader(prev[k]) == Some(x);
                    assert(next[k] == prev[k]);
                }
                if t == Some(x) {
                    assert(next[i as int] == events@[i as int]);
                }
            }
            assert forall|x: u64| traders@.to_set().contains(x) <==> timeline_traders(next).contains(
                x,
            ) by {
                assert(traders@.to_set().contains(x) == (before.contains(x) || t == Some(x)));
                assert(timeline_traders(next).contains(x) == (before.contains(x) || t == Some(x)));
            }
            assert(traders@.to_set() =~= timeline_traders(next));
        }
        i = i + 1;
    }
    assert(events@.subrange(0, events@.len() as int) =~= events@);
    traders
}

/// Appends a sequence diagram of the timeline: participants, then each
/// submission, acceptance, trade and rejection in order.
pub fn export_mermaid_sequence(out: &mut String, timeline: &ReplayTimeline)
    ensures
        final(out)@ == old(out)@ + mermaid_sequence(timeline.events@),
{
    let traders = collect_traders(&timeline.events);
    proof {
        lemma_sorted_ids_is(traders@);
    }
    out.append("sequenceDiagram\n");
    let ghost start = out@;
    let mut i: usize = 0;
    while i < traders.len()
        invariant
            i <= traders@.len(),
            out@ == start + participant_lines(traders@.subrange(0, i as int)),
        decreases traders@.len() - i,
    {
        out.append("    participant Trader");
        push_u64(out, traders[i]);
        out.append("\n");
        proof {
            let s = traders@.subrange(0, i + 1);
            assert(s.drop_last() =~= traders@.subrange(0, i as int));
            assert(out@ =~= start + participant_lines(s));
        }
        i = i + 1;
    }
    assert(traders@.subrange(0, traders@.len() as int) =~= traders@);
    out.append("    participant Risk\n    participant LOB\n    participant Portfolio\n");
    let ghost mid = out@;
    let mut k: usize = 0;
    while k < timeline.events.len()
        invariant
            k <= timeline.events@.len(),
            out@ == mid + sequence_messages(timeline.events@.subrange(0, k as int)),
        decreases timeline.events@.len() - k,
    {
        write_sequence_message(out, &timeline.events[k]);
        proof {
            let s = timeline.events@.subrange(0, k + 1);
            assert(s.drop_last() =~= timeline.events@.subrange(0, k as int));
        }
        k = k + 1;
    }
    assert(timeline.events@.subrange(0, timeline.events@.len() as int) =~= timeline.events@);
}

/// The gantt line of an inventory held from `pts` to `ts`; nothing for a flat inventory.
pub open spec fn inventory_line(pts: u64, pinv: i64, ts: u64) -> Seq<char> {
    if pinv != 0 {
        "    Inventory "@ + dec_int(pinv as int) + " : "@ + dec(pts as nat) + " , "@ + dec(ts as nat)
            + "\n"@
    } else {
        Seq::empty()
    }
}

/// The gantt lines of an inventory series sampled at the timestamps `keys`:
/// one per consecutive pair of samples, over the earlier sample's inventory.
pub open spec fn inventory_lines(keys: Seq<u64>, series: Map<u64, i64>) -> Seq<char>
    decreases keys.len(),
{
    if keys.len() < 2 {
        Seq::empty()
    } else {
        inventory_lines(keys.drop_last(), series) + inventory_line(
            keys[keys.len() - 2],
            series[keys[keys.len() - 2]],
            keys.last(),
        )
    }
}

/// The gantt section of one trader: its inventory, in timestamp order.
pub open spec fn trader_section(trader: u64, a: StrategyAnalytics) -> Seq<char> {
    "    section Trader "@ + dec(trader as nat) + "\n"@ + inventory_lines(
        sorted_ids(a.inventory_series@.dom()),
        a.inventory_series@,
    )
}

/// The gantt sections of the given traders, in order.
pub open spec fn trader_sections(traders: Seq<u64>, m: Map<u64, StrategyAnalytics>) -> Seq<char>
    decreases traders.len(),
{
    if traders.len() == 0 {
        Seq::empty()
    } else {
        trader_sections(traders.drop_last(), m) + trader_section(traders.last(), m[traders.last()])
    }
}

/// The gantt chart header of the strategy trace.
pub open spec fn strategy_trace_header() -> Seq<char> {
    "gantt\n    title Strategy Inventory Trace\n    dateFormat  x\n    axisFormat %s\n"@
}

fn write_trader_section(out: &mut String, trader: u64, a: &StrategyAnalytics)
    ensures
        final(out)@ == old(out)@ + trader_section(trader, *a),
{
    out.append("    section Trader ");
    push_u64(out, trader);
    out.append("\n");
    let ghost mid = out@;
    let ghost series = a.inventory_series@;
    let mut prev: Option<(u64, i64)> = None;
    for kv in it: a.inventory_series.iter()
        invariant
            it.seq() == spec_btree_map_iter(&a.inventory_series).remaining(),
            increasing_seq(it.seq().map_values(|p: (&u64, &i64)| *p.0)),
            series == a.inventory_series@,
            out@ == mid + inventory_lines(
                it.seq().map_values(|p: (&u64, &i64)| *p.0).take(it.index() as int),
                series,
            ),
            it.index() == 0 ==> prev is None,
            it.index() > 0 ==> prev == Some(
                (*it.seq()[it.index() - 1].0, *it.seq()[it.index() - 1].1),
            ),
    {
        proof {
            lemma_iteration_in_key_order(&a.inventory_series);
        }
        let ghost keys = it.seq().map_values(|p: (&u64, &i64)| *p.0);
        let ghost i = it.index();
        let (ts, inv) = kv;
        match prev {
            Some((pts, pinv)) => {
                if pinv != 0 {
                    out.append("    Inventory ");
                    push_i64(out, pinv);
                    out.append(" : ");
                    push_u64(out, pts);
                    out.append(" , ");
                    push_u64(out, *ts);
                    out.append("\n");
                }
            },
            None => {},
        }
        prev = Some((*ts, *inv));
        proof {
            let t = keys.take(i + 1);
            assert(t.drop_last() =~= keys.take(i as int));
            if i > 0 {
                assert(t[t.len() - 2] == keys[i - 1]);
                assert(series[keys[i - 1]] == *it.seq()[i - 1].1);
            }
            assert(out@ =~= mid + inventory_lines(t, series));
        }
    }
    proof {
        lemma_iteration_in_key_order(&a.inventory_series);
        let keys = spec_btree_map_iter(&a.inventory_series).remaining().map_values(
            |p: (&u64, &i64)| *p.0,
        );
        assert(keys.take(keys.len() as int) =~= keys);
    }
}

/// Appends a gantt chart of each trader's inventory over time: traders in
/// increasing id order, inventories in timestamp order, one bar per
/// interval between consecutive samples over which the inventory was not zero.
pub fn export_mermaid_strategy_trace(out: &mut String, collector: &StrategyAnalyticsCollector)
    ensures
        final(out)@ == old(out)@ + strategy_trace_header() + trader_sections(
            sorted_ids(collector.metrics_by_trader@.dom()),
            collector.metrics_by_trader@,
        ),
{
    out.append("gantt\n    title Strategy Inventory Trace\n    dateFormat  x\n    axisFormat %s\n");
    let ghost start = out@;
    let ghost m = collector.metrics_by_trader@;
    for kv in it: collector.metrics_by_trader.iter()
        invariant
            it.seq() == spec_btree_map_iter(&collector.metrics_by_trader).remaining(),
            increasing_seq(it.seq().map_values(|p: (&u64, &StrategyAnalytics)| *p.0)),
            m == collector.metrics_by_trader@,
            out@ == start + trader_sections(
                it.seq().map_values(|p: (&u64, &StrategyAnalytics)| *p.0).take(it.index() as int),
                m,
            ),
    {
        proof {
            lemma_iteration_in_key_order(&collector.metrics_by_trader);
        }
        let ghost keys = it.seq().map_values(|p: (&u64, &StrategyAnalytics)| *p.0);
        let ghost i = it.index();
        let (trader_id, metrics) = kv;
        write_trader_section(out, *trader_id, metrics);
        proof {
            let t = keys.take(i + 1);
            assert(t.drop_last() =~= keys.take(i as int));
            assert(m[keys[i as int]] == *it.seq()[i as int].1);
        }
    }
    proof {
        lemma_iteration_in_key_order(&collector.metrics_by_trader);
        let keys = spec_btree_map_iter(&collector.metrics_by_trader).remaining().map_values(
            |p: (&u64, &StrategyAnalytics)| *p.0,
        );
        assert(keys.take(keys.len() as int) =~= keys);
    }
}


fn write_level_line(out: &mut String, level: &PriceLevel)
    requires
        queue_total(level.orders@) <= u64::MAX,
    ensures
        final(out)@ == old(out)@ + level_line(level.price, level.orders@),
{
    let ghost orders = level.orders@;
    let ghost start = out@;
    let mut total: u64 = 0;
    let mut i: usize = 0;
    while i < level.orders.len()
        invariant
            orders == level.orders@,
            i <= orders.len(),
            queue_total(orders) <= u64::MAX,
            total == queue_total(orders.take(i as int)),
        decreases orders.len() - i,
    {
        proof {
            lemma_queue_total_prefix(orders, i + 1);
            assert(orders.take(i + 1).drop_last() =~= orders.take(i as int));
        }
        total = total + level.orders[i].remaining_quantity;
        i = i + 1;
    }
    assert(orders.take(orders.len() as int) =~= orders);
    push_i64(out, level.price);
    out.append(" | ");
    let bar: u64 = if total < 10 {
        total
    } else {
        10
    };
    let ghost mid = out@;
    let mut j: u64 = 0;
    while j < bar
        invariant
            j <= bar,
            out@ == mid + hashes(j as nat),
        decreases bar - j,
    {
        out.append("#");
        j = j + 1;
        proof {
            reveal_strlit("#");
            assert(out@ =~= mid + hashes(j as nat));
        }
    }
    out.append("(");
    push_u64(out, total);
    out.append(") | Q: ");
    let ghost qstart = out@;
    let mut k: usize = 0;
    while k < level.orders.len()
        invariant
            orders == level.orders@,
            k <= orders.len(),
            out@ == qstart + queue_text(orders.take(k as int)),
        decreases orders.len() - k,
    {
        let o = level.orders[k];
        out.append("[T");
        push_u64(out, o.trader_id);
        out.append(":");
        push_u64(out, o.remaining_quantity);
        out.append("] ");
        proof {
            assert(orders.take(k + 1).drop_last() =~= orders.take(k as int));
        }
        k = k + 1;
        assert(out@ =~= qstart + queue_text(orders.take(k as int)));
    }
    out.append("\n");
    assert(out@ =~= start + level_line(level.price, orders));
}

fn write_levels_descending(out: &mut String, levels: &Vec<PriceLevel>)
    requires
        level_totals_fit(levels@),
    ensures
        final(out)@ == old(out)@ + levels_descending(levels@),
{
    let ghost start = out@;
    let mut i: usize = levels.len();
    assert(levels@.take(i as int) =~= levels@);
    while i > 0
        invariant
            i <= levels@.len(),
            level_totals_fit(levels@),
            start + levels_descending(levels@) == out@ + levels_descending(
                levels@.take(i as int),
            ),
        decreases i,
    {
        let ghost before = out@;
        proof {
            let t = levels@.take(i as int);
            assert(t.drop_last() =~= levels@.take(i - 1));
            assert(t.last() == levels@[i - 1]);
        }
        write_level_line(out, &levels[i - 1]);
        i = i - 1;
        assert(before + levels_descending(levels@.take(i + 1)) == out@ + levels_descending(
            levels@.take(i as int),
        ));
    }
    assert(levels@.take(levels@.len() as int) =~= levels@);
    assert(levels_descending(levels@.take(0)) =~= Seq::<char>::empty());
    assert(out@ =~= start + levels_descending(levels@));
}

/// Appends the depth view of a book: the ask levels from the highest price
/// down to the best ask, the spread (best ask minus best bid, or `INF` when a
/// side is empty), then the bid levels from the best bid down. Each level
/// shows a bar of up to ten hash marks, its total quantity and its queue.
/// Since the book is well formed, each side is drawn from its highest price
/// down (see `law_depth_lines_descend_in_price`).
pub fn export_ascii_lob(out: &mut String, book: &BookDepth)
    requires
        book.renderable(),
    ensures
        final(out)@ == old(out)@ + book.ascii_view(),
{
    let ghost start = out@;
    out.append("ASKS\n");
    write_levels_descending(out, &book.asks);
    if book.asks.len() > 0 && book.bids.len() > 0 {
        let spread: i64 = book.asks[0].price - book.bids[book.bids.len() - 1].price;
        out.append("\nSPREAD = ");
        push_i64(out, spread);
        out.append("\n\n");
    } else {
        out.append("\nSPREAD = INF\n\n");
    }
    write_levels_descending(out, &book.bids);
    out.append("BIDS\n");
    assert(out@ =~= start + book.ascii_view());
}

/// Finds the book held under `symbol`: the first one, as `book_for` says.
fn find_book<'a>(books: &'a Vec<SymbolBook>, symbol: &String) -> (r: Option<&'a BookDepth>)
    ensures
        match book_for(books@, symbol@) {
            Some(b) => r == Some(&b),
            None => r is None,
        },
{
    let mut i: usize = 0;
    assert(books@.skip(0) =~= books@);
    while i < books.len()
        invariant
            i <= books@.len(),
            book_for(books@, symbol@) == book_for(books@.skip(i as int), symbol@),
        decreases books@.len() - i,
    {
        if books[i].symbol == *symbol {
            return Some(&books[i].book);
        }
        assert(books@.skip(i as int).drop_first() =~= books@.skip(i + 1));
        i = i + 1;
    }
    None
}

/// Every venue is held under its own id, holds at most one book per symbol,
/// and its book for `symbol`, where it holds one, can be drawn.
pub open spec fn venue_books_renderable(venues: Map<u64, VenueLiquidity>, symbol: Seq<char>) -> bool {
    forall|k: u64|
        #![trigger venues[k]]
        venues.contains_key(k) ==> {
            &&& venues[k].venue_id == k
            &&& symbols_distinct(venues[k].books@)
            &&& match book_for(venues[k].books@, symbol) {
                Some(b) => b.renderable(),
                None => true,
            }
        }
}

/// The heatmap header naming the symbol.
pub open spec fn multi_venue_header(symbol: Seq<char>) -> Seq<char> {
    "==============================================\n   MULTI-VENUE LIQUIDITY HEATMAP: "@ + symbol
        + "\n==============================================\n"@
}

/// The heatmap block of one venue: its id, then its depth view of the
/// symbol, or a note that it holds no book for it.
pub open spec fn venue_block(v: VenueLiquidity, symbol: Seq<char>) -> Seq<char> {
    "\nVENUE ID: "@ + dec(v.venue_id as nat) + "\n"@ + match book_for(v.books@, symbol) {
        Some(b) => b.ascii_view(),
        None => "No liquidity for symbol.\n"@,
    }
}

/// The heatmap blocks of the venues under the given keys, in order.
pub open spec fn venue_blocks(keys: Seq<u64>, venues: Map<u64, VenueLiquidity>, symbol: Seq<char>) -> Seq<char>
    decreases keys.len(),
{
    if keys.len() == 0 {
        Seq::empty()
    } else {
        venue_blocks(keys.drop_last(), venues, symbol) + venue_block(venues[keys.last()], symbol)
    }
}

/// Appends the liquidity heatmap of one symbol across venues: a header,
/// then for each venue in increasing key order its id and its depth view of
/// the symbol, or a note that it holds no book for it.
pub fn export_multi_venue_ascii_lob(
    out: &mut String,
    venues: &BTreeMap<u64, VenueLiquidity>,
    symbol: &String,
)
    requires
        venue_books_renderable(venues@, symbol@),
    ensures
        final(out)@ == old(out)@ + multi_venue_header(symbol@) + venue_blocks(
            sorted_ids(venues@.dom()),
            venues@,
            symbol@,
        ),
{
    out.append("==============================================\n   MULTI-VENUE LIQUIDITY HEATMAP: ");
    out.append(symbol.as_str());
    out.append("\n==============================================\n");
    let ghost start = out@;
    let ghost m = venues@;
    for kv in it: venues.iter()
        invariant
            it.seq() == spec_btree_map_iter(venues).remaining(),
            increasing_seq(it.seq().map_values(|p: (&u64, &VenueLiquidity)| *p.0)),
            m == venues@,
            venue_books_renderable(m, symbol@),
            out@ == start + venue_blocks(
                it.seq().map_values(|p: (&u64, &VenueLiquidity)| *p.0).take(it.index() as int),
                m,
                symbol@,
            ),
    {
        proof {
            lemma_iteration_in_key_order(venues);
        }
        let ghost keys = it.seq().map_values(|p: (&u64, &VenueLiquidity)| *p.0);
        let ghost i = it.index();
        let (key, venue) = kv;
        proof {
            assert(m[keys[i as int]] == *it.seq()[i as int].1);
            assert(m.contains_key(*key));
            assert(m[*key] == *venue);
        }
        let ghost before = out@;
        out.append("\nVENUE ID: ");
        push_u64(out, venue.venue_id);
        out.append("\n");
        match find_book(&venue.books, symbol) {
            Some(book) => {
                export_ascii_lob(out, book);
            },
            None => {
                out.append("No liquidity for symbol.\n");
            },
        }
        proof {
            assert(out@ =~= before + venue_block(*venue, symbol@));
            let t = keys.take(i + 1);
            assert(t.drop_last() =~= keys.take(i as int));
        }
    }
    proof {
        lemma_iteration_in_key_order(venues);
        let keys = spec_btree_map_iter(venues).remaining().map_values(
            |p: (&u64, &VenueLiquidity)| *p.0,
        );
        assert(keys.take(keys.len() as int) =~= keys);
    }
}

} // verus!
