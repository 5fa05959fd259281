//! Order-flow and benchmark analytics of a replay.

use vstd::prelude::*;
use std::collections::BTreeMap;

verus! {

/// Parts per million: `numerator * 1_000_000 / denominator`, the product
/// saturating at `u64::MAX`, and 0 when the denominator is 0.
pub open spec fn ppm_ratio(numerator: u64, denominator: u64) -> u64 {
    if denominator == 0 {
        0
    } else {
        let scaled: int = if numerator * 1_000_000 > u64::MAX {
            u64::MAX as int
        } else {
            numerator * 1_000_000
        };
        (scaled / (denominator as int)) as u64
    }
}

/// `numerator * 1_000_000 / denominator` with saturating multiplication, 0 for a 0 denominator.
pub(crate) fn ppm(numerator: u64, denominator: u64) -> (r: u64)
    ensures
        r == ppm_ratio(numerator, denominator),
{
    if denominator == 0 {
        return 0;
    }
    let scaled = match numerator.checked_mul(1_000_000) {
        Some(v) => v,
        None => u64::MAX,
    };
    scaled / denominator
}

/// A ratio of a part to a whole it does not exceed is at most one million parts per million.
pub proof fn lemma_ppm_ratio_at_most_one(numerator: u64, denominator: u64)
    requires
        numerator <= denominator,
    ensures
        ppm_ratio(numerator, denominator) <= 1_000_000,
{
    if denominator > 0 {
        let scaled: int = if numerator * 1_000_000 > u64::MAX {
            u64::MAX as int
        } else {
            numerator * 1_000_000
        };
        let d = denominator as int;
        assert(scaled <= d * 1_000_000) by (nonlinear_arith)
            requires
                scaled <= numerator * 1_000_000,
                numerator <= d,
                0 <= numerator,
        ;
        assert(scaled / d <= 1_000_000) by (nonlinear_arith)
            requires
                scaled <= d * 1_000_000,
                d > 0,
                scaled >= 0,
        ;
    }
}

/// Counts of the order flow seen during a replay.
#[derive(Clone, Debug, Default)]
pub struct OrderFlowAnalytics {
    pub total_orders: u64,
    pub total_fills: u64,
    pub total_rejections: u64,
    pub maker_volume: u64,
    pub taker_volume: u64,
    pub cancel_count: u64,
    pub symbol_distribution: BTreeMap<String, u64>,
}

/// Maker and taker volume together, saturating at `u64::MAX`.
pub open spec fn traded_volume(a: OrderFlowAnalytics) -> u64 {
    if a.maker_volume + a.taker_volume > u64::MAX {
        u64::MAX
    } else {
        (a.maker_volume + a.taker_volume) as u64
    }
}

impl OrderFlowAnalytics {
    /// Analytics with every count zero and no symbols seen.
    pub fn new() -> (a: OrderFlowAnalytics)
        ensures
            a.total_orders == 0,
            a.total_fills == 0,
            a.total_rejections == 0,
            a.maker_volume == 0,
            a.taker_volume == 0,
            a.cancel_count == 0,
            a.symbol_distribution@ == Map::<String, u64>::empty(),
    {
        OrderFlowAnalytics {
            total_orders: 0,
            total_fills: 0,
            total_rejections: 0,
            maker_volume: 0,
            taker_volume: 0,
            cancel_count: 0,
            symbol_distribution: BTreeMap::new(),
        }
    }

    /// Fills per order, in parts per million.
    pub fn fill_ratio_ppm(&self) -> (r: u64)
        ensures
            r == ppm_ratio(self.total_fills, self.total_orders),
    {
        ppm(self.total_fills, self.total_orders)
    }

    /// Rejections per order, in parts per million.
    pub fn rejection_ratio_ppm(&self) -> (r: u64)
        ensures
            r == ppm_ratio(self.total_rejections, self.total_orders),
    {
        ppm(self.total_rejections, self.total_orders)
    }

    /// Maker share of traded volume, in parts per million.
    pub fn maker_ratio_ppm(&self) -> (r: u64)
        ensures
            r == ppm_ratio(self.maker_volume, traded_volume(*self)),
    {
        let total = self.maker_volume.saturating_add(self.taker_volume);
        ppm(self.maker_volume, total)
    }

    /// Taker share of traded volume, in parts per million.
    pub fn taker_ratio_ppm(&self) -> (r: u64)
        ensures
            r == ppm_ratio(self.taker_volume, traded_volume(*self)),
    {
        let total = self.maker_volume.saturating_add(self.taker_volume);
        ppm(self.taker_volume, total)
    }
}

/// The maker and taker shares of traded volume never add up to more than
/// one million parts per million, and each is at most that.
pub proof fn law_maker_taker_shares_bounded(a: OrderFlowAnalytics)
    ensures
        ppm_ratio(a.maker_volume, traded_volume(a)) <= 1_000_000,
        ppm_ratio(a.taker_volume, traded_volume(a)) <= 1_000_000,
        ppm_ratio(a.maker_volume, traded_volume(a)) + ppm_ratio(a.taker_volume, traded_volume(a))
            <= 1_000_000,
{
    let m = a.maker_volume;
    let t = a.taker_volume;
    let total = traded_volume(a);
    if total > 0 {
        let sm: int = if m * 1_000_000 > u64::MAX { u64::MAX as int } else { m * 1_000_000 };
        let st: int = if t * 1_000_000 > u64::MAX { u64::MAX as int } else { t * 1_000_000 };
        let d = total as int;
        if m + t > u64::MAX {
            assert(sm / d <= 1) by (nonlinear_arith)
                requires
                    0 <= sm <= u64::MAX,
                    d == u64::MAX,
            ;
            assert(st / d <= 1) by (nonlinear_arith)
                requires
                    0 <= st <= u64::MAX,
                    d == u64::MAX,
            ;
        } else {
            assert(sm / d + st / d <= 1_000_000) by (nonlinear_arith)
                requires
                    0 <= sm <= m * 1_000_000,
                    0 <= st <= t * 1_000_000,
                    d == m + t,
                    d > 0,
                    m >= 0,
                    t >= 0,
            {
                assert(sm + st <= d * 1_000_000);
                assert((sm / d) * d <= sm);
                assert((st / d) * d <= st);
                assert((sm / d + st / d) * d <= d * 1_000_000);
            }
        }
    }
}

/// Routing and execution analytics of one venue.
#[derive(Clone, Debug, Default)]
pub struct VenueAnalytics {
    pub total_fills: u64,
    pub volume_executed: u64,
    pub routing_efficiency_bps: i64,
    pub toxicity_bps: i64,
    pub post_trade_markout: i64,
    pub liquidity_survival_rate_ppm: u64,
}

/// Clearing analytics: collateral, settlement, liquidation and funding.
#[derive(Clone, Debug, Default)]
pub struct ClearingAnalytics {
    pub collateral_utilization_ppm: u64,
    pub settlement_failure_count: u64,
    pub liquidation_count: u64,
    pub margin_utilization_ppm: u64,
    pub funding_imbalance: i64,
}

/// The report of a benchmark replay: throughput, P&L, order flow, venue and
/// clearing analytics, and the scores of each study.
#[derive(Clone, Debug, Default)]
pub struct BenchmarkReport {
    pub events_per_sec: u64,
    pub trades_per_sec: u64,
    pub symbols_processed: u64,
    pub total_journal_bytes: u64,
    pub replay_duration_us: u64,
    pub realized_pnl: i64,
    pub unrealized_pnl: i64,
    pub order_flow: OrderFlowAnalytics,
    pub venue_analytics: BTreeMap<u8, VenueAnalytics>,
    pub clearing_analytics: ClearingAnalytics,
    pub systemic_stress_score_ppm: u64,
    pub venue_fragmentation_score_ppm: u64,
    pub governance_intervention_score_ppm: u64,
    pub recovery_efficiency_score_ppm: u64,
    pub replay_integrity_score_ppm: u64,
    pub operational_stability_score_ppm: u64,

    // Experiment Level Metrics
    pub experiment_replay_integrity_ppm: u64,
    pub systemic_variance_score_ppm: u64,
    pub liquidity_resilience_score_ppm: u64,
    pub replay_divergence_score_ppm: u64,
    pub infrastructure_stability_score_ppm: u64,

    // Phase 13A Policy Metrics
    pub systemic_recovery_score_ppm: u64,
    pub intervention_effectiveness_ppm: u64,
    pub insolvency_containment_ppm: u64,
    pub liquidity_restoration_ppm: u64,
    pub policy_stability_score_ppm: u64,
    pub contagion_suppression_score_ppm: u64,

    // Phase 13B Benchmark Metrics
    pub replay_certification_score_ppm: u64,
    pub policy_response_efficiency_ppm: u64,
    pub liquidity_recovery_duration_sequences: u64,
    pub systemic_containment_score_ppm: u64,
    pub benchmark_integrity_score_ppm: u64,

    // Phase 13C Audit & Trust Metrics
    pub lineage_consistency_score_ppm: u64,
    pub benchmark_trust_score_ppm: u64,
    pub invariant_compliance_score_ppm: u64,
    pub system_integrity_score_ppm: u64,

    // Phase 14A Ecology Metrics
    pub behavioral_stability_score_ppm: u64,
    pub agent_fragmentation_score_ppm: u64,
    pub liquidity_retreat_intensity_ppm: u64,
    pub cascade_acceleration_score_ppm: u64,
    pub market_resilience_score_ppm: u64,

    // Phase 14B RL Telemetry Metrics
    pub reward_efficiency_score_ppm: u64,
    pub dataset_integrity_score_ppm: u64,
    pub policy_replay_divergence_ppm: u64,
    pub adaptive_recovery_score_ppm: u64,

    // Phase 15A Distributed Telemetry Metrics
    pub distributed_replay_integrity_score_ppm: u64,
    pub shard_certification_score_ppm: u64,
    pub distributed_parity_score_ppm: u64,
    pub replay_cluster_efficiency_ppm: u64,
    pub lineage_merge_integrity_ppm: u64,

    // Phase 16A Formal Telemetry Metrics
    pub formal_determinism_score_ppm: u64,
    pub replay_equivalence_score_ppm: u64,
    pub invariant_stability_score_ppm: u64,
    pub distributed_parity_integrity_ppm: u64,
    pub certification_chain_integrity_ppm: u64,

    // Phase 17A Federated Telemetry Metrics
    pub federation_consensus_integrity_ppm: u64,
    pub cross_cluster_equivalence_score_ppm: u64,
    pub replay_treaty_stability_ppm: u64,
    pub sovereign_partition_integrity_ppm: u64,
    pub federation_lineage_continuity_ppm: u64,

    // Stage 2A LOB Hardening Metrics
    pub queue_integrity_score_ppm: u64,
    pub execution_parity_score_ppm: u64,
    pub latency_stability_score_ppm: u64,
    pub slippage_consistency_score_ppm: u64,
    pub orderbook_reconstruction_score_ppm: u64,

    // Stage 2B Deterministic Strategy Metrics
    pub strategy_parity_score_ppm: u64,
    pub portfolio_integrity_score_ppm: u64,
    pub execution_efficiency_score_ppm: u64,
    pub inventory_stability_score_ppm: u64,
    pub pnl_replay_consistency_ppm: u64,

    // Stage 2C Historical Reconstruction Metrics
    pub market_reconstruction_score_ppm: u64,
    pub historical_replay_integrity_ppm: u64,
    pub timestamp_alignment_score_ppm: u64,
    pub microstructure_fidelity_score_ppm: u64,
    pub session_equivalence_score_ppm: u64,

    // Stage 2D Risk & Exposure Metrics
    pub exposure_integrity_score_ppm: u64,
    pub margin_stability_score_ppm: u64,
    pub liquidation_parity_score_ppm: u64,
    pub stress_propagation_integrity_ppm: u64,
    pub risk_constraint_stability_ppm: u64,

    // Stage 2E Performance & Profiling Metrics
    pub replay_throughput_score_ppm: u64,
    pub profiling_integrity_score_ppm: u64,
    pub memory_stability_score_ppm: u64,
    pub execution_efficiency_score_ppm_2e: u64,
    pub certification_overhead_score_ppm: u64,
}


/// Every study score of a report is zero: the replay itself measures none of them.
pub open spec fn study_scores_zero(r: BenchmarkReport) -> bool {
    &&& r.systemic_stress_score_ppm == 0
    &&& r.venue_fragmentation_score_ppm == 0
    &&& r.governance_intervention_score_ppm == 0
    &&& r.recovery_efficiency_score_ppm == 0
    &&& r.replay_integrity_score_ppm == 0
    &&& r.operational_stability_score_ppm == 0
    &&& r.experiment_replay_integrity_ppm == 0
    &&& r.systemic_variance_score_ppm == 0
    &&& r.liquidity_resilience_score_ppm == 0
    &&& r.replay_divergence_score_ppm == 0
    &&& r.infrastructure_stability_score_ppm == 0
    &&& r.systemic_recovery_score_ppm == 0
    &&& r.intervention_effectiveness_ppm == 0
    &&& r.insolvency_containment_ppm == 0
    &&& r.liquidity_restoration_ppm == 0
    &&& r.policy_stability_score_ppm == 0
    &&& r.contagion_suppression_score_ppm == 0
    &&& r.replay_certification_score_ppm == 0
    &&& r.policy_response_efficiency_ppm == 0
    &&& r.liquidity_recovery_duration_sequences == 0
    &&& r.systemic_containment_score_ppm == 0
    &&& r.benchmark_integrity_score_ppm == 0
    &&& r.lineage_consistency_score_ppm == 0
    &&& r.benchmark_trust_score_ppm == 0
    &&& r.invariant_compliance_score_ppm == 0
    &&& r.system_integrity_score_ppm == 0
    &&& r.behavioral_stability_score_ppm == 0
    &&& r.agent_fragmentation_score_ppm == 0
    &&& r.liquidity_retreat_intensity_ppm == 0
    &&& r.cascade_acceleration_score_ppm == 0
    &&& r.market_resilience_score_ppm == 0
    &&& r.reward_efficiency_score_ppm == 0
    &&& r.dataset_integrity_score_ppm == 0
    &&& r.policy_replay_divergence_ppm == 0
    &&& r.adaptive_recovery_score_ppm == 0
    &&& r.distributed_replay_integrity_score_ppm == 0
    &&& r.shard_certification_score_ppm == 0
    &&& r.distributed_parity_score_ppm == 0
    &&& r.replay_cluster_efficiency_ppm == 0
    &&& r.lineage_merge_integrity_ppm == 0
    &&& r.formal_determinism_score_ppm == 0
    &&& r.replay_equivalence_score_ppm == 0
    &&& r.invariant_stability_score_ppm == 0
    &&& r.distributed_parity_integrity_ppm == 0
    &&& r.certification_chain_integrity_ppm == 0
    &&& r.federation_consensus_integrity_ppm == 0
    &&& r.cross_cluster_equivalence_score_ppm == 0
    &&& r.replay_treaty_stability_ppm == 0
    &&& r.sovereign_partition_integrity_ppm == 0
    &&& r.federation_lineage_continuity_ppm == 0
    &&& r.queue_integrity_score_ppm == 0
    &&& r.execution_parity_score_ppm == 0
    &&& r.latency_stability_score_ppm == 0
    &&& r.slippage_consistency_score_ppm == 0
    &&& r.orderbook_reconstruction_score_ppm == 0
    &&& r.strategy_parity_score_ppm == 0
    &&& r.portfolio_integrity_score_ppm == 0
    &&& r.execution_efficiency_score_ppm == 0
    &&& r.inventory_stability_score_ppm == 0
    &&& r.pnl_replay_consistency_ppm == 0
    &&& r.market_reconstruction_score_ppm == 0
    &&& r.historical_replay_integrity_ppm == 0
    &&& r.timestamp_alignment_score_ppm == 0
    &&& r.microstructure_fidelity_score_ppm == 0
    &&& r.session_equivalence_score_ppm == 0
    &&& r.exposure_integrity_score_ppm == 0
    &&& r.margin_stability_score_ppm == 0
    &&& r.liquidation_parity_score_ppm == 0
    &&& r.stress_propagation_integrity_ppm == 0
    &&& r.risk_constraint_stability_ppm == 0
    &&& r.replay_throughput_score_ppm == 0
    &&& r.profiling_integrity_score_ppm == 0
    &&& r.memory_stability_score_ppm == 0
    &&& r.execution_efficiency_score_ppm_2e == 0
    &&& r.certification_overhead_score_ppm == 0
}

/// Venue analytics with every figure zero.
pub open spec fn empty_venue_analytics() -> VenueAnalytics {
    VenueAnalytics {
        total_fills: 0,
        volume_executed: 0,
        routing_efficiency_bps: 0,
        toxicity_bps: 0,
        post_trade_markout: 0,
        liquidity_survival_rate_ppm: 0,
    }
}

/// Clearing analytics with every figure zero.
pub open spec fn empty_clearing_analytics() -> ClearingAnalytics {
    ClearingAnalytics {
        collateral_utilization_ppm: 0,
        settlement_failure_count: 0,
        liquidation_count: 0,
        margin_utilization_ppm: 0,
        funding_imbalance: 0,
    }
}

/// The realized and unrealized P&L of one position.
#[derive(Clone, Copy, Debug, PartialEq, Eq, Structural)]
pub struct PositionPnl {
    pub realized_pnl: i64,
    pub unrealized_pnl: i64,
}

/// The realized P&L of the positions, summed in order.
pub open spec fn realized_sum(ps: Seq<PositionPnl>) -> int
    decreases ps.len(),
{
    if ps.len() == 0 {
        0
    } else {
        realized_sum(ps.drop_last()) + ps.last().realized_pnl
    }
}

/// The unrealized P&L of the positions, summed in order.
pub open spec fn unrealized_sum(ps: Seq<PositionPnl>) -> int
    decreases ps.len(),
{
    if ps.len() == 0 {
        0
    } else {
        unrealized_sum(ps.drop_last()) + ps.last().unrealized_pnl
    }
}

/// Every partial sum of the P&L fits in an `i64`.
pub open spec fn pnl_sums_fit(ps: Seq<PositionPnl>) -> bool {
    forall|i: int|
        0 <= i <= ps.len() ==> i64::MIN <= #[trigger] realized_sum(ps.take(i)) <= i64::MAX
            && i64::MIN <= unrealized_sum(ps.take(i)) <= i64::MAX
}

impl BenchmarkReport {
    /// The report of a replay: events and trades per second over the
    /// elapsed microseconds (in the manner of `ppm_ratio`: saturating, and 0
    /// when no time elapsed), the number of symbols traded, the journal size
    /// and duration, the P&L summed over every position, the order flow, an
    /// empty entry for each venue, empty clearing analytics, and no study scores.
    pub fn from_replay(
        events_processed: u64,
        order_flow: OrderFlowAnalytics,
        elapsed_us: u64,
        total_journal_bytes: u64,
        positions: &Vec<PositionPnl>,
        venue_ids: &Vec<u8>,
    ) -> (r: BenchmarkReport)
        requires
            pnl_sums_fit(positions@),
        ensures
            r.events_per_sec == ppm_ratio(events_processed, elapsed_us),
            r.trades_per_sec == ppm_ratio(order_flow.total_fills, elapsed_us),
            r.symbols_processed == order_flow.symbol_distribution.len(),
            r.total_journal_bytes == total_journal_bytes,
            r.replay_duration_us == elapsed_us,
            r.realized_pnl == realized_sum(positions@),
            r.unrealized_pnl == unrealized_sum(positions@),
            r.order_flow == order_flow,
            r.venue_analytics@.dom() == venue_ids@.to_set(),
            forall|v: u8| #[trigger] r.venue_analytics@.contains_key(v) ==> r.venue_analytics@[v]
                == empty_venue_analytics(),
            r.clearing_analytics == empty_clearing_analytics(),
            study_scores_zero(r),
    {
        let events_per_sec = ppm(events_processed, elapsed_us);
        let trades_per_sec = ppm(order_flow.total_fills, elapsed_us);
        let symbols_processed = order_flow.symbol_distribution.len() as u64;
        let mut realized_pnl: i64 = 0;
        let mut unrealized_pnl: i64 = 0;
        let mut i: usize = 0;
        while i < positions.len()
            invariant
                i <= positions@.len(),
                pnl_sums_fit(positions@),
                realized_pnl == realized_sum(positions@.take(i as int)),
                unrealized_pnl == unrealized_sum(positions@.take(i as int)),
            decreases positions@.len() - i,
        {
            assert(positions@.take(i + 1).drop_last() =~= positions@.take(i as int));
            assert(i64::MIN <= realized_sum(positions@.take(i + 1)) <= i64::MAX);
            realized_pnl = realized_pnl + positions[i].realized_pnl;
            unrealized_pnl = unrealized_pnl + positions[i].unrealized_pnl;
            i = i + 1;
        }
        assert(positions@.take(positions@.len() as int) =~= positions@);
        let mut venue_analytics: BTreeMap<u8, VenueAnalytics> = BTreeMap::new();
        let mut k: usize = 0;
        while k < venue_ids.len()
            invariant
                k <= venue_ids@.len(),
                venue_analytics@.dom() == venue_ids@.take(k as int).to_set(),
                forall|v: u8| #[trigger] venue_analytics@.contains_key(v) ==> venue_analytics@[v]
                    == empty_venue_analytics(),
            decreases venue_ids@.len() - k,
        {
            let empty = VenueAnalytics {
                total_fills: 0,
                volume_executed: 0,
                routing_efficiency_bps: 0,
                toxicity_bps: 0,
                post_trade_markout: 0,
                liquidity_survival_rate_ppm: 0,
            };
            venue_analytics.insert(venue_ids[k], empty);
            proof {
                let t0 = venue_ids@.take(k as int);
                let t1 = venue_ids@.take(k + 1);
                assert(t1 =~= t0.push(venue_ids@[k as int]));
                assert forall|v: u8| t1.to_set().contains(v) <==> t0.to_set().insert(venue_ids@[k as int]).contains(v) by {
                    if t1.contains(v) {
                        let j = choose|j: int| 0 <= j < t1.len() && t1[j] == v;
                        if j < k {
                            assert(t0[j] == v);
                        }
                    }
                    if t0.contains(v) {
                        let j = choose|j: int| 0 <= j < t0.len() && t0[j] == v;
                        assert(t1[j] == v);
                    }
                    if v == venue_ids@[k as int] {
                        assert(t1[k as int] == v);
                    }
                }
                assert(venue_analytics@.dom() =~= t1.to_set());
            }
            k = k + 1;
        }
        assert(venue_ids@.take(venue_ids@.len() as int) =~= venue_ids@);
        BenchmarkReport {
            events_per_sec,
            trades_per_sec,
            symbols_processed,
            total_journal_bytes,
            replay_duration_us: elapsed_us,
            realized_pnl,
            unrealized_pnl,
            order_flow,
            venue_analytics,
            clearing_analytics: ClearingAnalytics {
                collateral_utilization_ppm: 0,
                settlement_failure_count: 0,
                liquidation_count: 0,
                margin_utilization_ppm: 0,
                funding_imbalance: 0,
            },
            systemic_stress_score_ppm: 0,
            venue_fragmentation_score_ppm: 0,
            governance_intervention_score_ppm: 0,
            recovery_efficiency_score_ppm: 0,
            replay_integrity_score_ppm: 0,
            operational_stability_score_ppm: 0,
            experiment_replay_integrity_ppm: 0,
            systemic_variance_score_ppm: 0,
            liquidity_resilience_score_ppm: 0,
            replay_divergence_score_ppm: 0,
            infrastructure_stability_score_ppm: 0,
            systemic_recovery_score_ppm: 0,
            intervention_effectiveness_ppm: 0,
            insolvency_containment_ppm: 0,
            liquidity_restoration_ppm: 0,
            policy_stability_score_ppm: 0,
            contagion_suppression_score_ppm: 0,
            replay_certification_score_ppm: 0,
            policy_response_efficiency_ppm: 0,
            liquidity_recovery_duration_sequences: 0,
            systemic_containment_score_ppm: 0,
            benchmark_integrity_score_ppm: 0,
            lineage_consistency_score_ppm: 0,
            benchmark_trust_score_ppm: 0,
            invariant_compliance_score_ppm: 0,
            system_integrity_score_ppm: 0,
            behavioral_stability_score_ppm: 0,
            agent_fragmentation_score_ppm: 0,
            liquidity_retreat_intensity_ppm: 0,
            cascade_acceleration_score_ppm: 0,
            market_resilience_score_ppm: 0,
            reward_efficiency_score_ppm: 0,
            dataset_integrity_score_ppm: 0,
            policy_replay_divergence_ppm: 0,
            adaptive_recovery_score_ppm: 0,
            distributed_replay_integrity_score_ppm: 0,
            shard_certification_score_ppm: 0,
            distributed_parity_score_ppm: 0,
            replay_cluster_efficiency_ppm: 0,
            lineage_merge_integrity_ppm: 0,
            formal_determinism_score_ppm: 0,
            replay_equivalence_score_ppm: 0,
            invariant_stability_score_ppm: 0,
            distributed_parity_integrity_ppm: 0,
            certification_chain_integrity_ppm: 0,
            federation_consensus_integrity_ppm: 0,
            cross_cluster_equivalence_score_ppm: 0,
            replay_treaty_stability_ppm: 0,
            sovereign_partition_integrity_ppm: 0,
            federation_lineage_continuity_ppm: 0,
            queue_integrity_score_ppm: 0,
            execution_parity_score_ppm: 0,
            latency_stability_score_ppm: 0,
            slippage_consistency_score_ppm: 0,
            orderbook_reconstruction_score_ppm: 0,
            strategy_parity_score_ppm: 0,
            portfolio_integrity_score_ppm: 0,
            execution_efficiency_score_ppm: 0,
            inventory_stability_score_ppm: 0,
            pnl_replay_consistency_ppm: 0,
            market_reconstruction_score_ppm: 0,
            historical_replay_integrity_ppm: 0,
            timestamp_alignment_score_ppm: 0,
            microstructure_fidelity_score_ppm: 0,
            session_equivalence_score_ppm: 0,
            exposure_integrity_score_ppm: 0,
            margin_stability_score_ppm: 0,
            liquidation_parity_score_ppm: 0,
            stress_propagation_integrity_ppm: 0,
            risk_constraint_stability_ppm: 0,
            replay_throughput_score_ppm: 0,
            profiling_integrity_score_ppm: 0,
            memory_stability_score_ppm: 0,
            execution_efficiency_score_ppm_2e: 0,
            certification_overhead_score_ppm: 0,
        }
    }
}

} // verus!
