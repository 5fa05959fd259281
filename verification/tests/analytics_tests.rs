use astraquant::inspect::analytics::{BenchmarkReport, OrderFlowAnalytics};
use astraquant::inspect::execution_quality::ExecutionQualityMetrics;

#[test]
fn order_flow_ratios() {
    let mut a = OrderFlowAnalytics::new();
    assert_eq!(a.fill_ratio_ppm(), 0);
    assert_eq!(a.maker_ratio_ppm(), 0);
    a.total_orders = 3;
    a.total_fills = 2;
    a.total_rejections = 1;
    a.maker_volume = 1;
    a.taker_volume = 3;
    assert_eq!(a.fill_ratio_ppm(), 666_666);
    assert_eq!(a.rejection_ratio_ppm(), 333_333);
    assert_eq!(a.maker_ratio_ppm(), 250_000);
    assert_eq!(a.taker_ratio_ppm(), 750_000);
    assert!(a.symbol_distribution.is_empty());
}

#[test]
fn order_flow_ratios_saturate() {
    let mut a = OrderFlowAnalytics::new();
    a.total_orders = u64::MAX;
    a.total_fills = u64::MAX;
    assert_eq!(a.fill_ratio_ppm(), 1);
    a.maker_volume = u64::MAX;
    a.taker_volume = 1;
    assert_eq!(a.maker_ratio_ppm(), 1);
    assert_eq!(a.taker_ratio_ppm(), 0);
    assert!(a.maker_ratio_ppm() + a.taker_ratio_ppm() <= 1_000_000);
}

#[test]
fn maker_and_taker_shares_never_exceed_whole() {
    for (m, t) in [(1u64, 2u64), (7, 3), (0, 5), (1_000_000, 1), (123_456_789, 987_654_321)] {
        let mut a = OrderFlowAnalytics::new();
        a.maker_volume = m;
        a.taker_volume = t;
        let sum = a.maker_ratio_ppm() + a.taker_ratio_ppm();
        assert!(sum <= 1_000_000);
        assert!(sum >= 999_999);
    }
}

#[test]
fn execution_quality_record_fill() {
    let mut q = ExecutionQualityMetrics::new();
    q.record_fill(true, 5, 100, 0, 0);
    assert_eq!(q.total_passive_quantity, 5);
    assert_eq!(q.spread_samples, 0);
    q.record_fill(false, 3, 101, 200, 204);
    assert_eq!(q.total_aggressive_quantity, 3);
    assert_eq!(q.total_effective_spread_x2, 2);
    assert_eq!(q.total_realized_spread_x2, 2);
    assert_eq!(q.spread_samples, 1);
    q.record_fill(false, 1, 99, 200, 190);
    assert_eq!(q.total_effective_spread_x2, 4);
    assert_eq!(q.total_realized_spread_x2, 10);
    assert_eq!(q.average_effective_spread_x2(), 2);
    assert_eq!(q.average_realized_spread_x2(), 5);
}

#[test]
fn execution_quality_ratios() {
    let mut q = ExecutionQualityMetrics::new();
    assert_eq!(q.passive_fill_ratio_ppm(), 0);
    assert_eq!(q.cancel_to_fill_ratio_ppm(), 0);
    assert_eq!(q.queue_survival_ratio_ppm(), 0);
    assert_eq!(q.average_queue_advancement(), 0);
    q.record_fill(true, 1, 10, 0, 0);
    q.record_fill(false, 3, 10, 20, 20);
    q.record_cancel(3);
    q.record_queue_advancement(9, 2);
    q.record_queue_advancement(1, 2);
    assert_eq!(q.passive_fill_ratio_ppm(), 250_000);
    assert_eq!(q.cancel_to_fill_ratio_ppm(), 750_000);
    assert_eq!(q.queue_survival_ratio_ppm(), 250_000);
    assert_eq!(q.total_queue_advancement, 10);
    assert_eq!(q.total_queue_survived_quantity, 4);
    assert_eq!(q.average_queue_advancement(), 2);
    assert!(q.passive_fill_ratio_ppm() <= 1_000_000);
    assert!(q.queue_survival_ratio_ppm() <= 1_000_000);
}

#[test]
fn realized_spread_average_truncates_toward_zero() {
    let mut q = ExecutionQualityMetrics::new();
    q.total_realized_spread_x2 = -7;
    q.spread_samples = 2;
    assert_eq!(q.average_realized_spread_x2(), -3);
    q.total_realized_spread_x2 = 7;
    assert_eq!(q.average_realized_spread_x2(), 3);
}

#[test]
fn benchmark_report_default_is_zero() {
    let r = BenchmarkReport::default();
    assert_eq!(r.events_per_sec, 0);
    assert_eq!(r.order_flow.total_orders, 0);
    assert!(r.venue_analytics.is_empty());
}
