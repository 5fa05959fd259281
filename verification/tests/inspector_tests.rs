use astraquant::inspect::analytics::{BenchmarkReport, OrderFlowAnalytics, PositionPnl};
use astraquant::inspect::inspector::{BookEvent, OrderOutcome, ReplayInspector};
use astraquant::inspect::strategy_analytics::AgentContext;
use astraquant::inspect::timeline::{LiquiditySide, TimelineEvent};
use astraquant::inspect::visualization::export_csv;
use astraquant::orderbook::{LimitOrderPlacedPayload, OrderSide};
use std::collections::BTreeMap;

fn bid(order_id: u64, trader_id: u64, quantity: u64, price: i64) -> LimitOrderPlacedPayload {
    LimitOrderPlacedPayload {
        order_id,
        trader_id,
        symbol: "BTC/USD".to_string(),
        side: OrderSide::Bid,
        price,
        quantity,
    }
}

#[test]
fn new_inspector_is_empty() {
    let i = ReplayInspector::new();
    assert_eq!(i.analytics.total_orders, 0);
    assert!(i.timeline.events.is_empty());
    assert_eq!(i.timeline.next_trace_id, 1);
    assert_eq!(i.execution_quality.spread_samples, 0);
    assert!(i.strategy_analytics.metrics_by_trader.is_empty());
}

#[test]
fn risk_rejected_order_is_accepted_then_rejected() {
    let mut i = ReplayInspector::new();
    i.record_placed_order(5, &bid(1, 9, 10, 100), &OrderOutcome::RiskRejected);
    assert_eq!(i.analytics.total_orders, 1);
    assert_eq!(i.analytics.total_rejections, 1);
    assert_eq!(i.analytics.symbol_distribution.get("BTC/USD"), Some(&1));
    assert_eq!(i.timeline.next_trace_id, 3);
    assert_eq!(
        i.timeline.events,
        vec![
            TimelineEvent::Accepted {
                execution_trace_id: 1,
                sequence: 5,
                trader_id: 9,
                symbol: "BTC/USD".to_string(),
                side: "BUY".to_string(),
                quantity: 10,
                price: 100,
            },
            TimelineEvent::Reject {
                execution_trace_id: 2,
                sequence: 5,
                trader_id: 9,
                reason: "RiskLimitExceeded".to_string(),
            },
        ]
    );
}

#[test]
fn booked_order_records_fills_cancels_and_update() {
    let mut i = ReplayInspector::new();
    let outcome = OrderOutcome::Booked {
        events: vec![
            BookEvent::TradeExecuted {
                resting_order_id: 11,
                aggressive_order_id: 12,
                symbol: "BTC/USD".to_string(),
                matched_quantity: 4,
                match_price: 100,
                liquidity_side: LiquiditySide::Maker,
                initial_ahead_quantity: 6,
            },
            BookEvent::TradeExecuted {
                resting_order_id: 11,
                aggressive_order_id: 12,
                symbol: "BTC/USD".to_string(),
                matched_quantity: 4,
                match_price: 100,
                liquidity_side: LiquiditySide::Taker,
                initial_ahead_quantity: 0,
            },
            BookEvent::Other,
            BookEvent::Cancelled { symbol: "BTC/USD".to_string() },
        ],
        best_bid: Some(99),
        best_ask: None,
        resting_orders: 3,
    };
    let mut sell = bid(12, 2, 10, 100);
    sell.side = OrderSide::Ask;
    i.record_placed_order(8, &sell, &outcome);

    assert_eq!(i.analytics.total_orders, 1);
    assert_eq!(i.analytics.total_fills, 2);
    assert_eq!(i.analytics.maker_volume, 4);
    assert_eq!(i.analytics.taker_volume, 4);
    assert_eq!(i.analytics.cancel_count, 1);
    assert_eq!(i.analytics.total_rejections, 0);

    // accepted, taker fill, cancel, update: trace ids 1..=4
    assert_eq!(i.timeline.events.len(), 4);
    assert_eq!(i.timeline.next_trace_id, 5);
    match &i.timeline.events[0] {
        TimelineEvent::Accepted { side, .. } => assert_eq!(side, "SELL"),
        other => panic!("unexpected {:?}", other),
    }
    assert_eq!(
        i.timeline.events[1],
        TimelineEvent::Fill {
            execution_trace_id: 2,
            sequence: 8,
            maker_trader_id: 11,
            taker_trader_id: 12,
            symbol: "BTC/USD".to_string(),
            quantity: 4,
            price: 100,
            liquidity_side: LiquiditySide::Taker,
        }
    );
    assert_eq!(
        i.timeline.events[2],
        TimelineEvent::Cancel {
            execution_trace_id: 3,
            sequence: 8,
            trader_id: 2,
            symbol: "BTC/USD".to_string(),
        }
    );
    assert_eq!(
        i.timeline.events[3],
        TimelineEvent::Update {
            execution_trace_id: 4,
            sequence: 8,
            symbol: "BTC/USD".to_string(),
            queue_depth: 3,
        }
    );

    let q = i.execution_quality;
    assert_eq!(q.total_passive_quantity, 4);
    assert_eq!(q.total_aggressive_quantity, 4);
    assert_eq!(q.total_queue_survived_quantity, 4);
    assert_eq!(q.total_queue_advancement, 6);
    assert_eq!(q.total_cancelled_quantity, 10);
    // midpoint: best bid 99 + missing ask replaced by the match price 100 = 199;
    // doubled spread |200 - 199| = 1
    assert_eq!(q.total_effective_spread_x2, 1);
    assert_eq!(q.total_realized_spread_x2, 1);
    assert_eq!(q.spread_samples, 1);
}

#[test]
fn symbol_tally_accumulates_per_symbol() {
    let mut i = ReplayInspector::new();
    i.record_placed_order(1, &bid(1, 1, 1, 1), &OrderOutcome::RiskRejected);
    i.record_placed_order(2, &bid(2, 1, 1, 1), &OrderOutcome::RiskRejected);
    let mut eth = bid(3, 1, 1, 1);
    eth.symbol = "ETH/USD".to_string();
    i.record_placed_order(3, &eth, &OrderOutcome::RiskRejected);
    assert_eq!(i.analytics.symbol_distribution.get("BTC/USD"), Some(&2));
    assert_eq!(i.analytics.symbol_distribution.get("ETH/USD"), Some(&1));
    assert_eq!(i.analytics.symbol_distribution.len(), 2);
    // trace ids keep increasing across orders
    let ids: Vec<u64> = i
        .timeline
        .events
        .iter()
        .map(|e| match e {
            TimelineEvent::Accepted { execution_trace_id, .. }
            | TimelineEvent::Reject { execution_trace_id, .. } => *execution_trace_id,
            _ => 0,
        })
        .collect();
    assert_eq!(ids, vec![1, 2, 3, 4, 5, 6]);
}

#[test]
fn recorded_timeline_exports_as_csv() {
    let mut i = ReplayInspector::new();
    i.record_placed_order(5, &bid(1, 9, 10, 100), &OrderOutcome::RiskRejected);
    let mut out = String::new();
    export_csv(&mut out, &i.timeline);
    assert_eq!(
        out,
        "TRACE_ID,SEQUENCE,EVENT_TYPE,TRADER_ID,SYMBOL,SIDE,QUANTITY,PRICE,REASON\n\
1,5,ACCEPT,9,BTC/USD,BUY,10,100,\n\
2,5,REJECT,9,,,,,RiskLimitExceeded\n"
    );
}

#[test]
fn capture_contexts_samples_every_trader() {
    let mut i = ReplayInspector::new();
    let mut contexts = BTreeMap::new();
    contexts.insert(2u64, AgentContext { inventory: 5, realized_pnl: 1, unrealized_pnl: -1 });
    contexts.insert(1u64, AgentContext { inventory: -3, realized_pnl: 0, unrealized_pnl: 2 });
    i.capture_contexts(10, &contexts);
    contexts.insert(1u64, AgentContext { inventory: 0, realized_pnl: 4, unrealized_pnl: 0 });
    i.capture_contexts(20, &contexts);
    let m = &i.strategy_analytics.metrics_by_trader;
    assert_eq!(m.len(), 2);
    let t1 = &m[&1];
    assert_eq!(t1.inventory_series.get(&10), Some(&-3));
    assert_eq!(t1.inventory_series.get(&20), Some(&0));
    assert_eq!(t1.realized_pnl_series.get(&20), Some(&4));
    let t2 = &m[&2];
    assert_eq!(t2.inventory_series.len(), 2);
    assert_eq!(t2.unrealized_pnl_series.get(&10), Some(&-1));
}

#[test]
fn benchmark_report_from_replay() {
    let mut flow = OrderFlowAnalytics::new();
    flow.total_fills = 30;
    flow.symbol_distribution.insert("BTC/USD".to_string(), 3);
    let positions = vec![
        PositionPnl { realized_pnl: 10, unrealized_pnl: -4 },
        PositionPnl { realized_pnl: -3, unrealized_pnl: 6 },
    ];
    let r = BenchmarkReport::from_replay(500, flow, 250_000, 4096, &positions, &vec![3, 1, 3]);
    assert_eq!(r.events_per_sec, 2000);
    assert_eq!(r.trades_per_sec, 120);
    assert_eq!(r.symbols_processed, 1);
    assert_eq!(r.total_journal_bytes, 4096);
    assert_eq!(r.replay_duration_us, 250_000);
    assert_eq!(r.realized_pnl, 7);
    assert_eq!(r.unrealized_pnl, 2);
    assert_eq!(r.order_flow.total_fills, 30);
    assert_eq!(r.venue_analytics.keys().copied().collect::<Vec<u8>>(), vec![1, 3]);
    assert_eq!(r.venue_analytics[&1].total_fills, 0);
    assert_eq!(r.clearing_analytics.liquidation_count, 0);
    assert_eq!(r.certification_overhead_score_ppm, 0);

    let idle = BenchmarkReport::from_replay(500, OrderFlowAnalytics::new(), 0, 0, &vec![], &vec![]);
    assert_eq!(idle.events_per_sec, 0);
    assert_eq!(idle.trades_per_sec, 0);
    assert!(idle.venue_analytics.is_empty());
}

#[test]
fn identical_inputs_give_identical_records() {
    let run = || {
        let mut i = ReplayInspector::new();
        let outcome = OrderOutcome::Booked {
            events: vec![BookEvent::TradeExecuted {
                resting_order_id: 1,
                aggressive_order_id: 2,
                symbol: "BTC/USD".to_string(),
                matched_quantity: 3,
                match_price: 50,
                liquidity_side: LiquiditySide::Taker,
                initial_ahead_quantity: 0,
            }],
            best_bid: Some(49),
            best_ask: Some(51),
            resting_orders: 0,
        };
        assert!(i.fits_order(1, &bid(2, 1, 3, 50), &outcome));
        i.record_placed_order(1, &bid(2, 1, 3, 50), &outcome);
        i.record_placed_order(2, &bid(3, 4, 1, 10), &OrderOutcome::RiskRejected);
        let mut csv = String::new();
        export_csv(&mut csv, &i.timeline);
        (i.timeline.events.clone(), i.execution_quality, csv)
    };
    let (a_events, a_quality, a_csv) = run();
    let (b_events, b_quality, b_csv) = run();
    assert_eq!(a_events, b_events);
    assert_eq!(a_quality, b_quality);
    assert_eq!(a_csv, b_csv);
    // midpoint 49 + 51 = 100 against a doubled price of 100: no spread
    assert_eq!(a_quality.total_effective_spread_x2, 0);
}

#[test]
fn fits_order_detects_counter_overflow() {
    let mut i = ReplayInspector::new();
    i.timeline.next_trace_id = u64::MAX - 1;
    // accepting takes one trace id, rejecting a second: the counter would pass u64::MAX
    assert!(!i.fits_order(1, &bid(1, 1, 1, 1), &OrderOutcome::RiskRejected));
    i.timeline.next_trace_id = u64::MAX - 2;
    assert!(i.fits_order(1, &bid(1, 1, 1, 1), &OrderOutcome::RiskRejected));
    let mut j = ReplayInspector::new();
    j.analytics.symbol_distribution.insert("BTC/USD".to_string(), u64::MAX);
    assert!(!j.fits_order(1, &bid(1, 1, 1, 1), &OrderOutcome::RiskRejected));
}
