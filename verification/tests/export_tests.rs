use astraquant::inspect::strategy_analytics::{AgentContext, StrategyAnalyticsCollector};
use astraquant::inspect::timeline::{LiquiditySide, ReplayTimeline};
use astraquant::inspect::visualization::{
    export_csv, export_liquidation_cascade_timeline, export_mermaid_queue_evolution,
    export_mermaid_routing_trace, export_mermaid_sequence, export_mermaid_strategy_trace,
    export_recovery_topology_graph, export_venue_failure_topology_map,
};

fn sample_timeline() -> ReplayTimeline {
    let mut t = ReplayTimeline::new();
    let id = t.next_trace_id();
    t.record_accepted(id, 3, 7, "BTC/USD".to_string(), "BUY".to_string(), 10, 100);
    let id = t.next_trace_id();
    t.record_fill(id, 3, 11, 12, "BTC/USD".to_string(), 4, -100, LiquiditySide::Maker);
    let id = t.next_trace_id();
    t.record_fill(id, 3, 11, 12, "BTC/USD".to_string(), 4, -100, LiquiditySide::Taker);
    let id = t.next_trace_id();
    t.record_update(id, 3, "BTC/USD".to_string(), 5);
    t.record_reject(123456, 4, 3, "Venue Offline: V2".to_string());
    let id = t.next_trace_id();
    t.record_cancel(id, 4, 7, "BTC/USD".to_string());
    t
}

#[test]
fn trace_ids_count_up_from_one() {
    let mut t = ReplayTimeline::new();
    assert_eq!(t.next_trace_id(), 1);
    assert_eq!(t.next_trace_id(), 2);
    assert_eq!(t.next_trace_id, 3);
    assert!(t.events.is_empty());
}

#[test]
fn ascii_timeline_pads_trace_ids_and_skips_maker_fills() {
    let mut out = String::new();
    sample_timeline().export_ascii_timeline(&mut out);
    let expected = "TRACE 1     | SEQ 3 | ACCEPT | trader=7 | BTC/USD | BUY 10 @ 100\n\
TRACE 3     | SEQ 3 | FILL   | maker=11 taker=12 qty=4 px=-100\n\
TRACE 4     | SEQ 3 | UPDATE | queue_depth=5\n\
TRACE 123456 | SEQ 4 | REJECT | Venue Offline: V2\n\
TRACE 5     | SEQ 4 | CANCEL | trader=7 | BTC/USD\n";
    assert_eq!(out, expected);
}

#[test]
fn csv_rows_of_every_entry_kind() {
    let mut out = String::new();
    export_csv(&mut out, &sample_timeline());
    let expected = "TRACE_ID,SEQUENCE,EVENT_TYPE,TRADER_ID,SYMBOL,SIDE,QUANTITY,PRICE,REASON\n\
1,3,ACCEPT,7,BTC/USD,BUY,10,100,\n\
3,3,FILL,12,BTC/USD,TAKER,4,-100,MAKER=11\n\
4,3,UPDATE,,BTC/USD,,5,,\n\
123456,4,REJECT,3,,,,,Venue Offline: V2\n\
5,4,CANCEL,7,BTC/USD,,,,\n";
    assert_eq!(out, expected);
}

#[test]
fn csv_is_deterministic() {
    let mut a = String::new();
    let mut b = String::new();
    export_csv(&mut a, &sample_timeline());
    export_csv(&mut b, &sample_timeline());
    assert_eq!(a, b);
}

#[test]
fn sequence_diagram_lists_traders_in_order() {
    let mut out = String::new();
    export_mermaid_sequence(&mut out, &sample_timeline());
    let expected = [
        "sequenceDiagram\n    participant Trader3\n    participant Trader7\n",
        "    participant Risk\n    participant LOB\n    participant Portfolio\n",
        "    Trader7->>Risk: Submit Order\n    Risk->>LOB: Accepted\n",
        "    LOB->>Portfolio: TradeExecuted\n    LOB->>Portfolio: TradeExecuted\n",
        "    Trader3->>Risk: Submit Order\n    Risk-->>Trader3: Rejected (Venue Offline: V2)\n",
    ]
    .concat();
    assert_eq!(out, expected);
}

#[test]
fn routing_trace_reroutes_offline_venues_only() {
    let mut t = sample_timeline();
    t.record_reject(9, 5, 1, "RiskLimitExceeded".to_string());
    let mut out = String::new();
    export_mermaid_routing_trace(&mut out, &t);
    let expected = [
        "sequenceDiagram\n    participant SOR\n    participant Venue1\n    participant Venue2\n",
        "    participant Venue3\n    Venue->>SOR: VenueOffline\n    SOR->>Venue: Reroute OrderFlow\n",
    ]
    .concat();
    assert_eq!(out, expected);
}

#[test]
fn queue_evolution_shows_accepts_fills_and_cancels() {
    let mut out = String::new();
    export_mermaid_queue_evolution(&mut out, &sample_timeline());
    let expected = [
        "sequenceDiagram\n    participant Market\n    participant Queue\n",
        "    Market->>Queue: T1 BUY 10 @ 100\n",
        "    Queue->>Market: T2 Filled 4 @ -100 (Maker)\n",
        "    Queue->>Market: T3 Filled 4 @ -100 (Taker)\n",
        "    Queue->>Market: T5 Cancelled (BTC/USD)\n",
    ]
    .concat();
    assert_eq!(out, expected);
}

#[test]
fn strategy_trace_draws_nonzero_inventory_intervals() {
    let mut c = StrategyAnalyticsCollector::new();
    c.record_context(10, 2, &AgentContext { inventory: 5, realized_pnl: 0, unrealized_pnl: 0 });
    c.record_context(30, 2, &AgentContext { inventory: -2, realized_pnl: 0, unrealized_pnl: 0 });
    c.record_context(20, 2, &AgentContext { inventory: 0, realized_pnl: 0, unrealized_pnl: 0 });
    c.record_context(5, 1, &AgentContext { inventory: -1, realized_pnl: 0, unrealized_pnl: 0 });
    let mut out = String::new();
    export_mermaid_strategy_trace(&mut out, &c);
    let expected = [
        "gantt\n    title Strategy Inventory Trace\n    dateFormat  x\n    axisFormat %s\n",
        "    section Trader 1\n",
        "    section Trader 2\n",
        "    Inventory 5 : 10 , 20\n",
    ]
    .concat();
    assert_eq!(out, expected);
}

#[test]
fn fixed_diagrams() {
    let mut out = String::new();
    export_liquidation_cascade_timeline(&mut out);
    assert_eq!(out, "graph TD\n    A[Margin Breach] --> B[Forced Liquidation]\n");
    let mut out = String::new();
    export_venue_failure_topology_map(&mut out);
    assert_eq!(out, "graph TD\n    SOR --> V1[Venue 1 - FAILED]\n");
    let mut out = String::new();
    export_recovery_topology_graph(&mut out);
    assert_eq!(out, "Recovery Topology Placeholder\n");
}
