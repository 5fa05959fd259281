use astraquant::events::{AstraEvent, EventType, PayloadEncoding, PayloadMetadata};
use astraquant::exchange::observability::ExchangeDiagnostics;
use astraquant::exchange::runtime::{
    assemble_global_hash, convert_strategy_actions_to_events, deliver_scheduled, fill_is_buy,
    liquidation_order, matching_engines_hash, order_notional, route_event, utilized_margin,
    EventRoute, PositionExposure, StrategyAction, VenueDelivery, VenueDigestInput,
};
use astraquant::hashing::hash_bytes;
use astraquant::inspect::timeline::LiquiditySide;
use astraquant::orderbook::{
    deserialize_cancelled_order, deserialize_placed_order, serialize_cancelled_order,
    serialize_placed_order, LimitOrderCancelledPayload, LimitOrderPlacedPayload, OrderSide,
    PayloadError,
};

fn event(event_type: EventType, payload: Vec<u8>) -> AstraEvent {
    AstraEvent::new(1_000, 7, event_type, payload, PayloadMetadata::new(PayloadEncoding::Bincode, 1))
}

fn placed_bytes(quantity: u64, price: i64) -> Vec<u8> {
    serialize_placed_order(&LimitOrderPlacedPayload {
        order_id: 21,
        trader_id: 4,
        symbol: "BTC/USD".to_string(),
        side: OrderSide::Bid,
        price,
        quantity,
    })
}

#[test]
fn notional_saturates() {
    assert_eq!(order_notional(100, 10), 1000);
    assert_eq!(order_notional(-100, 10), -1000);
    assert_eq!(order_notional(i64::MAX, 2), i64::MAX);
    assert_eq!(order_notional(i64::MIN, 2), i64::MIN);
    // a quantity above i64::MAX is taken in two's complement
    assert_eq!(order_notional(3, u64::MAX), -3);
}

#[test]
fn route_event_by_type() {
    match route_event(&event(EventType::LimitOrderPlaced, placed_bytes(10, 50))).unwrap() {
        EventRoute::PlaceOrder { order, notional } => {
            assert_eq!(order.order_id, 21);
            assert_eq!(notional, 500);
        }
        other => panic!("unexpected {:?}", other),
    }
    assert_eq!(
        route_event(&event(EventType::LimitOrderPlaced, vec![1, 2, 3])).unwrap_err(),
        PayloadError::UnexpectedEnd
    );
    assert!(matches!(route_event(&event(EventType::LimitOrderCancelled, vec![])), Ok(EventRoute::RouteCancel)));
    assert!(matches!(route_event(&event(EventType::VenueStatusChanged, vec![])), Ok(EventRoute::VenueStatusChange)));
    assert!(matches!(route_event(&event(EventType::MarketStressInjected, vec![])), Ok(EventRoute::MarketStress)));
    assert!(matches!(route_event(&event(EventType::MarketTick, vec![])), Ok(EventRoute::PolicyEvaluation)));
    assert!(matches!(route_event(&event(EventType::OperatorAction, vec![])), Ok(EventRoute::OperatorCommand)));
    assert!(matches!(route_event(&event(EventType::AuditCheckpoint, vec![])), Ok(EventRoute::Consume)));
    assert!(matches!(route_event(&event(EventType::AgentIntent, vec![])), Ok(EventRoute::Consume)));
}

#[test]
fn offline_venue_refuses_orders() {
    match deliver_scheduled(true, &event(EventType::LimitOrderPlaced, placed_bytes(1, 1))).unwrap() {
        VenueDelivery::RejectOffline { order_id, reason } => {
            assert_eq!(order_id, 21);
            assert_eq!(reason, "Venue Offline");
        }
        other => panic!("unexpected {:?}", other),
    }
    assert!(matches!(deliver_scheduled(true, &event(EventType::LimitOrderPlaced, vec![9])), Ok(VenueDelivery::Skip)));
    assert!(matches!(deliver_scheduled(true, &event(EventType::LimitOrderCancelled, vec![])), Ok(VenueDelivery::Skip)));
}

#[test]
fn online_venue_submits_and_cancels() {
    match deliver_scheduled(false, &event(EventType::LimitOrderPlaced, placed_bytes(3, 9))).unwrap() {
        VenueDelivery::Submit { order } => assert_eq!(order.quantity, 3),
        other => panic!("unexpected {:?}", other),
    }
    let cancel = serialize_cancelled_order(&LimitOrderCancelledPayload { symbol: "BTC/USD".to_string(), order_id: 21 });
    match deliver_scheduled(false, &event(EventType::LimitOrderCancelled, cancel)).unwrap() {
        VenueDelivery::Cancel { cancel } => assert_eq!(cancel.order_id, 21),
        other => panic!("unexpected {:?}", other),
    }
    assert_eq!(
        deliver_scheduled(false, &event(EventType::LimitOrderCancelled, vec![0; 3])).unwrap_err(),
        PayloadError::UnexpectedEnd
    );
    assert!(matches!(deliver_scheduled(false, &event(EventType::MarketTick, vec![])), Ok(VenueDelivery::Skip)));
}

#[test]
fn fill_direction() {
    assert!(fill_is_buy(LiquiditySide::Taker, OrderSide::Bid));
    assert!(fill_is_buy(LiquiditySide::Maker, OrderSide::Ask));
    assert!(!fill_is_buy(LiquiditySide::Taker, OrderSide::Ask));
    assert!(!fill_is_buy(LiquiditySide::Maker, OrderSide::Bid));
}

#[test]
fn utilized_margin_sums_positions() {
    let positions = vec![
        PositionExposure { net_quantity: -3, last_mark_price: 100 },
        PositionExposure { net_quantity: 2, last_mark_price: 50 },
        PositionExposure { net_quantity: 0, last_mark_price: 7 },
    ];
    assert_eq!(utilized_margin(&positions), 400);
    assert_eq!(utilized_margin(&vec![]), 0);
}

#[test]
fn liquidation_orders_are_marketable() {
    let (trader, action) = liquidation_order(9, "ETH/USD".to_string(), true, 5);
    assert_eq!(trader, 9);
    match action {
        StrategyAction::SubmitOrder { symbol, side, price, quantity } => {
            assert_eq!(symbol, "ETH/USD");
            assert_eq!(side, OrderSide::Bid);
            assert_eq!(price, i64::MAX);
            assert_eq!(quantity, 5);
        }
        other => panic!("unexpected {:?}", other),
    }
    match liquidation_order(9, "ETH/USD".to_string(), false, 5).1 {
        StrategyAction::SubmitOrder { side, price, .. } => {
            assert_eq!(side, OrderSide::Ask);
            assert_eq!(price, 0);
        }
        other => panic!("unexpected {:?}", other),
    }
}

#[test]
fn strategy_actions_become_events() {
    let actions = vec![
        (4, StrategyAction::SubmitOrder { symbol: "BTC/USD".to_string(), side: OrderSide::Ask, price: 10, quantity: 2 }),
        (5, StrategyAction::Other),
        (6, StrategyAction::CancelOrder { symbol: "BTC/USD".to_string(), order_id: 77 }),
    ];
    let events = convert_strategy_actions_to_events(actions, 99, 123);
    assert_eq!(events.len(), 2);
    assert_eq!(events[0].event_type, EventType::LimitOrderPlaced);
    assert_eq!(events[0].sequence_id, 0);
    assert_eq!(events[0].timestamp_ns, 123);
    assert_eq!(events[0].payload_metadata, PayloadMetadata::new(PayloadEncoding::Bincode, 1));
    let p = deserialize_placed_order(&events[0].payload).unwrap();
    assert_eq!((p.order_id, p.trader_id, p.side, p.price, p.quantity), (0, 4, OrderSide::Ask, 10, 2));
    assert_eq!(events[1].event_type, EventType::LimitOrderCancelled);
    let c = deserialize_cancelled_order(&events[1].payload).unwrap();
    assert_eq!(c.order_id, 77);
    assert_eq!(c.symbol, "BTC/USD");
}

#[test]
fn diagnostics_hash_covers_counters_and_book_diagnostics() {
    let d = ExchangeDiagnostics {
        total_events_processed: 3,
        total_accepted_orders: 2,
        total_rejected_orders: 1,
        lob_diagnostics: vec![9, 9],
    };
    let mut bytes = Vec::new();
    bytes.extend_from_slice(&3u64.to_le_bytes());
    bytes.extend_from_slice(&2u64.to_le_bytes());
    bytes.extend_from_slice(&1u64.to_le_bytes());
    bytes.extend_from_slice(&[9, 9]);
    assert_eq!(d.state_hash(), hash_bytes(&bytes));
    let empty = ExchangeDiagnostics::default();
    assert_eq!(empty.state_hash(), hash_bytes(&[0u8; 24]));
}

#[test]
fn matching_hash_is_hierarchical() {
    let venues = vec![
        VenueDigestInput { venue_state_hash: [1; 32], book_bytes: vec![vec![1, 2], vec![3]] },
        VenueDigestInput { venue_state_hash: [2; 32], book_bytes: vec![] },
    ];
    let mut bytes = Vec::new();
    bytes.extend_from_slice(&[1; 32]);
    bytes.extend_from_slice(&hash_bytes(&[1, 2]));
    bytes.extend_from_slice(&hash_bytes(&[3]));
    bytes.extend_from_slice(&[2; 32]);
    assert_eq!(matching_engines_hash(&venues), hash_bytes(&bytes));
    assert_eq!(matching_engines_hash(&vec![]), hash_bytes(&[]));

    let d = ExchangeDiagnostics::default();
    let h = assemble_global_hash([7; 32], [8; 32], &venues, &d, [9; 32], &[1], &[2], &[3], 55);
    assert_eq!(h.risk_engine_hash, [7; 32]);
    assert_eq!(h.portfolio_engine_hash, [8; 32]);
    assert_eq!(h.matching_engines_hash, hash_bytes(&bytes));
    assert_eq!(h.diagnostics_hash, d.state_hash());
    assert_eq!(h.strategy_runtime_hash, [9; 32]);
    assert_eq!(h.settlement_engine_hash, hash_bytes(&[1]));
    assert_eq!(h.margin_engine_hash, hash_bytes(&[2]));
    assert_eq!(h.funding_ledger_hash, hash_bytes(&[3]));
    assert_eq!(h.sequence_clock, 55);
}

#[test]
fn diagnostics_counters_step_one_at_a_time() {
    let mut d = ExchangeDiagnostics::default();
    d.count_event();
    d.count_event();
    d.count_accepted();
    d.count_rejected();
    assert_eq!(d.total_events_processed, 2);
    assert_eq!(d.total_accepted_orders, 1);
    assert_eq!(d.total_rejected_orders, 1);
    assert!(d.lob_diagnostics.is_empty());
}
