//! The decisions of an exchange runtime applying an event, apart from the
//! engines it consults: how an event is routed, what a venue does with an
//! order that reaches it, which way a fill goes, how much margin positions
//! use, what a forced liquidation submits, how strategy actions become new
//! events, and how the engines' state hashes combine into the global hash.

use vstd::prelude::*;
use crate::events::{AstraEvent, EventType, EventView, PayloadEncoding, PayloadMetadata};
use crate::exchange::state::ExchangeStateHash;
use crate::hashing::{blake3_digest, hash_bytes};
use crate::inspect::timeline::LiquiditySide;
use crate::orderbook::{
    cancelled_order_bytes, decode_cancelled_order, decode_placed_order, deserialize_cancelled_order,
    deserialize_placed_order, placed_order_bytes, serialize_cancelled_order, serialize_placed_order,
    CancelledOrderView, LimitOrderCancelledPayload, LimitOrderPlacedPayload, OrderSide,
    PayloadError, PlacedOrderView,
};
use crate::package::append_bytes;
use crate::exchange::observability::{diagnostics_bytes, ExchangeDiagnostics};

verus! {

/// `x` clamped to the range of `i64`.
pub open spec fn saturate_i64(x: int) -> i64 {
    if x > i64::MAX {
        i64::MAX
    } else if x < i64::MIN {
        i64::MIN
    } else {
        x as i64
    }
}

/// The notional the risk checks weigh an order by: its price times its
/// quantity taken as an `i64` (two's complement), saturating at the bounds of `i64`.
pub open spec fn notional_of(price: i64, quantity: u64) -> i64 {
    saturate_i64(price * (quantity as i64))
}

/// The notional of an order: `price * quantity`, saturating.
pub fn order_notional(price: i64, quantity: u64) -> (n: i64)
    ensures
        n == notional_of(price, quantity),
{
    let q = quantity as i64;
    let p = price as i128;
    let qq = q as i128;
    assert(-0x8000_0000_0000_0000 <= p <= 0x7fff_ffff_ffff_ffff);
    assert(-0x8000_0000_0000_0000 <= qq <= 0x7fff_ffff_ffff_ffff);
    assert(-0x4000_0000_0000_0000_0000_0000_0000_0000 <= p * qq <= 0x4000_0000_0000_0000_0000_0000_0000_0000)
        by (nonlinear_arith)
        requires
            -0x8000_0000_0000_0000 <= p <= 0x7fff_ffff_ffff_ffff,
            -0x8000_0000_0000_0000 <= qq <= 0x7fff_ffff_ffff_ffff,
    ;
    let prod = p * qq;
    if prod > 0x7fff_ffff_ffff_ffff {
        i64::MAX
    } else if prod < -0x8000_0000_0000_0000 {
        i64::MIN
    } else {
        prod as i64
    }
}

/// What an event asks of the runtime before the venues' clocks advance.
#[derive(Clone, Debug)]
pub enum EventRoute {
    /// A new order: weigh it against the risk limits at this notional,
    /// then route it to a venue or refuse it.
    PlaceOrder { order: LimitOrderPlacedPayload, notional: i64 },
    /// A cancellation: route it to its venue.
    RouteCancel,
    /// A venue failure or recovery, described in the payload: apply it to the venue's status.
    VenueStatusChange,
    /// Injected market stress, described in the payload: apply it to the venue's book.
    MarketStress,
    /// A market tick: let the policy engine evaluate the sequence.
    PolicyEvaluation,
    /// An operator command in the payload.
    OperatorCommand,
    /// Consumed for sequence progression only.
    Consume,
}

/// How an event of each type is routed; a new order whose payload does not
/// decode is refused with the decoding error.
pub open spec fn event_route_matches(event: EventView, r: Result<EventRoute, PayloadError>) -> bool {
    match event.event_type {
        EventType::LimitOrderPlaced => match decode_placed_order(event.payload) {
            Ok(v) => r matches Ok(EventRoute::PlaceOrder { order, notional }) && order@ == v
                && notional == notional_of(v.price, v.quantity),
            Err(e) => r == Err::<EventRoute, PayloadError>(e),
        },
        EventType::LimitOrderCancelled => r == Ok::<EventRoute, PayloadError>(
            EventRoute::RouteCancel,
        ),
        EventType::VenueStatusChanged => r == Ok::<EventRoute, PayloadError>(
            EventRoute::VenueStatusChange,
        ),
        EventType::MarketStressInjected => r == Ok::<EventRoute, PayloadError>(
            EventRoute::MarketStress,
        ),
        EventType::MarketTick => r == Ok::<EventRoute, PayloadError>(EventRoute::PolicyEvaluation),
        EventType::OperatorAction => r == Ok::<EventRoute, PayloadError>(
            EventRoute::OperatorCommand,
        ),
        _ => r == Ok::<EventRoute, PayloadError>(EventRoute::Consume),
    }
}

/// Routes an event by its type (see `event_route_matches`).
pub fn route_event(event: &AstraEvent) -> (r: Result<EventRoute, PayloadError>)
    ensures
        event_route_matches(event@, r),
{
    match event.event_type {
        EventType::LimitOrderPlaced => match deserialize_placed_order(event.payload.as_slice()) {
            Ok(order) => {
                let notional = order_notional(order.price, order.quantity);
                Ok(EventRoute::PlaceOrder { order, notional })
            },
            Err(e) => Err(e),
        },
        EventType::LimitOrderCancelled => Ok(EventRoute::RouteCancel),
        EventType::VenueStatusChanged => Ok(EventRoute::VenueStatusChange),
        EventType::MarketStressInjected => Ok(EventRoute::MarketStress),
        EventType::MarketTick => Ok(EventRoute::PolicyEvaluation),
        EventType::OperatorAction => Ok(EventRoute::OperatorCommand),
        _ => Ok(EventRoute::Consume),
    }
}

/// What a venue does with an order event that reached it.
#[derive(Clone, Debug)]
pub enum VenueDelivery {
    /// The venue is offline: the order is refused as undeliverable, with this reason.
    RejectOffline { order_id: u64, reason: String },
    /// Submit the order to the book of its symbol.
    Submit { order: LimitOrderPlacedPayload },
    /// Cancel the order in the book of its symbol.
    Cancel { cancel: LimitOrderCancelledPayload },
    /// Nothing to do.
    Skip,
}

/// The reason an offline venue gives for an order it cannot take.
pub open spec fn offline_reason() -> Seq<char> {
    "Venue Offline"@
}

/// What a venue does with an order event. An offline venue refuses new
/// orders whose payload decodes and skips everything else. An online venue
/// submits new orders and applies cancellations, and fails with the decoding
/// error of a payload that does not decode.
pub open spec fn delivery_matches(
    offline: bool,
    event: EventView,
    r: Result<VenueDelivery, PayloadError>,
) -> bool {
    if offline {
        match event.event_type {
            EventType::LimitOrderPlaced => match decode_placed_order(event.payload) {
                Ok(v) => r matches Ok(VenueDelivery::RejectOffline { order_id, reason }) && order_id
                    == v.order_id && reason@ == offline_reason(),
                Err(_) => r == Ok::<VenueDelivery, PayloadError>(VenueDelivery::Skip),
            },
            _ => r == Ok::<VenueDelivery, PayloadError>(VenueDelivery::Skip),
        }
    } else {
        match event.event_type {
            EventType::LimitOrderPlaced => match decode_placed_order(event.payload) {
                Ok(v) => r matches Ok(VenueDelivery::Submit { order }) && order@ == v,
                Err(e) => r == Err::<VenueDelivery, PayloadError>(e),
            },
            EventType::LimitOrderCancelled => match decode_cancelled_order(event.payload) {
                Ok(v) => r matches Ok(VenueDelivery::Cancel { cancel }) && cancel@ == v,
                Err(e) => r == Err::<VenueDelivery, PayloadError>(e),
            },
            _ => r == Ok::<VenueDelivery, PayloadError>(VenueDelivery::Skip),
        }
    }
}

/// Decides what a venue does with an order event that reached it (see `delivery_matches`).
pub fn deliver_scheduled(offline: bool, event: &AstraEvent) -> (r: Result<VenueDelivery, PayloadError>)
    ensures
        delivery_matches(offline, event@, r),
{
    if offline {
        if event.event_type == EventType::LimitOrderPlaced {
            match deserialize_placed_order(event.payload.as_slice()) {
                Ok(order) => Ok(
                    VenueDelivery::RejectOffline {
                        order_id: order.order_id,
                        reason: "Venue Offline".to_owned(),
                    },
                ),
                Err(_) => Ok(VenueDelivery::Skip),
            }
        } else {
            Ok(VenueDelivery::Skip)
        }
    } else {
        match event.event_type {
            EventType::LimitOrderPlaced => match deserialize_placed_order(event.payload.as_slice()) {
                Ok(order) => Ok(VenueDelivery::Submit { order }),
                Err(e) => Err(e),
            },
            EventType::LimitOrderCancelled => match deserialize_cancelled_order(
                event.payload.as_slice(),
            ) {
                Ok(cancel) => Ok(VenueDelivery::Cancel { cancel }),
                Err(e) => Err(e),
            },
            _ => Ok(VenueDelivery::Skip),
        }
    }
}

/// Whether the trader on one side of a fill bought: the taker of a bid, or
/// the maker resting against an ask.
pub open spec fn fill_buys(liquidity_side: LiquiditySide, order_side: OrderSide) -> bool {
    (liquidity_side == LiquiditySide::Taker && order_side == OrderSide::Bid) || (liquidity_side
        == LiquiditySide::Maker && order_side == OrderSide::Ask)
}

/// Whether the trader on `liquidity_side` of a fill of an incoming order on
/// `order_side` bought.
pub fn fill_is_buy(liquidity_side: LiquiditySide, order_side: OrderSide) -> (b: bool)
    ensures
        b == fill_buys(liquidity_side, order_side),
{
    (liquidity_side == LiquiditySide::Taker && order_side == OrderSide::Bid) || (liquidity_side
        == LiquiditySide::Maker && order_side == OrderSide::Ask)
}

/// A position as margin sees it: its net quantity and its last mark price.
#[derive(Clone, Copy, Debug, PartialEq, Eq, Structural)]
pub struct PositionExposure {
    pub net_quantity: i64,
    pub last_mark_price: i64,
}

/// Absolute value of a position's net quantity.
pub open spec fn abs_quantity(q: i64) -> nat {
    if q < 0 {
        (-q) as nat
    } else {
        q as nat
    }
}

/// The margin a position uses: its absolute net quantity times its mark
/// price taken as a `u64` (two's complement).
pub open spec fn position_margin(p: PositionExposure) -> int {
    abs_quantity(p.net_quantity) * (p.last_mark_price as u64)
}

/// The margin a list of positions uses, summed in order.
pub open spec fn margin_sum(ps: Seq<PositionExposure>) -> int
    decreases ps.len(),
{
    if ps.len() == 0 {
        0
    } else {
        margin_sum(ps.drop_last()) + position_margin(ps.last())
    }
}

/// Every partial sum of the margin, and every position's margin, fits in a
/// `u64`, and no net quantity is `i64::MIN` (whose absolute value does not exist).
pub open spec fn margin_fits(ps: Seq<PositionExposure>) -> bool {
    &&& forall|i: int| 0 <= i < ps.len() ==> #[trigger] ps[i].net_quantity != i64::MIN
    &&& forall|i: int| 0 <= i <= ps.len() ==> #[trigger] margin_sum(ps.take(i)) <= u64::MAX
}

/// The margin that the positions of a trader use, summed over the positions.
pub fn utilized_margin(positions: &Vec<PositionExposure>) -> (m: u64)
    requires
        margin_fits(positions@),
    ensures
        m == margin_sum(positions@),
{
    let ghost ps = positions@;
    let mut total: u64 = 0;
    let mut i: usize = 0;
    while i < positions.len()
        invariant
            ps == positions@,
            i <= ps.len(),
            margin_fits(ps),
            total == margin_sum(ps.take(i as int)),
        decreases ps.len() - i,
    {
        let p = positions[i];
        assert(ps.take(i + 1).drop_last() =~= ps.take(i as int));
        assert(margin_sum(ps.take(i + 1)) <= u64::MAX);
        assert(p.net_quantity != i64::MIN);
        let q: u64 = if p.net_quantity < 0 {
            (-p.net_quantity) as u64
        } else {
            p.net_quantity as u64
        };
        let mark = p.last_mark_price as u64;
        assert(margin_sum(ps.take(i as int)) >= 0) by {
            lemma_margin_sum_nonnegative(ps.take(i as int));
        }
        assert(q * mark <= u64::MAX);
        total = total + q * mark;
        i = i + 1;
    }
    assert(ps.take(ps.len() as int) =~= ps);
    total
}

proof fn lemma_margin_sum_nonnegative(ps: Seq<PositionExposure>)
    ensures
        margin_sum(ps) >= 0,
    decreases ps.len(),
{
    if ps.len() > 0 {
        lemma_margin_sum_nonnegative(ps.drop_last());
        let p = ps.last();
        assert(abs_quantity(p.net_quantity) * (p.last_mark_price as u64) >= 0) by (nonlinear_arith);
    }
}

/// What a strategy asks the exchange to do.
#[derive(Clone, Debug)]
pub enum StrategyAction {
    SubmitOrder { symbol: String, side: OrderSide, price: i64, quantity: u64 },
    CancelOrder { symbol: String, order_id: u64 },
    /// Any other action; it produces no event.
    Other,
}

/// The market order that force-liquidates a position: a bid at the highest
/// price when the liquidation buys, an ask at price 0 when it sells.
pub fn liquidation_order(trader_id: u64, symbol: String, is_buy: bool, quantity: u64) -> (r: (
    u64,
    StrategyAction,
))
    ensures
        r.0 == trader_id,
        r.1 matches StrategyAction::SubmitOrder { symbol: s, side, price, quantity: q } && s
            == symbol && side == (if is_buy {
            OrderSide::Bid
        } else {
            OrderSide::Ask
        }) && price == (if is_buy {
            i64::MAX
        } else {
            0
        }) && q == quantity,
{
    let side = if is_buy {
        OrderSide::Bid
    } else {
        OrderSide::Ask
    };
    let price: i64 = if is_buy {
        i64::MAX
    } else {
        0
    };
    (trader_id, StrategyAction::SubmitOrder { symbol, side, price, quantity })
}

/// The events a strategy's actions become, in order, each stamped with the
/// timestamp and sequence id 0 (the journal assigns the real one): an order
/// becomes a `LimitOrderPlaced` event with order id 0, a cancellation a
/// `LimitOrderCancelled` event, both with bincode-encoded payloads of schema
/// version 1. Other actions produce nothing.
pub open spec fn action_events(actions: Seq<(u64, StrategyAction)>, timestamp_ns: u64) -> Seq<EventView>
    decreases actions.len(),
{
    if actions.len() == 0 {
        Seq::empty()
    } else {
        action_events(actions.drop_last(), timestamp_ns) + action_event(actions.last(), timestamp_ns)
    }
}

/// The event (if any) one action becomes.
pub open spec fn action_event(a: (u64, StrategyAction), timestamp_ns: u64) -> Seq<EventView> {
    match a.1 {
        StrategyAction::SubmitOrder { symbol, side, price, quantity } => seq![
            EventView {
                sequence_id: 0,
                timestamp_ns,
                event_type: EventType::LimitOrderPlaced,
                payload: placed_order_bytes(
                    PlacedOrderView {
                        order_id: 0,
                        trader_id: a.0,
                        symbol: symbol@,
                        side,
                        price,
                        quantity,
                    },
                ),
                payload_metadata: PayloadMetadata { encoding: PayloadEncoding::Bincode, schema_version: 1 },
            },
        ],
        StrategyAction::CancelOrder { symbol, order_id } => seq![
            EventView {
                sequence_id: 0,
                timestamp_ns,
                event_type: EventType::LimitOrderCancelled,
                payload: cancelled_order_bytes(CancelledOrderView { symbol: symbol@, order_id }),
                payload_metadata: PayloadMetadata { encoding: PayloadEncoding::Bincode, schema_version: 1 },
            },
        ],
        StrategyAction::Other => Seq::empty(),
    }
}

/// Turns strategy actions into the events that carry them (see `action_events`).
pub fn convert_strategy_actions_to_events(
    actions: Vec<(u64, StrategyAction)>,
    parent_sequence: u64,
    timestamp_ns: u64,
) -> (events: Vec<AstraEvent>)
    ensures
        events@.map_values(|e: AstraEvent| e@) == action_events(actions@, timestamp_ns),
{
    let mut events: Vec<AstraEvent> = Vec::new();
    let mut i: usize = 0;
    while i < actions.len()
        invariant
            i <= actions@.len(),
            events@.map_values(|e: AstraEvent| e@) == action_events(
                actions@.take(i as int),
                timestamp_ns,
            ),
        decreases actions@.len() - i,
    {
        let ghost before = events@;
        let (trader_id, action) = &actions[i];
        match action {
            StrategyAction::SubmitOrder { symbol, side, price, quantity } => {
                let payload = LimitOrderPlacedPayload {
                    order_id: 0,
                    trader_id: *trader_id,
                    symbol: symbol.clone(),
                    side: *side,
                    price: *price,
                    quantity: *quantity,
                };
                let bytes = serialize_placed_order(&payload);
                events.push(
                    AstraEvent {
                        sequence_id: 0,
                        event_type: EventType::LimitOrderPlaced,
                        timestamp_ns,
                        payload: bytes,
                        payload_metadata: PayloadMetadata::new(PayloadEncoding::Bincode, 1),
                    },
                );
            },
            StrategyAction::CancelOrder { symbol, order_id } => {
                let payload = LimitOrderCancelledPayload { symbol: symbol.clone(), order_id: *order_id };
                let bytes = serialize_cancelled_order(&payload);
                events.push(
                    AstraEvent {
                        sequence_id: 0,
                        event_type: EventType::LimitOrderCancelled,
                        timestamp_ns,
                        payload: bytes,
                        payload_metadata: PayloadMetadata::new(PayloadEncoding::Bincode, 1),
                    },
                );
            },
            StrategyAction::Other => {},
        }
        proof {
            assert(actions@.take(i + 1).drop_last() =~= actions@.take(i as int));
            assert(actions@.take(i + 1).last() == actions@[i as int]);
            assert(events@.map_values(|e: AstraEvent| e@) =~= before.map_values(|e: AstraEvent| e@)
                + action_event(actions@[i as int], timestamp_ns));
        }
        i = i + 1;
    }
    assert(actions@.take(actions@.len() as int) =~= actions@);
    events
}


/// What the global hash reads of one venue: the hash of its state and the
/// canonical bytes of each of its books, in the venue's order.
#[derive(Clone, Debug)]
pub struct VenueDigestInput {
    pub venue_state_hash: [u8; 32],
    pub book_bytes: Vec<Vec<u8>>,
}

/// The digests of the given books, concatenated in order.
pub open spec fn book_digests(books: Seq<Vec<u8>>) -> Seq<u8>
    decreases books.len(),
{
    if books.len() == 0 {
        Seq::empty()
    } else {
        book_digests(books.drop_last()) + blake3_digest(books.last()@)
    }
}

/// The bytes the matching engines' hash covers: for each venue in order,
/// its state hash followed by the digests of its books.
pub open spec fn venues_digest_bytes(venues: Seq<VenueDigestInput>) -> Seq<u8>
    decreases venues.len(),
{
    if venues.len() == 0 {
        Seq::empty()
    } else {
        venues_digest_bytes(venues.drop_last()) + venues.last().venue_state_hash@ + book_digests(
            venues.last().book_bytes@,
        )
    }
}

/// The hash of all matching engines: the digest of every venue's state
/// hash and its books' digests, venue by venue.
pub fn matching_engines_hash(venues: &Vec<VenueDigestInput>) -> (h: [u8; 32])
    ensures
        h@ == blake3_digest(venues_digest_bytes(venues@)),
{
    let mut bytes: Vec<u8> = Vec::new();
    let mut i: usize = 0;
    while i < venues.len()
        invariant
            i <= venues@.len(),
            bytes@ == venues_digest_bytes(venues@.take(i as int)),
        decreases venues@.len() - i,
    {
        let venue = &venues[i];
        let ghost start = bytes@;
        append_bytes(&mut bytes, venue.venue_state_hash.as_slice());
        let ghost mid = bytes@;
        let mut j: usize = 0;
        while j < venue.book_bytes.len()
            invariant
                j <= venue.book_bytes@.len(),
                bytes@ == mid + book_digests(venue.book_bytes@.take(j as int)),
            decreases venue.book_bytes@.len() - j,
        {
            let digest = hash_bytes(venue.book_bytes[j].as_slice());
            append_bytes(&mut bytes, digest.as_slice());
            proof {
                assert(venue.book_bytes@.take(j + 1).drop_last() =~= venue.book_bytes@.take(j as int));
            }
            j = j + 1;
            assert(bytes@ =~= mid + book_digests(venue.book_bytes@.take(j as int)));
        }
        proof {
            assert(venue.book_bytes@.take(venue.book_bytes@.len() as int) =~= venue.book_bytes@);
            assert(venues@.take(i + 1).drop_last() =~= venues@.take(i as int));
        }
        i = i + 1;
        assert(bytes@ =~= venues_digest_bytes(venues@.take(i as int)));
    }
    assert(venues@.take(venues@.len() as int) =~= venues@);
    hash_bytes(bytes.as_slice())
}

/// The global state hash of an exchange from what each engine reports:
/// the risk, portfolio and strategy engines' own hashes, the matching
/// engines' hash over the venues, the diagnostics' hash, the digests of the
/// settlement, margin and funding engines' canonical bytes, and the clock.
pub fn assemble_global_hash(
    risk_engine_hash: [u8; 32],
    portfolio_engine_hash: [u8; 32],
    venues: &Vec<VenueDigestInput>,
    diagnostics: &ExchangeDiagnostics,
    strategy_runtime_hash: [u8; 32],
    settlement_bytes: &[u8],
    margin_bytes: &[u8],
    funding_bytes: &[u8],
    sequence_clock: u64,
) -> (h: ExchangeStateHash)
    ensures
        h.risk_engine_hash == risk_engine_hash,
        h.portfolio_engine_hash == portfolio_engine_hash,
        h.matching_engines_hash@ == blake3_digest(venues_digest_bytes(venues@)),
        h.diagnostics_hash@ == blake3_digest(diagnostics_bytes(*diagnostics)),
        h.strategy_runtime_hash == strategy_runtime_hash,
        h.settlement_engine_hash@ == blake3_digest(settlement_bytes@),
        h.margin_engine_hash@ == blake3_digest(margin_bytes@),
        h.funding_ledger_hash@ == blake3_digest(funding_bytes@),
        h.sequence_clock == sequence_clock,
{
    ExchangeStateHash {
        risk_engine_hash,
        portfolio_engine_hash,
        matching_engines_hash: matching_engines_hash(venues),
        diagnostics_hash: diagnostics.state_hash(),
        strategy_runtime_hash,
        settlement_engine_hash: hash_bytes(settlement_bytes),
        margin_engine_hash: hash_bytes(margin_bytes),
        funding_ledger_hash: hash_bytes(funding_bytes),
        sequence_clock,
    }
}

} // verus!
