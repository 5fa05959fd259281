//! Properties that span the library's functions.

use vstd::prelude::*;
use crate::events::AstraEvent;
use crate::hashing::DeterministicState;
use crate::inspect::timeline::{ascii_timeline, TimelineEvent};
use crate::inspect::visualization::{csv_row, csv_rows, queue_evolution_lines, sequence_messages};
use crate::sandbox::{after_event, gas_suffices, WasmSandbox};
use crate::serialization::{
    decode_event_bytes, event_bytes, lemma_decode_encoded_event, lemma_decoded_bytes_are_canonical,
    SerializationError,
};

use crate::inspect::inspector::{
    accept_step, event_step, events_fit, events_step, order_fits, order_recorded, reject_step,
    update_step, BookEvent, InspectionState, OrderOutcome,
};
use crate::inspect::timeline::{entry_trace_id, timeline_entries, LiquiditySide, TimelineEntry};
use crate::orderbook::{
    cancelled_order_bytes, decode_cancelled_order, decode_placed_order,
    lemma_decode_cancelled_order_roundtrip, lemma_decode_placed_order_roundtrip,
    lemma_decoded_cancelled_order_is_canonical, lemma_decoded_placed_order_is_canonical,
    placed_order_bytes, CancelledOrderView, LimitOrderCancelledPayload, LimitOrderPlacedPayload,
    PayloadError, PlacedOrderView,
};
use vstd::utf8::encode_utf8;
use crate::events::{EventType, EventView};
use crate::exchange::runtime::{action_event, action_events, event_route_matches, EventRoute, StrategyAction};
use crate::inspect::analytics::ppm_ratio;
use crate::inspect::visualization::{inventory_line, inventory_lines};
use crate::text::{dec, dec_int};

verus! {

/// Decoding what `serialize_event` produces gives back the same event: the
/// codec loses nothing.
pub proof fn law_event_codec_roundtrip(e: AstraEvent)
    requires
        e.payload@.len() <= u64::MAX,
    ensures
        decode_event_bytes(event_bytes(e@)) == Ok::<_, SerializationError>(e@),
{
    lemma_decode_encoded_event(e@);
}

/// Every byte string that decodes is the canonical encoding of its event, so
/// no two different byte strings decode to the same event.
pub proof fn law_event_decoding_canonical(b1: Seq<u8>, b2: Seq<u8>)
    requires
        decode_event_bytes(b1) is Ok,
        decode_event_bytes(b1) == decode_event_bytes(b2),
    ensures
        b1 == event_bytes(decode_event_bytes(b1)->Ok_0),
        b1 == b2,
{
    lemma_decoded_bytes_are_canonical(b1);
    lemma_decoded_bytes_are_canonical(b2);
}

/// An event recovered from its canonical bytes has the original's state hash.
pub proof fn law_state_hash_survives_roundtrip(original: AstraEvent, recovered: AstraEvent)
    requires
        original.payload@.len() <= u64::MAX,
        decode_event_bytes(event_bytes(original@)) == Ok::<_, SerializationError>(recovered@),
    ensures
        recovered@ == original@,
        recovered.spec_state_hash() == original.spec_state_hash(),
{
    lemma_decode_encoded_event(original@);
}

/// Events with the same fields have the same canonical bytes and the same
/// state hash: hashing is a function of the event alone.
pub proof fn law_state_hash_deterministic(a: AstraEvent, b: AstraEvent)
    requires
        a@ == b@,
    ensures
        event_bytes(a@) == event_bytes(b@),
        a.spec_state_hash() == b.spec_state_hash(),
{
}

/// The ASCII rendering of two timelines one after the other is the rendering
/// of the first followed by that of the second: timelines can be exported
/// piece by piece.
pub proof fn law_ascii_timeline_concatenates(a: Seq<TimelineEvent>, b: Seq<TimelineEvent>)
    ensures
        ascii_timeline(a + b) == ascii_timeline(a) + ascii_timeline(b),
    decreases b.len(),
{
    if b.len() == 0 {
        assert(a + b =~= a);
        assert(ascii_timeline(b) =~= Seq::<char>::empty());
        assert(ascii_timeline(a) + ascii_timeline(b) =~= ascii_timeline(a));
    } else {
        law_ascii_timeline_concatenates(a, b.drop_last());
        assert((a + b).drop_last() =~= a + b.drop_last());
        assert((a + b).last() == b.last());
        assert(ascii_timeline(a + b) =~= ascii_timeline(a) + ascii_timeline(b));
    }
}

/// The CSV rows of two timelines one after the other are the rows of the
/// first followed by those of the second.
pub proof fn law_csv_rows_concatenate(a: Seq<TimelineEvent>, b: Seq<TimelineEvent>)
    ensures
        csv_rows(a + b) == csv_rows(a) + csv_rows(b),
    decreases b.len(),
{
    if b.len() == 0 {
        assert(a + b =~= a);
        assert(csv_rows(a) + csv_rows(b) =~= csv_rows(a));
    } else {
        law_csv_rows_concatenate(a, b.drop_last());
        assert((a + b).drop_last() =~= a + b.drop_last());
        assert((a + b).last() == b.last());
        assert(csv_rows(a + b) =~= csv_rows(a) + csv_rows(b));
    }
}

/// The queue-evolution and sequence-diagram messages of two timelines one
/// after the other are those of the first followed by those of the second.
pub proof fn law_diagram_messages_concatenate(a: Seq<TimelineEvent>, b: Seq<TimelineEvent>)
    ensures
        queue_evolution_lines(a + b) == queue_evolution_lines(a) + queue_evolution_lines(b),
        sequence_messages(a + b) == sequence_messages(a) + sequence_messages(b),
    decreases b.len(),
{
    if b.len() == 0 {
        assert(a + b =~= a);
        assert(queue_evolution_lines(a) + queue_evolution_lines(b) =~= queue_evolution_lines(a));
        assert(sequence_messages(a) + sequence_messages(b) =~= sequence_messages(a));
    } else {
        law_diagram_messages_concatenate(a, b.drop_last());
        assert((a + b).drop_last() =~= a + b.drop_last());
        assert((a + b).last() == b.last());
        assert(queue_evolution_lines(a + b) =~= queue_evolution_lines(a) + queue_evolution_lines(b));
        assert(sequence_messages(a + b) =~= sequence_messages(a) + sequence_messages(b));
    }
}

/// A sandbox never uses more gas than its limit: executing an event keeps
/// the gas used within the limit, and the limit itself never changes.
pub proof fn law_gas_stays_within_limit(s: WasmSandbox, payload_len: nat)
    requires
        s.gas_meter.used_gas <= s.gas_meter.gas_limit,
    ensures
        gas_suffices(s, payload_len) ==> after_event(s, payload_len).gas_meter.used_gas
            <= after_event(s, payload_len).gas_meter.gas_limit,
        gas_suffices(s, payload_len) ==> after_event(s, payload_len).gas_meter.gas_limit
            == s.gas_meter.gas_limit,
{
}


/// Decoding the canonical bytes of a placed order gives back the same
/// order: the payload codec loses nothing.
pub proof fn law_order_payload_roundtrip(p: LimitOrderPlacedPayload)
    requires
        encode_utf8(p.symbol@).len() <= u64::MAX,
    ensures
        decode_placed_order(placed_order_bytes(p@)) == Ok::<PlacedOrderView, PayloadError>(p@),
{
    lemma_decode_placed_order_roundtrip(p@);
}

/// Decoding the canonical bytes of a cancellation gives back the same cancellation.
pub proof fn law_cancel_payload_roundtrip(c: LimitOrderCancelledPayload)
    requires
        encode_utf8(c.symbol@).len() <= u64::MAX,
    ensures
        decode_cancelled_order(cancelled_order_bytes(c@)) == Ok::<CancelledOrderView, PayloadError>(c@),
{
    lemma_decode_cancelled_order_roundtrip(c@);
}

/// No two different byte strings decode to the same order payload: every
/// accepted encoding is the canonical one.
pub proof fn law_payload_decoding_canonical(b1: Seq<u8>, b2: Seq<u8>, c1: Seq<u8>, c2: Seq<u8>)
    requires
        decode_placed_order(b1) is Ok,
        decode_placed_order(b1) == decode_placed_order(b2),
        decode_cancelled_order(c1) is Ok,
        decode_cancelled_order(c1) == decode_cancelled_order(c2),
    ensures
        b1 == b2,
        c1 == c2,
{
    lemma_decoded_placed_order_is_canonical(b1);
    lemma_decoded_placed_order_is_canonical(b2);
    lemma_decoded_cancelled_order_is_canonical(c1);
    lemma_decoded_cancelled_order_is_canonical(c2);
}

/// The timeline's entries carry consecutive trace ids starting at `base`,
/// and the next trace id is the one after the last entry.
pub open spec fn trace_ids_consecutive(s: InspectionState, base: int) -> bool {
    &&& s.next_trace_id == base + s.entries.len()
    &&& forall|i: int| 0 <= i < s.entries.len() ==> entry_trace_id(#[trigger] s.entries[i]) == base + i
}

proof fn lemma_push_keeps_consecutive(s: InspectionState, base: int, e: TimelineEntry, t: InspectionState)
    requires
        trace_ids_consecutive(s, base),
        entry_trace_id(e) == s.next_trace_id,
        t.entries == s.entries.push(e),
        t.next_trace_id == s.next_trace_id + 1,
    ensures
        trace_ids_consecutive(t, base),
{
    assert forall|i: int| 0 <= i < t.entries.len() implies entry_trace_id(#[trigger] t.entries[i]) == base + i by {
        if i < s.entries.len() {
            assert(t.entries[i] == s.entries[i]);
        }
    }
}

proof fn lemma_events_keep_consecutive(
    s: InspectionState,
    base: int,
    sequence: u64,
    o: PlacedOrderView,
    events: Seq<BookEvent>,
    best_bid: Option<i64>,
    best_ask: Option<i64>,
)
    requires
        trace_ids_consecutive(s, base),
        0 <= s.next_trace_id <= u64::MAX,
        events_fit(s, sequence, o, events, best_bid, best_ask),
    ensures
        trace_ids_consecutive(events_step(s, sequence, o, events, best_bid, best_ask), base),
        events_step(s, sequence, o, events, best_bid, best_ask).next_trace_id >= s.next_trace_id,
    decreases events.len(),
{
    if events.len() > 0 {
        lemma_events_keep_consecutive(s, base, sequence, o, events.drop_last(), best_bid, best_ask);
        let prev = events_step(s, sequence, o, events.drop_last(), best_bid, best_ask);
        let next = event_step(prev, sequence, o, events.last(), best_bid, best_ask);
        match events.last() {
            BookEvent::TradeExecuted { liquidity_side, .. } => {
                if liquidity_side != LiquiditySide::Maker {
                    lemma_push_keeps_consecutive(prev, base, next.entries.last(), next);
                }
            },
            BookEvent::Cancelled { .. } => {
                lemma_push_keeps_consecutive(prev, base, next.entries.last(), next);
            },
            BookEvent::Other => {},
        }
    }
}

/// Recording an order keeps the timeline's trace ids consecutive: each new
/// entry gets the next id, so ids are never reused or skipped, and an empty
/// timeline starting at id 1 numbers its entries 1, 2, 3, ...
pub proof fn law_trace_ids_stay_consecutive(
    s: InspectionState,
    base: int,
    sequence: u64,
    o: PlacedOrderView,
    outcome: OrderOutcome,
)
    requires
        trace_ids_consecutive(s, base),
        0 <= s.next_trace_id,
        order_fits(s, sequence, o, outcome),
    ensures
        trace_ids_consecutive(order_recorded(s, sequence, o, outcome), base),
{
    let opened = accept_step(s, sequence, o);
    lemma_push_keeps_consecutive(s, base, opened.entries.last(), opened);
    match outcome {
        OrderOutcome::RiskRejected => {
            let done = reject_step(opened, sequence, o);
            lemma_push_keeps_consecutive(opened, base, done.entries.last(), done);
        },
        OrderOutcome::Booked { events, best_bid, best_ask, resting_orders } => {
            lemma_events_keep_consecutive(opened, base, sequence, o, events@, best_bid, best_ask);
            let stepped = events_step(opened, sequence, o, events@, best_bid, best_ask);
            let done = update_step(stepped, sequence, o, resting_orders);
            lemma_push_keeps_consecutive(stepped, base, done.entries.last(), done);
        },
    }
}


/// How many trades a list of book events reports.
pub open spec fn trade_count(events: Seq<BookEvent>) -> int
    decreases events.len(),
{
    if events.len() == 0 {
        0
    } else {
        trade_count(events.drop_last()) + (if events.last() is TradeExecuted {
            1int
        } else {
            0int
        })
    }
}

/// The total quantity the trades of a list of book events matched.
pub open spec fn traded_quantity(events: Seq<BookEvent>) -> int
    decreases events.len(),
{
    if events.len() == 0 {
        0
    } else {
        traded_quantity(events.drop_last()) + match events.last() {
            BookEvent::TradeExecuted { matched_quantity, .. } => matched_quantity as int,
            _ => 0int,
        }
    }
}

/// Recording an order's book events counts one fill per reported trade and
/// adds exactly the traded quantity to the maker and taker volumes together;
/// cancellations are counted once each.
pub proof fn law_fills_account_for_trades(
    s: InspectionState,
    sequence: u64,
    o: PlacedOrderView,
    events: Seq<BookEvent>,
    best_bid: Option<i64>,
    best_ask: Option<i64>,
)
    ensures
        events_step(s, sequence, o, events, best_bid, best_ask).counts.total_fills
            == s.counts.total_fills + trade_count(events),
        events_step(s, sequence, o, events, best_bid, best_ask).counts.maker_volume
            + events_step(s, sequence, o, events, best_bid, best_ask).counts.taker_volume
            == s.counts.maker_volume + s.counts.taker_volume + traded_quantity(events),
    decreases events.len(),
{
    if events.len() > 0 {
        law_fills_account_for_trades(s, sequence, o, events.drop_last(), best_bid, best_ask);
    }
}


/// Recording is deterministic: two inspections in the same state that
/// record the same order with the same outcome end in the same state.
pub proof fn law_recording_deterministic(
    a: InspectionState,
    b: InspectionState,
    sequence: u64,
    o: PlacedOrderView,
    outcome: OrderOutcome,
)
    requires
        a == b,
    ensures
        order_recorded(a, sequence, o, outcome) == order_recorded(b, sequence, o, outcome),
{
}

proof fn lemma_csv_row_by_entry(x: TimelineEvent, y: TimelineEvent)
    requires
        x@ == y@,
    ensures
        csv_row(x) == csv_row(y),
{
    match x {
        TimelineEvent::Accepted { .. } => {
            assert(y is Accepted);
        },
        TimelineEvent::Fill { .. } => {
            assert(y is Fill);
        },
        TimelineEvent::Update { .. } => {
            assert(y is Update);
        },
        TimelineEvent::Reject { .. } => {
            assert(y is Reject);
        },
        TimelineEvent::Cancel { .. } => {
            assert(y is Cancel);
        },
    }
}

/// The CSV export of a timeline depends only on its entries' contents:
/// timelines with the same entries export to exactly the same text, so
/// replaying the same journal twice gives identical CSV.
pub proof fn law_csv_depends_only_on_entries(a: Seq<TimelineEvent>, b: Seq<TimelineEvent>)
    requires
        timeline_entries(a) == timeline_entries(b),
    ensures
        csv_rows(a) == csv_rows(b),
    decreases a.len(),
{
    assert(a.len() == timeline_entries(a).len());
    assert(b.len() == timeline_entries(b).len());
    assert forall|i: int| 0 <= i < a.len() implies a[i]@ == b[i]@ by {
        assert(timeline_entries(a)[i] == a[i]@);
        assert(timeline_entries(b)[i] == b[i]@);
        assert(timeline_entries(a)[i] == timeline_entries(b)[i]);
    }
    if a.len() > 0 {
        assert(timeline_entries(a.drop_last()) =~= timeline_entries(b.drop_last())) by {
            assert forall|i: int| 0 <= i < a.len() - 1 implies #[trigger] timeline_entries(a.drop_last())[i]
                == timeline_entries(b.drop_last())[i] by {
                assert(a.drop_last()[i] == a[i]);
                assert(b.drop_last()[i] == b[i]);
            }
        }
        law_csv_depends_only_on_entries(a.drop_last(), b.drop_last());
        lemma_csv_row_by_entry(a.last(), b.last());
    }
}


/// A trade is counted on the side it was on: a maker fill adds its matched
/// quantity to the maker volume and leaves the taker volume alone, a taker
/// fill the other way round; either way one more fill is counted and the
/// order and rejection counts do not move.
pub proof fn law_trade_volume_goes_to_its_side(
    s: InspectionState,
    sequence: u64,
    o: PlacedOrderView,
    e: BookEvent,
    best_bid: Option<i64>,
    best_ask: Option<i64>,
)
    requires
        e is TradeExecuted,
    ensures
        ({
            let t = event_step(s, sequence, o, e, best_bid, best_ask);
            let q = e->TradeExecuted_matched_quantity as int;
            &&& t.counts.total_fills == s.counts.total_fills + 1
            &&& t.counts.total_orders == s.counts.total_orders
            &&& t.counts.total_rejections == s.counts.total_rejections
            &&& t.counts.cancel_count == s.counts.cancel_count
            &&& e->TradeExecuted_liquidity_side == LiquiditySide::Maker ==> t.counts.maker_volume
                == s.counts.maker_volume + q && t.counts.taker_volume == s.counts.taker_volume
            &&& e->TradeExecuted_liquidity_side == LiquiditySide::Taker ==> t.counts.taker_volume
                == s.counts.taker_volume + q && t.counts.maker_volume == s.counts.maker_volume
        }),
{
}

/// The text of `q` held from `t1` to `t2` in the strategy trace.
pub open spec fn held_inventory_text(t1: u64, q: i64, t2: u64) -> Seq<char> {
    "    Inventory "@ + dec_int(q as int) + " : "@ + dec(t1 as nat) + " , "@ + dec(t2 as nat) + "\n"@
}

proof fn lemma_inventory_lines_prefix(keys: Seq<u64>, series: Map<u64, i64>, j: int)
    requires
        0 <= j <= keys.len(),
    ensures
        inventory_lines(keys.take(j), series).len() <= inventory_lines(keys, series).len(),
        inventory_lines(keys, series).subrange(0, inventory_lines(keys.take(j), series).len() as int)
            == inventory_lines(keys.take(j), series),
    decreases keys.len() - j,
{
    if j == keys.len() {
        assert(keys.take(j) =~= keys);
        assert(inventory_lines(keys, series).subrange(0, inventory_lines(keys, series).len() as int)
            =~= inventory_lines(keys, series));
    } else {
        lemma_inventory_lines_prefix(keys, series, j + 1);
        let t = keys.take(j + 1);
        assert(t.drop_last() =~= keys.take(j));
        let whole = inventory_lines(keys, series);
        let big = inventory_lines(t, series);
        let small = inventory_lines(keys.take(j), series);
        assert(small.len() <= big.len()) by {
            if t.len() >= 2 {
                assert(big == small + inventory_line(t[t.len() - 2], series[t[t.len() - 2]], t.last()));
            } else {
                assert(big =~= Seq::<char>::empty());
                assert(small =~= Seq::<char>::empty());
            }
        }
        assert(big.subrange(0, small.len() as int) =~= small) by {
            if t.len() >= 2 {
                assert(big == small + inventory_line(t[t.len() - 2], series[t[t.len() - 2]], t.last()));
            } else {
                assert(big =~= Seq::<char>::empty());
                assert(small =~= Seq::<char>::empty());
            }
        }
        assert(whole.subrange(0, small.len() as int) =~= big.subrange(0, small.len() as int));
    }
}

/// Every interval over which a trader held a nonzero inventory, short
/// (negative) as well as long, is drawn: for consecutive samples at `keys[i]`
/// and `keys[i + 1]` with inventory `q != 0` at the first, the trace holds the
/// line `    Inventory q : keys[i] , keys[i + 1]` (it starts where the lines
/// of the samples up to `keys[i]` end). When every sample is flat nothing is drawn.
pub proof fn law_nonzero_inventory_intervals_drawn(keys: Seq<u64>, series: Map<u64, i64>, i: int)
    ensures
        0 <= i && i + 1 < keys.len() && series[keys[i]] != 0 ==> {
            let start = inventory_lines(keys.take(i + 1), series).len() as int;
            let line = held_inventory_text(keys[i], series[keys[i]], keys[i + 1]);
            &&& start + line.len() <= inventory_lines(keys, series).len()
            &&& inventory_lines(keys, series).subrange(start, start + line.len()) == line
        },
        (forall|k: int| 0 <= k < keys.len() ==> series[#[trigger] keys[k]] == 0) ==> inventory_lines(
            keys,
            series,
        ) == Seq::<char>::empty(),
    decreases keys.len(),
{
    if 0 <= i && i + 1 < keys.len() && series[keys[i]] != 0 {
        lemma_inventory_lines_prefix(keys, series, i + 2);
        let t = keys.take(i + 2);
        assert(t[t.len() - 2] == keys[i]);
        assert(t.last() == keys[i + 1]);
        assert(t.drop_last() =~= keys.take(i + 1));
        let a = inventory_lines(keys.take(i + 1), series);
        let line = held_inventory_text(keys[i], series[keys[i]], keys[i + 1]);
        let big = inventory_lines(t, series);
        assert(big == a + line);
        let whole = inventory_lines(keys, series);
        assert(whole.subrange(0, big.len() as int) == big);
        assert(whole.subrange(a.len() as int, (a.len() + line.len()) as int) =~= line) by {
            assert forall|k: int| 0 <= k < line.len() implies whole.subrange(
                a.len() as int,
                (a.len() + line.len()) as int,
            )[k] == line[k] by {
                assert(whole[a.len() + k] == whole.subrange(0, big.len() as int)[a.len() + k]);
                assert(big[a.len() + k] == line[k]);
            }
        }
    }
    if forall|k: int| 0 <= k < keys.len() ==> series[#[trigger] keys[k]] == 0 {
        if keys.len() >= 2 {
            let d = keys.drop_last();
            assert forall|k: int| 0 <= k < d.len() implies series[#[trigger] d[k]] == 0 by {
                assert(d[k] == keys[k]);
            }
            law_nonzero_inventory_intervals_drawn(d, series, -1);
            assert(series[keys[keys.len() - 2]] == 0);
        }
    }
}

/// Only a market tick asks the policy engine to evaluate; every event type
/// other than order placement and cancellation, venue status, market stress,
/// market tick and operator action (policy actions, interventions, audit and
/// agent events included) is only consumed.
pub proof fn law_only_market_ticks_evaluate_policy(event: EventView, r: Result<EventRoute, PayloadError>)
    requires
        event_route_matches(event, r),
    ensures
        (r matches Ok(EventRoute::PolicyEvaluation)) <==> event.event_type == EventType::MarketTick,
        !(event.event_type == EventType::LimitOrderPlaced || event.event_type
            == EventType::LimitOrderCancelled || event.event_type == EventType::VenueStatusChanged
            || event.event_type == EventType::MarketStressInjected || event.event_type
            == EventType::MarketTick || event.event_type == EventType::OperatorAction) ==> r == Ok::<
            EventRoute,
            PayloadError,
        >(EventRoute::Consume),
{
}

/// How many of the actions are orders or cancellations.
pub open spec fn event_producing_actions(actions: Seq<(u64, StrategyAction)>) -> nat
    decreases actions.len(),
{
    if actions.len() == 0 {
        0
    } else {
        event_producing_actions(actions.drop_last()) + if actions.last().1 is Other {
            0nat
        } else {
            1nat
        }
    }
}

/// Every event made from strategy actions, cancellations as well as orders,
/// carries the conversion's timestamp and sequence id 0, and there is one
/// event per order or cancellation action.
pub proof fn law_action_events_carry_timestamp(actions: Seq<(u64, StrategyAction)>, timestamp_ns: u64)
    ensures
        forall|i: int|
            0 <= i < action_events(actions, timestamp_ns).len() ==> (#[trigger] action_events(
                actions,
                timestamp_ns,
            )[i]).timestamp_ns == timestamp_ns && action_events(actions, timestamp_ns)[i].sequence_id
                == 0,
        action_events(actions, timestamp_ns).len() == event_producing_actions(actions),
    decreases actions.len(),
{
    if actions.len() > 0 {
        law_action_events_carry_timestamp(actions.drop_last(), timestamp_ns);
        let prev = action_events(actions.drop_last(), timestamp_ns);
        let last = action_event(actions.last(), timestamp_ns);
        assert forall|i: int| 0 <= i < action_events(actions, timestamp_ns).len() implies (
        #[trigger] action_events(actions, timestamp_ns)[i]).timestamp_ns == timestamp_ns
            && action_events(actions, timestamp_ns)[i].sequence_id == 0 by {
            if i >= prev.len() {
                assert(action_events(actions, timestamp_ns)[i] == last[i - prev.len()]);
            } else {
                assert(action_events(actions, timestamp_ns)[i] == prev[i]);
            }
        }
    }
}

/// A parts-per-million figure is the exact floor of `n * 1_000_000 / d`
/// whenever that product fits in a `u64`, with no cap at one million (500
/// events in 250 microseconds are 2,000,000 per second); when the product
/// does not fit it saturates to `u64::MAX / d`; a zero denominator gives 0.
pub proof fn law_ppm_is_floor_of_scaled_ratio(n: u64, d: u64)
    ensures
        d > 0 && n * 1_000_000 <= u64::MAX ==> ppm_ratio(n, d) * d <= n * 1_000_000 < (ppm_ratio(n, d)
            + 1) * d,
        d > 0 && n * 1_000_000 > u64::MAX ==> ppm_ratio(n, d) * d <= u64::MAX < (ppm_ratio(n, d)
            + 1) * d,
        d == 0 ==> ppm_ratio(n, d) == 0,
{
    if d > 0 {
        let scaled: int = if n * 1_000_000 > u64::MAX { u64::MAX as int } else { n * 1_000_000 };
        let q = scaled / (d as int);
        assert(q * d <= scaled < (q + 1) * d) by (nonlinear_arith)
            requires
                q == scaled / (d as int),
                d > 0,
                scaled >= 0,
        ;
        assert(0 <= q <= scaled) by (nonlinear_arith)
            requires
                q == scaled / (d as int),
                d > 0,
                scaled >= 0,
        ;
        assert(ppm_ratio(n, d) == q);
    }
}

} // verus!
