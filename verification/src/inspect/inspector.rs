//! The records an inspection keeps of a replay: order-flow analytics, the
//! timeline, execution quality and per-trader strategy samples. Each placed
//! order is recorded together with what became of it: refused by the risk
//! checks, or taken by the book with the events that produced.

use vstd::prelude::*;
use std::collections::BTreeMap;
use crate::inspect::analytics::OrderFlowAnalytics;
use crate::inspect::execution_quality::{after_fill, fill_fits, zero_metrics, ExecutionQualityMetrics};
use crate::inspect::strategy_analytics::{
    sampled, sampled_fresh, AgentContext, StrategyAnalytics, StrategyAnalyticsCollector,
};
use vstd::std_specs::btree::{increasing_seq, spec_btree_map_iter};
use vstd::std_specs::iter::IteratorSpec;
use crate::inspect::strategy_analytics::lemma_iteration_in_key_order;

use crate::inspect::timeline::{
    timeline_entries, LiquiditySide, ReplayTimeline, TimelineEntry, TimelineEvent,
};
use crate::orderbook::{LimitOrderPlacedPayload, OrderSide, PlacedOrderView};

verus! {

/// What the book reported while taking an order, as far as an inspection reads it.
#[derive(Clone, Debug)]
pub enum BookEvent {
    /// A match between a resting and an incoming order, seen from one side.
    TradeExecuted {
        resting_order_id: u64,
        aggressive_order_id: u64,
        symbol: String,
        matched_quantity: u64,
        match_price: i64,
        liquidity_side: LiquiditySide,
        /// Quantity queued ahead of the resting order when it was placed.
        initial_ahead_quantity: u64,
    },
    /// An order left the book.
    Cancelled { symbol: String },
    /// Anything else the book reports.
    Other,
}

/// What became of a placed order.
#[derive(Clone, Debug)]
pub enum OrderOutcome {
    /// The risk checks refused it.
    RiskRejected,
    /// The book took it: the events it produced, the best prices afterwards
    /// and the number of orders then resting in the book.
    Booked {
        events: Vec<BookEvent>,
        best_bid: Option<i64>,
        best_ask: Option<i64>,
        resting_orders: usize,
    },
}

/// The analytics counters of an inspection, as integers.
pub struct FlowCounts {
    pub total_orders: int,
    pub total_fills: int,
    pub total_rejections: int,
    pub maker_volume: int,
    pub taker_volume: int,
    pub cancel_count: int,
}

/// Everything an inspection step changes: the analytics counters, the
/// timeline entries, the next trace id and the execution-quality counters.
pub struct InspectionState {
    pub counts: FlowCounts,
    pub entries: Seq<TimelineEntry>,
    pub next_trace_id: int,
    pub quality: ExecutionQualityMetrics,
}

/// The records of an inspection.
pub struct ReplayInspector {
    pub analytics: OrderFlowAnalytics,
    pub timeline: ReplayTimeline,
    pub execution_quality: ExecutionQualityMetrics,
    pub strategy_analytics: StrategyAnalyticsCollector,
}

impl ReplayInspector {
    /// The counters, timeline and quality metrics, as an inspection step sees them.
    pub open spec fn state(&self) -> InspectionState {
        InspectionState {
            counts: FlowCounts {
                total_orders: self.analytics.total_orders as int,
                total_fills: self.analytics.total_fills as int,
                total_rejections: self.analytics.total_rejections as int,
                maker_volume: self.analytics.maker_volume as int,
                taker_volume: self.analytics.taker_volume as int,
                cancel_count: self.analytics.cancel_count as int,
            },
            entries: timeline_entries(self.timeline.events@),
            next_trace_id: self.timeline.next_trace_id as int,
            quality: self.execution_quality,
        }
    }
}

/// Every counter and the next trace id fit in a `u64`.
pub open spec fn state_fits(s: InspectionState) -> bool {
    &&& s.counts.total_orders <= u64::MAX
    &&& s.counts.total_fills <= u64::MAX
    &&& s.counts.total_rejections <= u64::MAX
    &&& s.counts.maker_volume <= u64::MAX
    &&& s.counts.taker_volume <= u64::MAX
    &&& s.counts.cancel_count <= u64::MAX
    &&& s.next_trace_id <= u64::MAX
}

/// The timeline label of a side.
pub open spec fn side_label(side: OrderSide) -> Seq<char> {
    match side {
        OrderSide::Bid => "BUY"@,
        OrderSide::Ask => "SELL"@,
    }
}

/// The reason recorded for an order the risk checks refuse.
pub open spec fn risk_reject_reason() -> Seq<char> {
    "RiskLimitExceeded"@
}

/// Counting a placed order and recording its acceptance under the next trace id.
pub open spec fn accept_step(s: InspectionState, sequence: u64, o: PlacedOrderView) -> InspectionState {
    InspectionState {
        counts: FlowCounts { total_orders: s.counts.total_orders + 1, ..s.counts },
        entries: s.entries.push(
            TimelineEntry::Accepted {
                execution_trace_id: s.next_trace_id as u64,
                sequence,
                trader_id: o.trader_id,
                symbol: o.symbol,
                side: side_label(o.side),
                quantity: o.quantity,
                price: o.price,
            },
        ),
        next_trace_id: s.next_trace_id + 1,
        ..s
    }
}

/// Counting a risk rejection and recording it under the next trace id.
pub open spec fn reject_step(s: InspectionState, sequence: u64, o: PlacedOrderView) -> InspectionState {
    InspectionState {
        counts: FlowCounts { total_rejections: s.counts.total_rejections + 1, ..s.counts },
        entries: s.entries.push(
            TimelineEntry::Reject {
                execution_trace_id: s.next_trace_id as u64,
                sequence,
                trader_id: o.trader_id,
                reason: risk_reject_reason(),
            },
        ),
        next_trace_id: s.next_trace_id + 1,
        ..s
    }
}

/// Recording the book's state after the order under the next trace id.
pub open spec fn update_step(
    s: InspectionState,
    sequence: u64,
    o: PlacedOrderView,
    resting_orders: usize,
) -> InspectionState {
    InspectionState {
        entries: s.entries.push(
            TimelineEntry::Update {
                execution_trace_id: s.next_trace_id as u64,
                sequence,
                symbol: o.symbol,
                queue_depth: resting_orders,
            },
        ),
        next_trace_id: s.next_trace_id + 1,
        ..s
    }
}

/// The doubled midpoint an aggressive fill is measured against: best bid
/// plus best ask, the match price standing in for a missing side.
pub open spec fn fill_midpoint(best_bid: Option<i64>, best_ask: Option<i64>, match_price: i64) -> int {
    (match best_bid {
        Some(b) => b,
        None => match_price,
    }) + (match best_ask {
        Some(a) => a,
        None => match_price,
    })
}

/// The quality counters after queue advancement is recorded.
pub open spec fn after_queue(
    m: ExecutionQualityMetrics,
    initial_ahead: u64,
    executed_quantity: u64,
) -> ExecutionQualityMetrics {
    ExecutionQualityMetrics {
        total_queue_survived_quantity: (m.total_queue_survived_quantity + executed_quantity) as u64,
        total_queue_advancement: (m.total_queue_advancement + initial_ahead) as u64,
        ..m
    }
}

/// Recording one book event of an order. A trade counts a fill and adds its
/// quantity to the maker or taker volume; on the taker side it is entered in
/// the timeline and measured as an aggressive fill against the midpoint, on
/// the maker side it is measured as a passive fill together with the queue
/// it advanced through. A cancellation counts the order's quantity as
/// cancelled and is entered in the timeline. Other events change nothing.
pub open spec fn event_step(
    s: InspectionState,
    sequence: u64,
    o: PlacedOrderView,
    e: BookEvent,
    best_bid: Option<i64>,
    best_ask: Option<i64>,
) -> InspectionState {
    match e {
        BookEvent::TradeExecuted {
            resting_order_id,
            aggressive_order_id,
            symbol,
            matched_quantity,
            match_price,
            liquidity_side,
            initial_ahead_quantity,
        } => if liquidity_side == LiquiditySide::Maker {
            InspectionState {
                counts: FlowCounts {
                    total_fills: s.counts.total_fills + 1,
                    maker_volume: s.counts.maker_volume + matched_quantity,
                    ..s.counts
                },
                quality: after_queue(
                    after_fill(s.quality, true, matched_quantity, match_price, 0, 0),
                    initial_ahead_quantity,
                    matched_quantity,
                ),
                ..s
            }
        } else {
            let mid = fill_midpoint(best_bid, best_ask, match_price) as i64;
            InspectionState {
                counts: FlowCounts {
                    total_fills: s.counts.total_fills + 1,
                    taker_volume: s.counts.taker_volume + matched_quantity,
                    ..s.counts
                },
                entries: s.entries.push(
                    TimelineEntry::Fill {
                        execution_trace_id: s.next_trace_id as u64,
                        sequence,
                        maker_trader_id: resting_order_id,
                        taker_trader_id: aggressive_order_id,
                        symbol: symbol@,
                        quantity: matched_quantity,
                        price: match_price,
                        liquidity_side,
                    },
                ),
                next_trace_id: s.next_trace_id + 1,
                quality: after_fill(s.quality, false, matched_quantity, match_price, mid, mid),
            }
        },
        BookEvent::Cancelled { symbol } => InspectionState {
            counts: FlowCounts { cancel_count: s.counts.cancel_count + 1, ..s.counts },
            entries: s.entries.push(
                TimelineEntry::Cancel {
                    execution_trace_id: s.next_trace_id as u64,
                    sequence,
                    trader_id: o.trader_id,
                    symbol: symbol@,
                },
            ),
            next_trace_id: s.next_trace_id + 1,
            quality: ExecutionQualityMetrics {
                total_cancelled_quantity: (s.quality.total_cancelled_quantity + o.quantity) as u64,
                ..s.quality
            },
        },
        BookEvent::Other => s,
    }
}

/// Recording one book event stays within the counters' ranges.
pub open spec fn event_fits(
    s: InspectionState,
    sequence: u64,
    o: PlacedOrderView,
    e: BookEvent,
    best_bid: Option<i64>,
    best_ask: Option<i64>,
) -> bool {
    &&& state_fits(event_step(s, sequence, o, e, best_bid, best_ask))
    &&& match e {
        BookEvent::TradeExecuted {
            matched_quantity,
            match_price,
            liquidity_side,
            initial_ahead_quantity,
            ..
        } => if liquidity_side == LiquiditySide::Maker {
            &&& fill_fits(s.quality, true, matched_quantity, match_price, 0, 0)
            &&& s.quality.total_queue_survived_quantity + matched_quantity <= u64::MAX
            &&& s.quality.total_queue_advancement + initial_ahead_quantity <= u64::MAX
        } else {
            let mid = fill_midpoint(best_bid, best_ask, match_price);
            &&& i64::MIN <= mid <= i64::MAX
            &&& fill_fits(s.quality, false, matched_quantity, match_price, mid as i64, mid as i64)
        },
        BookEvent::Cancelled { .. } => s.quality.total_cancelled_quantity + o.quantity <= u64::MAX,
        BookEvent::Other => true,
    }
}

/// Recording the book events of an order, in order.
pub open spec fn events_step(
    s: InspectionState,
    sequence: u64,
    o: PlacedOrderView,
    events: Seq<BookEvent>,
    best_bid: Option<i64>,
    best_ask: Option<i64>,
) -> InspectionState
    decreases events.len(),
{
    if events.len() == 0 {
        s
    } else {
        event_step(
            events_step(s, sequence, o, events.drop_last(), best_bid, best_ask),
            sequence,
            o,
            events.last(),
            best_bid,
            best_ask,
        )
    }
}

/// Recording the book events of an order, in order, stays within the counters' ranges.
pub open spec fn events_fit(
    s: InspectionState,
    sequence: u64,
    o: PlacedOrderView,
    events: Seq<BookEvent>,
    best_bid: Option<i64>,
    best_ask: Option<i64>,
) -> bool
    decreases events.len(),
{
    events.len() == 0 || (events_fit(s, sequence, o, events.drop_last(), best_bid, best_ask)
        && event_fits(
        events_step(s, sequence, o, events.drop_last(), best_bid, best_ask),
        sequence,
        o,
        events.last(),
        best_bid,
        best_ask,
    ))
}

/// The state after recording a placed order and its outcome: the order is
/// counted and accepted; then either the rejection is recorded, or each
/// book event in turn followed by the book's state.
pub open spec fn order_recorded(
    s: InspectionState,
    sequence: u64,
    o: PlacedOrderView,
    outcome: OrderOutcome,
) -> InspectionState {
    let opened = accept_step(s, sequence, o);
    match outcome {
        OrderOutcome::RiskRejected => reject_step(opened, sequence, o),
        OrderOutcome::Booked { events, best_bid, best_ask, resting_orders } => update_step(
            events_step(opened, sequence, o, events@, best_bid, best_ask),
            sequence,
            o,
            resting_orders,
        ),
    }
}

/// Recording a placed order and its outcome stays within the counters' ranges.
pub open spec fn order_fits(
    s: InspectionState,
    sequence: u64,
    o: PlacedOrderView,
    outcome: OrderOutcome,
) -> bool {
    let opened = accept_step(s, sequence, o);
    &&& state_fits(opened)
    &&& match outcome {
        OrderOutcome::RiskRejected => state_fits(reject_step(opened, sequence, o)),
        OrderOutcome::Booked { events, best_bid, best_ask, resting_orders } => {
            &&& events_fit(opened, sequence, o, events@, best_bid, best_ask)
            &&& state_fits(
                update_step(
                    events_step(opened, sequence, o, events@, best_bid, best_ask),
                    sequence,
                    o,
                    resting_orders,
                ),
            )
        },
    }
}

/// How many placed orders were seen for `symbol` so far (0 if none).
pub open spec fn symbol_tally(distribution: Map<Seq<char>, u64>, symbol: Seq<char>) -> int {
    if distribution.contains_key(symbol) {
        distribution[symbol] as int
    } else {
        0
    }
}

/// Calls `BTreeMap::get` on the per-symbol order counts.
/// Trusted: the result is the count stored under a key with the same
/// characters as `symbol`, or `None` when there is none.
#[verifier::external_body]
fn symbol_count(distribution: &BTreeMap<String, u64>, symbol: &String) -> (r: Option<u64>)
    ensures
        r == (if distribution.deep_view().contains_key(symbol@) {
            Some(distribution.deep_view()[symbol@])
        } else {
            None
        }),
{
    distribution.get(symbol).copied()
}

/// Calls `BTreeMap::insert` on the per-symbol order counts.
/// Trusted: afterwards the key with the characters of `symbol` maps to
/// `count` and every other key is unchanged.
#[verifier::external_body]
fn set_symbol_count(distribution: &mut BTreeMap<String, u64>, symbol: String, count: u64)
    ensures
        final(distribution).deep_view() == old(distribution).deep_view().insert(symbol@, count),
{
    distribution.insert(symbol, count);
}

impl ReplayInspector {
    /// Empty records: no orders, an empty timeline starting at trace id 1,
    /// zero quality counters, no strategy samples.
    pub fn new() -> (r: ReplayInspector)
        ensures
            r.state() == (InspectionState {
                counts: FlowCounts {
                    total_orders: 0,
                    total_fills: 0,
                    total_rejections: 0,
                    maker_volume: 0,
                    taker_volume: 0,
                    cancel_count: 0,
                },
                entries: Seq::empty(),
                next_trace_id: 1,
                quality: zero_metrics(),
            }),
            r.analytics.symbol_distribution@ == Map::<String, u64>::empty(),
            r.strategy_analytics.metrics_by_trader@ == Map::<u64, StrategyAnalytics>::empty(),
    {
        let r = ReplayInspector {
            analytics: OrderFlowAnalytics::new(),
            timeline: ReplayTimeline::new(),
            execution_quality: ExecutionQualityMetrics::new(),
            strategy_analytics: StrategyAnalyticsCollector::new(),
        };
        assert(timeline_entries(r.timeline.events@) =~= Seq::<TimelineEntry>::empty());
        r
    }
}


proof fn lemma_entries_push(events: Seq<TimelineEvent>, e: TimelineEvent)
    ensures
        timeline_entries(events.push(e)) == timeline_entries(events).push(e@),
{
    assert(timeline_entries(events.push(e)) =~= timeline_entries(events).push(e@));
}

proof fn lemma_events_fit_prefix(
    s: InspectionState,
    sequence: u64,
    o: PlacedOrderView,
    events: Seq<BookEvent>,
    best_bid: Option<i64>,
    best_ask: Option<i64>,
    i: int,
)
    requires
        0 <= i <= events.len(),
        events_fit(s, sequence, o, events, best_bid, best_ask),
    ensures
        events_fit(s, sequence, o, events.take(i), best_bid, best_ask),
    decreases events.len() - i,
{
    if i < events.len() {
        lemma_events_fit_prefix(s, sequence, o, events, best_bid, best_ask, i + 1);
        assert(events.take(i + 1).drop_last() =~= events.take(i));
    } else {
        assert(events.take(i) =~= events);
    }
}

impl ReplayInspector {
    fn record_book_event(
        &mut self,
        sequence: u64,
        order: &LimitOrderPlacedPayload,
        e: &BookEvent,
        best_bid: Option<i64>,
        best_ask: Option<i64>,
    )
        requires
            event_fits(old(self).state(), sequence, order@, *e, best_bid, best_ask),
        ensures
            final(self).state() == event_step(old(self).state(), sequence, order@, *e, best_bid, best_ask),
            final(self).analytics.symbol_distribution == old(self).analytics.symbol_distribution,
            final(self).strategy_analytics == old(self).strategy_analytics,
    {
        let ghost events0 = self.timeline.events@;
        match e {
            BookEvent::TradeExecuted {
                resting_order_id,
                aggressive_order_id,
                symbol,
                matched_quantity,
                match_price,
                liquidity_side,
                initial_ahead_quantity,
            } => {
                self.analytics.total_fills += 1;
                if *liquidity_side == LiquiditySide::Maker {
                    self.analytics.maker_volume += *matched_quantity;
                    self.execution_quality.record_fill(true, *matched_quantity, *match_price, 0, 0);
                    self.execution_quality.record_queue_advancement(
                        *initial_ahead_quantity,
                        *matched_quantity,
                    );
                } else {
                    self.analytics.taker_volume += *matched_quantity;
                    let trace = self.timeline.next_trace_id();
                    self.timeline.record_fill(
                        trace,
                        sequence,
                        *resting_order_id,
                        *aggressive_order_id,
                        symbol.clone(),
                        *matched_quantity,
                        *match_price,
                        *liquidity_side,
                    );
                    let bid = match best_bid {
                        Some(b) => b,
                        None => *match_price,
                    };
                    let ask = match best_ask {
                        Some(a) => a,
                        None => *match_price,
                    };
                    let mid = bid + ask;
                    self.execution_quality.record_fill(false, *matched_quantity, *match_price, mid, mid);
                    proof {
                        lemma_entries_push(events0, self.timeline.events@.last());
                        assert(self.timeline.events@ == events0.push(self.timeline.events@.last()));
                    }
                }
            },
            BookEvent::Cancelled { symbol } => {
                self.execution_quality.record_cancel(order.quantity);
                self.analytics.cancel_count += 1;
                let trace = self.timeline.next_trace_id();
                self.timeline.record_cancel(trace, sequence, order.trader_id, symbol.clone());
                proof {
                    lemma_entries_push(events0, self.timeline.events@.last());
                    assert(self.timeline.events@ == events0.push(self.timeline.events@.last()));
                }
            },
            BookEvent::Other => {},
        }
    }

    /// Records a placed order and what became of it. The order is counted,
    /// tallied under its symbol and entered in the timeline as accepted
    /// (side `BUY` or `SELL`). If the risk checks refused it, a rejection is
    /// counted and entered with the reason `RiskLimitExceeded`. Otherwise each
    /// book event is recorded in turn (see `event_step`) and then the book's
    /// state after the order. Every entry gets the next trace id.
    pub fn record_placed_order(
        &mut self,
        sequence: u64,
        order: &LimitOrderPlacedPayload,
        outcome: &OrderOutcome,
    )
        requires
            order_fits(old(self).state(), sequence, order@, *outcome),
            symbol_tally(old(self).analytics.symbol_distribution.deep_view(), order.symbol@) < u64::MAX,
        ensures
            final(self).state() == order_recorded(old(self).state(), sequence, order@, *outcome),
            final(self).analytics.symbol_distribution.deep_view()
                == old(self).analytics.symbol_distribution.deep_view().insert(
                order.symbol@,
                (symbol_tally(old(self).analytics.symbol_distribution.deep_view(), order.symbol@)
                    + 1) as u64,
            ),
            final(self).strategy_analytics == old(self).strategy_analytics,
    {
        let ghost s0 = self.state();
        let ghost events0 = self.timeline.events@;
        self.analytics.total_orders += 1;
        let tally = symbol_count(&self.analytics.symbol_distribution, &order.symbol);
        let next = match tally {
            Some(c) => c + 1,
            None => 1,
        };
        set_symbol_count(&mut self.analytics.symbol_distribution, order.symbol.clone(), next);
        let ghost dist = self.analytics.symbol_distribution;
        let side = match order.side {
            OrderSide::Bid => "BUY".to_owned(),
            OrderSide::Ask => "SELL".to_owned(),
        };
        let trace = self.timeline.next_trace_id();
        self.timeline.record_accepted(
            trace,
            sequence,
            order.trader_id,
            order.symbol.clone(),
            side,
            order.quantity,
            order.price,
        );
        proof {
            lemma_entries_push(events0, self.timeline.events@.last());
            assert(self.timeline.events@ == events0.push(self.timeline.events@.last()));
            assert(self.state() == accept_step(s0, sequence, order@));
        }
        let ghost opened = self.state();
        match outcome {
            OrderOutcome::RiskRejected => {
                let ghost events1 = self.timeline.events@;
                self.analytics.total_rejections += 1;
                let trace = self.timeline.next_trace_id();
                self.timeline.record_reject(trace, sequence, order.trader_id, "RiskLimitExceeded".to_owned());
                proof {
                    lemma_entries_push(events1, self.timeline.events@.last());
                    assert(self.timeline.events@ == events1.push(self.timeline.events@.last()));
                }
            },
            OrderOutcome::Booked { events, best_bid, best_ask, resting_orders } => {
                let mut i: usize = 0;
                while i < events.len()
                    invariant
                        i <= events@.len(),
                        events_fit(opened, sequence, order@, events@, *best_bid, *best_ask),
                        self.state() == events_step(
                            opened,
                            sequence,
                            order@,
                            events@.take(i as int),
                            *best_bid,
                            *best_ask,
                        ),
                        self.analytics.symbol_distribution == dist,
                        self.strategy_analytics == old(self).strategy_analytics,
                    decreases events@.len() - i,
                {
                    proof {
                        lemma_events_fit_prefix(
                            opened,
                            sequence,
                            order@,
                            events@,
                            *best_bid,
                            *best_ask,
                            i + 1,
                        );
                        assert(events@.take(i + 1).drop_last() =~= events@.take(i as int));
                    }
                    self.record_book_event(sequence, order, &events[i], *best_bid, *best_ask);
                    i = i + 1;
                }
                assert(events@.take(events@.len() as int) =~= events@);
                let ghost events1 = self.timeline.events@;
                let trace = self.timeline.next_trace_id();
                self.timeline.record_update(trace, sequence, order.symbol.clone(), *resting_orders);
                proof {
                    lemma_entries_push(events1, self.timeline.events@.last());
                    assert(self.timeline.events@ == events1.push(self.timeline.events@.last()));
                }
            },
        }
    }
}

/// A map `after` that is `before` with each trader of `contexts` sampled
/// once at `ts`: a trader already there gets one more sample, a new one
/// starts with that sample alone, and the others are untouched.
pub open spec fn contexts_captured(
    after: Map<u64, StrategyAnalytics>,
    before: Map<u64, StrategyAnalytics>,
    contexts: Map<u64, AgentContext>,
    ts: u64,
) -> bool {
    &&& after.dom() == before.dom().union(contexts.dom())
    &&& forall|t: u64|
        #[trigger] after.contains_key(t) && !contexts.contains_key(t) ==> after[t] == before[t]
    &&& forall|t: u64|
        #[trigger] contexts.contains_key(t) && before.contains_key(t) ==> sampled(
            after[t],
            before[t],
            ts,
            contexts[t],
        )
    &&& forall|t: u64|
        #[trigger] contexts.contains_key(t) && !before.contains_key(t) ==> sampled_fresh(
            after[t],
            ts,
            contexts[t],
        )
}

impl ReplayInspector {
    /// Samples every trader's strategy context at the sequence clock `ts`.
    pub fn capture_contexts(&mut self, ts: u64, contexts: &BTreeMap<u64, AgentContext>)
        ensures
            contexts_captured(
                final(self).strategy_analytics.metrics_by_trader@,
                old(self).strategy_analytics.metrics_by_trader@,
                contexts@,
                ts,
            ),
            final(self).state() == old(self).state(),
            final(self).analytics.symbol_distribution == old(self).analytics.symbol_distribution,
    {
        let ghost before = self.strategy_analytics.metrics_by_trader@;
        let ghost m = contexts@;
        proof {
            assert forall|s: Seq<u64>| #[trigger] s.take(0).to_set() == Set::<u64>::empty() by {
                assert(s.take(0).to_set() =~= Set::<u64>::empty());
            }
            assert(m.restrict(Set::<u64>::empty()) =~= Map::<u64, AgentContext>::empty());
            assert(before.dom().union(Set::<u64>::empty()) =~= before.dom());
        }
        for kv in it: contexts.iter()
            invariant
                it.seq() == spec_btree_map_iter(contexts).remaining(),
                increasing_seq(it.seq().map_values(|p: (&u64, &AgentContext)| *p.0)),
                m == contexts@,
                self.state() == old(self).state(),
                self.analytics.symbol_distribution == old(self).analytics.symbol_distribution,
                contexts_captured(
                    self.strategy_analytics.metrics_by_trader@,
                    before,
                    m.restrict(
                        it.seq().map_values(|p: (&u64, &AgentContext)| *p.0).take(
                            it.index() as int,
                        ).to_set(),
                    ),
                    ts,
                ),
        {
            proof {
                lemma_iteration_in_key_order(contexts);
            }
            let ghost keys = it.seq().map_values(|p: (&u64, &AgentContext)| *p.0);
            let ghost i = it.index();
            let ghost prev = self.strategy_analytics.metrics_by_trader@;
            let (trader_id, ctx) = kv;
            proof {
                assert(m[keys[i as int]] == *it.seq()[i as int].1);
                assert(keys[i as int] == *trader_id);
            }
            self.strategy_analytics.record_context(ts, *trader_id, ctx);
            proof {
                let done = m.restrict(keys.take(i as int).to_set());
                let done2 = m.restrict(keys.take(i + 1).to_set());
                assert forall|x: u64|
                    keys.take(i + 1).to_set().contains(x) <==> keys.take(i as int).to_set().insert(
                        *trader_id,
                    ).contains(x) by {
                    if keys.take(i + 1).contains(x) {
                        let t1 = keys.take(i + 1);
                        let j = choose|j: int| 0 <= j < t1.len() && t1[j] == x;
                        if j < i {
                            assert(keys.take(i as int)[j] == x);
                        }
                    }
                    if keys.take(i as int).contains(x) {
                        let t0 = keys.take(i as int);
                        let j = choose|j: int| 0 <= j < t0.len() && t0[j] == x;
                        assert(keys.take(i + 1)[j] == x);
                    }
                    if x == *trader_id {
                        assert(keys.take(i + 1)[i as int] == x);
                    }
                }
                assert(keys.take(i + 1).to_set() =~= keys.take(i as int).to_set().insert(*trader_id));
                assert(!keys.take(i as int).to_set().contains(*trader_id)) by {
                    if keys.take(i as int).contains(*trader_id) {
                        let t0 = keys.take(i as int);
                        let j = choose|j: int| 0 <= j < t0.len() && t0[j] == *trader_id;
                        assert(keys[j] == keys[i as int]);
                    }
                }
                assert(done2 =~= done.insert(*trader_id, *ctx));
                let after = self.strategy_analytics.metrics_by_trader@;
                assert(after.dom() =~= before.dom().union(done2.dom()));
                assert forall|t: u64|
                    #[trigger] after.contains_key(t) && !done2.contains_key(t) implies after[t]
                    == before[t] by {
                    assert(prev.contains_key(t));
                }
                assert forall|t: u64|
                    #[trigger] done2.contains_key(t) && before.contains_key(t) implies sampled(
                    after[t],
                    before[t],
                    ts,
                    done2[t],
                ) by {
                    if t != *trader_id {
                        assert(done.contains_key(t));
                        assert(prev.contains_key(t));
                        assert(after[t] == prev[t]);
                        assert(done2[t] == done[t]);
                    } else {
                        assert(!done.contains_key(t));
                        assert(prev.contains_key(t));
                        assert(prev[t] == before[t]);
                        assert(done2[t] == *ctx);
                    }
                }
                assert forall|t: u64|
                    #[trigger] done2.contains_key(t) && !before.contains_key(t) implies sampled_fresh(
                    after[t],
                    ts,
                    done2[t],
                ) by {
                    if t != *trader_id {
                        assert(done.contains_key(t));
                        assert(prev.contains_key(t));
                        assert(after[t] == prev[t]);
                        assert(done2[t] == done[t]);
                    } else {
                        assert(!done.contains_key(t));
                        assert(!prev.contains_key(t));
                        assert(done2[t] == *ctx);
                    }
                }
            }
        }
        proof {
            lemma_iteration_in_key_order(contexts);
            let keys = spec_btree_map_iter(contexts).remaining().map_values(
                |p: (&u64, &AgentContext)| *p.0,
            );
            assert(keys.take(keys.len() as int) =~= keys);
            assert(m.restrict(keys.to_set()) =~= m);
        }
    }
}


/// The figures of an inspection that the range checks read.
#[derive(Clone, Copy)]
struct Tally {
    total_orders: u64,
    total_fills: u64,
    total_rejections: u64,
    maker_volume: u64,
    taker_volume: u64,
    cancel_count: u64,
    next_trace_id: u64,
    quality: ExecutionQualityMetrics,
}

impl Tally {
    spec fn matches(self, s: InspectionState) -> bool {
        &&& self.total_orders == s.counts.total_orders
        &&& self.total_fills == s.counts.total_fills
        &&& self.total_rejections == s.counts.total_rejections
        &&& self.maker_volume == s.counts.maker_volume
        &&& self.taker_volume == s.counts.taker_volume
        &&& self.cancel_count == s.counts.cancel_count
        &&& self.next_trace_id == s.next_trace_id
        &&& self.quality == s.quality
    }
}

/// Checks one book event against the ranges, and tallies it if it fits.
fn tally_event(
    t: Tally,
    order: &LimitOrderPlacedPayload,
    e: &BookEvent,
    best_bid: Option<i64>,
    best_ask: Option<i64>,
    Ghost(s): Ghost<InspectionState>,
    Ghost(sequence): Ghost<u64>,
) -> (r: Option<Tally>)
    requires
        t.matches(s),
    ensures
        r is Some <==> event_fits(s, sequence, order@, *e, best_bid, best_ask),
        r matches Some(t2) ==> t2.matches(event_step(s, sequence, order@, *e, best_bid, best_ask)),
{
    match e {
        BookEvent::TradeExecuted {
            matched_quantity,
            match_price,
            liquidity_side,
            initial_ahead_quantity,
            ..
        } => {
            let q = *matched_quantity;
            let p = *match_price;
            let fills = match t.total_fills.checked_add(1) {
                Some(v) => v,
                None => return None,
            };
            if *liquidity_side == LiquiditySide::Maker {
                let maker = match t.maker_volume.checked_add(q) {
                    Some(v) => v,
                    None => return None,
                };
                let passive = match t.quality.total_passive_quantity.checked_add(q) {
                    Some(v) => v,
                    None => return None,
                };
                let survived = match t.quality.total_queue_survived_quantity.checked_add(q) {
                    Some(v) => v,
                    None => return None,
                };
                let advanced = match t.quality.total_queue_advancement.checked_add(*initial_ahead_quantity) {
                    Some(v) => v,
                    None => return None,
                };
                Some(
                    Tally {
                        total_fills: fills,
                        maker_volume: maker,
                        quality: ExecutionQualityMetrics {
                            total_passive_quantity: passive,
                            total_queue_survived_quantity: survived,
                            total_queue_advancement: advanced,
                            ..t.quality
                        },
                        ..t
                    },
                )
            } else {
                let taker = match t.taker_volume.checked_add(q) {
                    Some(v) => v,
                    None => return None,
                };
                let next = match t.next_trace_id.checked_add(1) {
                    Some(v) => v,
                    None => return None,
                };
                let bid = match best_bid {
                    Some(b) => b,
                    None => p,
                };
                let ask = match best_ask {
                    Some(a) => a,
                    None => p,
                };
                let mid = match bid.checked_add(ask) {
                    Some(v) => v,
                    None => return None,
                };
                let aggressive = match t.quality.total_aggressive_quantity.checked_add(q) {
                    Some(v) => v,
                    None => return None,
                };
                let twice = match p.checked_add(p) {
                    Some(v) => v,
                    None => return None,
                };
                let diff = match twice.checked_sub(mid) {
                    Some(v) => v,
                    None => return None,
                };
                if diff == i64::MIN {
                    return None;
                }
                let spread: i64 = if diff < 0 {
                    -diff
                } else {
                    diff
                };
                let effective = match t.quality.total_effective_spread_x2.checked_add(spread as u64) {
                    Some(v) => v,
                    None => return None,
                };
                let realized = match t.quality.total_realized_spread_x2.checked_add(spread) {
                    Some(v) => v,
                    None => return None,
                };
                let samples = match t.quality.spread_samples.checked_add(1) {
                    Some(v) => v,
                    None => return None,
                };
                Some(
                    Tally {
                        total_fills: fills,
                        taker_volume: taker,
                        next_trace_id: next,
                        quality: ExecutionQualityMetrics {
                            total_aggressive_quantity: aggressive,
                            total_effective_spread_x2: effective,
                            total_realized_spread_x2: realized,
                            spread_samples: samples,
                            ..t.quality
                        },
                        ..t
                    },
                )
            }
        },
        BookEvent::Cancelled { .. } => {
            let cancels = match t.cancel_count.checked_add(1) {
                Some(v) => v,
                None => return None,
            };
            let next = match t.next_trace_id.checked_add(1) {
                Some(v) => v,
                None => return None,
            };
            let cancelled = match t.quality.total_cancelled_quantity.checked_add(order.quantity) {
                Some(v) => v,
                None => return None,
            };
            Some(
                Tally {
                    cancel_count: cancels,
                    next_trace_id: next,
                    quality: ExecutionQualityMetrics { total_cancelled_quantity: cancelled, ..t.quality },
                    ..t
                },
            )
        },
        BookEvent::Other => Some(t),
    }
}

impl ReplayInspector {
    /// Whether `record_placed_order` can record this order and outcome
    /// without any counter, the trace id or the symbol's tally leaving its range.
    pub fn fits_order(&self, sequence: u64, order: &LimitOrderPlacedPayload, outcome: &OrderOutcome) -> (ok: bool)
        ensures
            ok == (order_fits(self.state(), sequence, order@, *outcome) && symbol_tally(
                self.analytics.symbol_distribution.deep_view(),
                order.symbol@,
            ) < u64::MAX),
    {
        let tally_ok = match symbol_count(&self.analytics.symbol_distribution, &order.symbol) {
            Some(c) => c < u64::MAX,
            None => true,
        };
        let t0 = Tally {
            total_orders: self.analytics.total_orders,
            total_fills: self.analytics.total_fills,
            total_rejections: self.analytics.total_rejections,
            maker_volume: self.analytics.maker_volume,
            taker_volume: self.analytics.taker_volume,
            cancel_count: self.analytics.cancel_count,
            next_trace_id: self.timeline.next_trace_id,
            quality: self.execution_quality,
        };
        let ghost s0 = self.state();
        let ghost opened = accept_step(s0, sequence, order@);
        let orders = match t0.total_orders.checked_add(1) {
            Some(v) => v,
            None => return false,
        };
        let next = match t0.next_trace_id.checked_add(1) {
            Some(v) => v,
            None => return false,
        };
        let t1 = Tally { total_orders: orders, next_trace_id: next, ..t0 };
        assert(t1.matches(opened));
        match outcome {
            OrderOutcome::RiskRejected => {
                let rejections = t1.total_rejections.checked_add(1);
                let next2 = t1.next_trace_id.checked_add(1);
                tally_ok && rejections.is_some() && next2.is_some()
            },
            OrderOutcome::Booked { events, best_bid, best_ask, resting_orders } => {
                let mut t = t1;
                let mut i: usize = 0;
                while i < events.len()
                    invariant
                        i <= events@.len(),
                        order_fits(self.state(), sequence, order@, *outcome) ==> events_fit(
                            opened,
                            sequence,
                            order@,
                            events@,
                            *best_bid,
                            *best_ask,
                        ),
                        events_fit(opened, sequence, order@, events@.take(i as int), *best_bid, *best_ask),
                        t.matches(events_step(opened, sequence, order@, events@.take(i as int), *best_bid, *best_ask)),
                    decreases events@.len() - i,
                {
                    let ghost si = events_step(opened, sequence, order@, events@.take(i as int), *best_bid, *best_ask);
                    proof {
                        assert(events@.take(i + 1).drop_last() =~= events@.take(i as int));
                        assert(events@.take(i + 1).last() == events@[i as int]);
                    }
                    match tally_event(t, order, &events[i], *best_bid, *best_ask, Ghost(si), Ghost(sequence)) {
                        Some(t2) => {
                            t = t2;
                        },
                        None => {
                            proof {
                                lemma_events_fit_prefix_fails(opened, sequence, order@, events@, *best_bid, *best_ask, i + 1);
                            }
                            return false;
                        },
                    }
                    i = i + 1;
                }
                assert(events@.take(events@.len() as int) =~= events@);
                let next3 = t.next_trace_id.checked_add(1);
                tally_ok && next3.is_some()
            },
        }
    }
}

proof fn lemma_events_fit_prefix_fails(
    s: InspectionState,
    sequence: u64,
    o: PlacedOrderView,
    events: Seq<BookEvent>,
    best_bid: Option<i64>,
    best_ask: Option<i64>,
    i: int,
)
    requires
        0 <= i <= events.len(),
        !events_fit(s, sequence, o, events.take(i), best_bid, best_ask),
    ensures
        !events_fit(s, sequence, o, events, best_bid, best_ask),
{
    if events_fit(s, sequence, o, events, best_bid, best_ask) {
        lemma_events_fit_prefix(s, sequence, o, events, best_bid, best_ask, i);
    }
}

} // verus!
