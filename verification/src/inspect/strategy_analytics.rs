//! Per-trader strategy analytics: inventory and P&L over time.

use vstd::prelude::*;
use std::collections::BTreeMap;
use vstd::std_specs::btree::{increasing_seq, spec_btree_map_iter};
use vstd::std_specs::cmp::OrdSpec;
use vstd::std_specs::iter::IteratorSpec;
use crate::sorted::{lemma_sorted_ids_is, sorted_ids, strictly_increasing};

verus! {

broadcast use vstd::std_specs::btree::group_btree_axioms;

/// What a strategy's context reports at a point in time.
#[derive(Clone, Copy, Debug, Default, PartialEq, Eq, Structural)]
pub struct AgentContext {
    pub inventory: i64,
    pub realized_pnl: i64,
    pub unrealized_pnl: i64,
}

/// Inventory and P&L of one trader, keyed by timestamp, and its activity counts.
#[derive(Clone, Debug)]
pub struct StrategyAnalytics {
    pub inventory_series: BTreeMap<u64, i64>,
    pub realized_pnl_series: BTreeMap<u64, i64>,
    pub unrealized_pnl_series: BTreeMap<u64, i64>,
    pub average_quote_lifetime_ns: u64,
    pub total_fills: u64,
    pub total_cancellations: u64,
}

impl Default for StrategyAnalytics {
    /// No samples and no activity.
    fn default() -> (a: StrategyAnalytics)
        ensures
            a.inventory_series@ == Map::<u64, i64>::empty(),
            a.realized_pnl_series@ == Map::<u64, i64>::empty(),
            a.unrealized_pnl_series@ == Map::<u64, i64>::empty(),
            a.average_quote_lifetime_ns == 0,
            a.total_fills == 0,
            a.total_cancellations == 0,
    {
        StrategyAnalytics {
            inventory_series: BTreeMap::new(),
            realized_pnl_series: BTreeMap::new(),
            unrealized_pnl_series: BTreeMap::new(),
            average_quote_lifetime_ns: 0,
            total_fills: 0,
            total_cancellations: 0,
        }
    }
}

/// Strategy analytics of every trader seen, keyed by trader id.
pub struct StrategyAnalyticsCollector {
    pub metrics_by_trader: BTreeMap<u64, StrategyAnalytics>,
}

impl Default for StrategyAnalyticsCollector {
    /// A collector that has seen no trader.
    fn default() -> (c: StrategyAnalyticsCollector)
        ensures
            c.metrics_by_trader@ == Map::<u64, StrategyAnalytics>::empty(),
    {
        Self::new()
    }
}

impl StrategyAnalyticsCollector {
    /// A collector that has seen no trader.
    pub fn new() -> (c: StrategyAnalyticsCollector)
        ensures
            c.metrics_by_trader@ == Map::<u64, StrategyAnalytics>::empty(),
    {
        StrategyAnalyticsCollector { metrics_by_trader: BTreeMap::new() }
    }

    /// Samples a trader's context at a timestamp: its inventory, realized and
    /// unrealized P&L are recorded under that timestamp (replacing any sample
    /// already there). A trader seen for the first time starts from empty
    /// analytics; the other traders are untouched.
    pub fn record_context(&mut self, timestamp_ns: u64, trader_id: u64, ctx: &AgentContext)
        ensures
            final(self).metrics_by_trader@.dom() == old(self).metrics_by_trader@.dom().insert(trader_id),
            forall|t: u64|
                t != trader_id && #[trigger] old(self).metrics_by_trader@.contains_key(t)
                    ==> final(self).metrics_by_trader@[t] == old(self).metrics_by_trader@[t],
            old(self).metrics_by_trader@.contains_key(trader_id) ==> sampled(
                final(self).metrics_by_trader@[trader_id],
                old(self).metrics_by_trader@[trader_id],
                timestamp_ns,
                *ctx,
            ),
            !old(self).metrics_by_trader@.contains_key(trader_id) ==> sampled_fresh(
                final(self).metrics_by_trader@[trader_id],
                timestamp_ns,
                *ctx,
            ),
    {
        let mut metrics = match self.metrics_by_trader.remove(&trader_id) {
            Some(m) => m,
            None => StrategyAnalytics::default(),
        };
        metrics.inventory_series.insert(timestamp_ns, ctx.inventory);
        metrics.realized_pnl_series.insert(timestamp_ns, ctx.realized_pnl);
        metrics.unrealized_pnl_series.insert(timestamp_ns, ctx.unrealized_pnl);
        self.metrics_by_trader.insert(trader_id, metrics);
        assert(self.metrics_by_trader@.dom() =~= old(self).metrics_by_trader@.dom().insert(trader_id));
    }
}

/// `after` is `before` with one more sample of `ctx` at `ts`.
pub open spec fn sampled(after: StrategyAnalytics, before: StrategyAnalytics, ts: u64, ctx: AgentContext) -> bool {
    &&& after.inventory_series@ == before.inventory_series@.insert(ts, ctx.inventory)
    &&& after.realized_pnl_series@ == before.realized_pnl_series@.insert(ts, ctx.realized_pnl)
    &&& after.unrealized_pnl_series@ == before.unrealized_pnl_series@.insert(ts, ctx.unrealized_pnl)
    &&& after.average_quote_lifetime_ns == before.average_quote_lifetime_ns
    &&& after.total_fills == before.total_fills
    &&& after.total_cancellations == before.total_cancellations
}

/// `after` holds exactly one sample, of `ctx` at `ts`, and no activity.
pub open spec fn sampled_fresh(after: StrategyAnalytics, ts: u64, ctx: AgentContext) -> bool {
    &&& after.inventory_series@ == Map::<u64, i64>::empty().insert(ts, ctx.inventory)
    &&& after.realized_pnl_series@ == Map::<u64, i64>::empty().insert(ts, ctx.realized_pnl)
    &&& after.unrealized_pnl_series@ == Map::<u64, i64>::empty().insert(ts, ctx.unrealized_pnl)
    &&& after.average_quote_lifetime_ns == 0
    &&& after.total_fills == 0
    &&& after.total_cancellations == 0
}

/// A walk of a map of `u64` keys in increasing key order (which `iter`
/// promises) visits each key once, with its value: its keys are the
/// sorted listing of the map's keys.
pub proof fn lemma_iteration_in_key_order<V>(m: &BTreeMap<u64, V>)
    requires
        increasing_seq(spec_btree_map_iter(m).remaining().map_values(|kv: (&u64, &V)| *kv.0)),
    ensures
        spec_btree_map_iter(m).remaining().map_values(|kv: (&u64, &V)| *kv.0) == sorted_ids(
            m@.dom(),
        ),
        spec_btree_map_iter(m).remaining().map_values(|kv: (&u64, &V)| *kv.0).to_set() == m@.dom(),
        strictly_increasing(spec_btree_map_iter(m).remaining().map_values(|kv: (&u64, &V)| *kv.0)),
        spec_btree_map_iter(m).remaining().len() == m@.dom().len(),
        forall|i: int|
            0 <= i < spec_btree_map_iter(m).remaining().len() ==> m@.contains_key(
                *#[trigger] spec_btree_map_iter(m).remaining()[i].0,
            ) && m@[*spec_btree_map_iter(m).remaining()[i].0] == *spec_btree_map_iter(
                m,
            ).remaining()[i].1,
{
    let r = spec_btree_map_iter(m).remaining();
    let ks = r.map_values(|kv: (&u64, &V)| *kv.0);
    assert(increasing_seq(ks));
    assert(strictly_increasing(ks)) by {
        assert forall|i: int, j: int| 0 <= i < j < ks.len() implies ks[i] < ks[j] by {
            assert(ks[i].cmp_spec(&ks[j]) is Less);
        }
    }
    assert forall|k: u64| ks.to_set().contains(k) <==> m@.dom().contains(k) by {
        if ks.contains(k) {
            let i = choose|i: int| 0 <= i < ks.len() && ks[i] == k;
            assert(m@.contains_key(*r[i].0));
        }
        if m@.contains_key(k) {
            assert(r.contains((&k, &m@[k])));
            let i = choose|i: int| 0 <= i < r.len() && r[i] == (&k, &m@[k]);
            assert(ks[i] == k);
        }
    }
    assert(ks.to_set() =~= m@.dom());
    lemma_sorted_ids_is(ks);
}

} // verus!
