//! The replay timeline: every accepted order, fill, book update, rejection
//! and cancellation observed during a replay, tagged with a trace id.

use vstd::prelude::*;
use vstd::string::StringExecFns;
use crate::text::{dec, dec_int, pad_right, push_i64, push_u64, push_u64_padded5};

verus! {

/// Which side of a trade an order was on: resting (maker) or incoming (taker).
#[derive(Clone, Copy, Debug, PartialEq, Eq, Structural)]
pub enum LiquiditySide {
    Maker,
    Taker,
}

/// One entry of the replay timeline.
#[derive(Clone, Debug, PartialEq, Eq)]
pub enum TimelineEvent {
    Accepted {
        execution_trace_id: u64,
        sequence: u64,
        trader_id: u64,
        symbol: String,
        side: String,
        quantity: u64,
        price: i64,
    },
    Fill {
        execution_trace_id: u64,
        sequence: u64,
        maker_trader_id: u64,
        taker_trader_id: u64,
        symbol: String,
        quantity: u64,
        price: i64,
        liquidity_side: LiquiditySide,
    },
    Update { execution_trace_id: u64, sequence: u64, symbol: String, queue_depth: usize },
    Reject { execution_trace_id: u64, sequence: u64, trader_id: u64, reason: String },
    Cancel { execution_trace_id: u64, sequence: u64, trader_id: u64, symbol: String },
}

/// A timeline entry with its texts as characters.
pub enum TimelineEntry {
    Accepted {
        execution_trace_id: u64,
        sequence: u64,
        trader_id: u64,
        symbol: Seq<char>,
        side: Seq<char>,
        quantity: u64,
        price: i64,
    },
    Fill {
        execution_trace_id: u64,
        sequence: u64,
        maker_trader_id: u64,
        taker_trader_id: u64,
        symbol: Seq<char>,
        quantity: u64,
        price: i64,
        liquidity_side: LiquiditySide,
    },
    Update { execution_trace_id: u64, sequence: u64, symbol: Seq<char>, queue_depth: usize },
    Reject { execution_trace_id: u64, sequence: u64, trader_id: u64, reason: Seq<char> },
    Cancel { execution_trace_id: u64, sequence: u64, trader_id: u64, symbol: Seq<char> },
}

impl View for TimelineEvent {
    type V = TimelineEntry;

    open spec fn view(&self) -> TimelineEntry {
        match *self {
            TimelineEvent::Accepted {
                execution_trace_id,
                sequence,
                trader_id,
                symbol,
                side,
                quantity,
                price,
            } => TimelineEntry::Accepted {
                execution_trace_id,
                sequence,
                trader_id,
                symbol: symbol@,
                side: side@,
                quantity,
                price,
            },
            TimelineEvent::Fill {
                execution_trace_id,
                sequence,
                maker_trader_id,
                taker_trader_id,
                symbol,
                quantity,
                price,
                liquidity_side,
            } => TimelineEntry::Fill {
                execution_trace_id,
                sequence,
                maker_trader_id,
                taker_trader_id,
                symbol: symbol@,
                quantity,
                price,
                liquidity_side,
            },
            TimelineEvent::Update { execution_trace_id, sequence, symbol, queue_depth } =>
                TimelineEntry::Update { execution_trace_id, sequence, symbol: symbol@, queue_depth },
            TimelineEvent::Reject { execution_trace_id, sequence, trader_id, reason } =>
                TimelineEntry::Reject { execution_trace_id, sequence, trader_id, reason: reason@ },
            TimelineEvent::Cancel { execution_trace_id, sequence, trader_id, symbol } =>
                TimelineEntry::Cancel { execution_trace_id, sequence, trader_id, symbol: symbol@ },
        }
    }
}

/// The trace id of an entry.
pub open spec fn entry_trace_id(e: TimelineEntry) -> u64 {
    match e {
        TimelineEntry::Accepted { execution_trace_id, .. } => execution_trace_id,
        TimelineEntry::Fill { execution_trace_id, .. } => execution_trace_id,
        TimelineEntry::Update { execution_trace_id, .. } => execution_trace_id,
        TimelineEntry::Reject { execution_trace_id, .. } => execution_trace_id,
        TimelineEntry::Cancel { execution_trace_id, .. } => execution_trace_id,
    }
}

/// The entries of a timeline, with their texts as characters.
pub open spec fn timeline_entries(events: Seq<TimelineEvent>) -> Seq<TimelineEntry> {
    events.map_values(|e: TimelineEvent| e@)
}

/// The timeline entries in order, and the trace id the next entry will get.
#[derive(Clone, Debug)]
pub struct ReplayTimeline {
    pub events: Vec<TimelineEvent>,
    pub next_trace_id: u64,
}

impl ReplayTimeline {
    /// An empty timeline whose first trace id is 1.
    pub fn new() -> (t: ReplayTimeline)
        ensures
            t.events@.len() == 0,
            t.next_trace_id == 1,
    {
        ReplayTimeline { events: Vec::new(), next_trace_id: 1 }
    }

    /// Hands out the next trace id and advances the counter.
    pub fn next_trace_id(&mut self) -> (id: u64)
        requires
            old(self).next_trace_id < u64::MAX,
        ensures
            id == old(self).next_trace_id,
            final(self).next_trace_id == old(self).next_trace_id + 1,
            final(self).events@ == old(self).events@,
    {
        let id = self.next_trace_id;
        self.next_trace_id += 1;
        id
    }

    /// Appends an accepted order.
    pub fn record_accepted(
        &mut self,
        execution_trace_id: u64,
        sequence: u64,
        trader_id: u64,
        symbol: String,
        side: String,
        quantity: u64,
        price: i64,
    )
        ensures
            final(self).next_trace_id == old(self).next_trace_id,
            final(self).events@ == old(self).events@.push(
                TimelineEvent::Accepted {
                    execution_trace_id,
                    sequence,
                    trader_id,
                    symbol,
                    side,
                    quantity,
                    price,
                },
            ),
    {
        self.events.push(
            TimelineEvent::Accepted {
                execution_trace_id,
                sequence,
                trader_id,
                symbol,
                side,
                quantity,
                price,
            },
        );
    }

    /// Appends a fill.
    pub fn record_fill(
        &mut self,
        execution_trace_id: u64,
        sequence: u64,
        maker_trader_id: u64,
        taker_trader_id: u64,
        symbol: String,
        quantity: u64,
        price: i64,
        liquidity_side: LiquiditySide,
    )
        ensures
            final(self).next_trace_id == old(self).next_trace_id,
            final(self).events@ == old(self).events@.push(
                TimelineEvent::Fill {
                    execution_trace_id,
                    sequence,
                    maker_trader_id,
                    taker_trader_id,
                    symbol,
                    quantity,
                    price,
                    liquidity_side,
                },
            ),
    {
        self.events.push(
            TimelineEvent::Fill {
                execution_trace_id,
                sequence,
                maker_trader_id,
                taker_trader_id,
                symbol,
                quantity,
                price,
                liquidity_side,
            },
        );
    }

    /// Appends a book update with the depth of the queue after it.
    pub fn record_update(
        &mut self,
        execution_trace_id: u64,
        sequence: u64,
        symbol: String,
        queue_depth: usize,
    )
        ensures
            final(self).next_trace_id == old(self).next_trace_id,
            final(self).events@ == old(self).events@.push(
                TimelineEvent::Update { execution_trace_id, sequence, symbol, queue_depth },
            ),
    {
        self.events.push(TimelineEvent::Update { execution_trace_id, sequence, symbol, queue_depth });
    }

    /// Appends a rejection and its reason.
    pub fn record_reject(&mut self, execution_trace_id: u64, sequence: u64, trader_id: u64, reason: String)
        ensures
            final(self).next_trace_id == old(self).next_trace_id,
            final(self).events@ == old(self).events@.push(
                TimelineEvent::Reject { execution_trace_id, sequence, trader_id, reason },
            ),
    {
        self.events.push(TimelineEvent::Reject { execution_trace_id, sequence, trader_id, reason });
    }

    /// Appends a cancellation.
    pub fn record_cancel(&mut self, execution_trace_id: u64, sequence: u64, trader_id: u64, symbol: String)
        ensures
            final(self).next_trace_id == old(self).next_trace_id,
            final(self).events@ == old(self).events@.push(
                TimelineEvent::Cancel { execution_trace_id, sequence, trader_id, symbol },
            ),
    {
        self.events.push(TimelineEvent::Cancel { execution_trace_id, sequence, trader_id, symbol });
    }

    /// Appends the ASCII rendering of the timeline, one line per entry
    /// (maker-side fills are left out so that each trade shows once).
    pub fn export_ascii_timeline(&self, out: &mut String)
        ensures
            final(out)@ == old(out)@ + ascii_timeline(self.events@),
    {
        let ghost start = out@;
        let mut i: usize = 0;
        while i < self.events.len()
            invariant
                i <= self.events@.len(),
                out@ == start + ascii_timeline(self.events@.subrange(0, i as int)),
            decreases self.events@.len() - i,
        {
            write_ascii_line(out, &self.events[i]);
            proof {
                let s = self.events@.subrange(0, i + 1);
                assert(s.drop_last() =~= self.events@.subrange(0, i as int));
            }
            i = i + 1;
        }
        assert(self.events@.subrange(0, self.events@.len() as int) =~= self.events@);
    }
}

/// The prefix every ASCII line starts with: the trace id in a five-wide field and the sequence.
pub open spec fn ascii_prefix(execution_trace_id: u64, sequence: u64) -> Seq<char> {
    "TRACE "@ + pad_right(dec(execution_trace_id as nat), 5) + " | SEQ "@ + dec(sequence as nat)
}

/// The ASCII line of an accepted order.
pub open spec fn ascii_accepted(
    execution_trace_id: u64,
    sequence: u64,
    trader_id: u64,
    symbol: Seq<char>,
    side: Seq<char>,
    quantity: u64,
    price: i64,
) -> Seq<char> {
    ascii_prefix(execution_trace_id, sequence) + " | ACCEPT | trader="@ + dec(trader_id as nat)
        + " | "@ + symbol + " | "@ + side + " "@ + dec(quantity as nat) + " @ "@ + dec_int(
        price as int,
    ) + "\n"@
}

/// The ASCII line of a taker-side fill.
pub open spec fn ascii_fill(
    execution_trace_id: u64,
    sequence: u64,
    maker_trader_id: u64,
    taker_trader_id: u64,
    quantity: u64,
    price: i64,
) -> Seq<char> {
    ascii_prefix(execution_trace_id, sequence) + " | FILL   | maker="@ + dec(maker_trader_id as nat)
        + " taker="@ + dec(taker_trader_id as nat) + " qty="@ + dec(quantity as nat) + " px="@
        + dec_int(price as int) + "\n"@
}

/// The ASCII line of one timeline entry; empty for a maker-side fill.
pub open spec fn ascii_line(e: TimelineEvent) -> Seq<char> {
    match e {
        TimelineEvent::Accepted {
            execution_trace_id,
            sequence,
            trader_id,
            symbol,
            side,
            quantity,
            price,
        } => ascii_accepted(
            execution_trace_id,
            sequence,
            trader_id,
            symbol@,
            side@,
            quantity,
            price,
        ),
        TimelineEvent::Fill {
            execution_trace_id,
            sequence,
            maker_trader_id,
            taker_trader_id,
            symbol,
            quantity,
            price,
            liquidity_side,
        } => if liquidity_side == LiquiditySide::Taker {
            ascii_fill(execution_trace_id, sequence, maker_trader_id, taker_trader_id, quantity, price)
        } else {
            Seq::empty()
        },
        TimelineEvent::Update { execution_trace_id, sequence, symbol, queue_depth } => ascii_prefix(
            execution_trace_id,
            sequence,
        ) + " | UPDATE | queue_depth="@ + dec(queue_depth as nat) + "\n"@,
        TimelineEvent::Reject { execution_trace_id, sequence, trader_id, reason } => ascii_prefix(
            execution_trace_id,
            sequence,
        ) + " | REJECT | "@ + reason@ + "\n"@,
        TimelineEvent::Cancel { execution_trace_id, sequence, trader_id, symbol } => ascii_prefix(
            execution_trace_id,
            sequence,
        ) + " | CANCEL | trader="@ + dec(trader_id as nat) + " | "@ + symbol@ + "\n"@,
    }
}

/// The ASCII rendering of a sequence of timeline entries: their lines in order.
pub open spec fn ascii_timeline(events: Seq<TimelineEvent>) -> Seq<char>
    decreases events.len(),
{
    if events.len() == 0 {
        Seq::empty()
    } else {
        ascii_timeline(events.drop_last()) + ascii_line(events.last())
    }
}

fn write_ascii_prefix(out: &mut String, execution_trace_id: u64, sequence: u64)
    ensures
        final(out)@ == old(out)@ + ascii_prefix(execution_trace_id, sequence),
{
    out.append("TRACE ");
    push_u64_padded5(out, execution_trace_id);
    out.append(" | SEQ ");
    push_u64(out, sequence);
}

fn write_ascii_accepted(
    out: &mut String,
    execution_trace_id: u64,
    sequence: u64,
    trader_id: u64,
    symbol: &String,
    side: &String,
    quantity: u64,
    price: i64,
)
    ensures
        final(out)@ == old(out)@ + ascii_accepted(
            execution_trace_id,
            sequence,
            trader_id,
            symbol@,
            side@,
            quantity,
            price,
        ),
{
    write_ascii_prefix(out, execution_trace_id, sequence);
    out.append(" | ACCEPT | trader=");
    push_u64(out, trader_id);
    out.append(" | ");
    out.append(symbol.as_str());
    out.append(" | ");
    out.append(side.as_str());
    out.append(" ");
    push_u64(out, quantity);
    out.append(" @ ");
    push_i64(out, price);
    out.append("\n");
}

fn write_ascii_fill(
    out: &mut String,
    execution_trace_id: u64,
    sequence: u64,
    maker_trader_id: u64,
    taker_trader_id: u64,
    quantity: u64,
    price: i64,
)
    ensures
        final(out)@ == old(out)@ + ascii_fill(
            execution_trace_id,
            sequence,
            maker_trader_id,
            taker_trader_id,
            quantity,
            price,
        ),
{
    write_ascii_prefix(out, execution_trace_id, sequence);
    out.append(" | FILL   | maker=");
    push_u64(out, maker_trader_id);
    out.append(" taker=");
    push_u64(out, taker_trader_id);
    out.append(" qty=");
    push_u64(out, quantity);
    out.append(" px=");
    push_i64(out, price);
    out.append("\n");
}

fn write_ascii_line(out: &mut String, e: &TimelineEvent)
    ensures
        final(out)@ == old(out)@ + ascii_line(*e),
{
    match e {
        TimelineEvent::Accepted {
            execution_trace_id,
            sequence,
            trader_id,
            symbol,
            side,
            quantity,
            price,
        } => {
            write_ascii_accepted(
                out,
                *execution_trace_id,
                *sequence,
                *trader_id,
                symbol,
                side,
                *quantity,
                *price,
            );
        },
        TimelineEvent::Fill {
            execution_trace_id,
            sequence,
            maker_trader_id,
            taker_trader_id,
            symbol: _,
            quantity,
            price,
            liquidity_side,
        } => {
            if *liquidity_side == LiquiditySide::Taker {
                write_ascii_fill(
                    out,
                    *execution_trace_id,
                    *sequence,
                    *maker_trader_id,
                    *taker_trader_id,
                    *quantity,
                    *price,
                );
            } else {
                assert(out@ =~= old(out)@ + ascii_line(*e));
            }
        },
        TimelineEvent::Update { execution_trace_id, sequence, symbol: _, queue_depth } => {
            write_ascii_prefix(out, *execution_trace_id, *sequence);
            out.append(" | UPDATE | queue_depth=");
            push_u64(out, *queue_depth as u64);
            out.append("\n");
        },
        TimelineEvent::Reject { execution_trace_id, sequence, trader_id: _, reason } => {
            write_ascii_prefix(out, *execution_trace_id, *sequence);
            out.append(" | REJECT | ");
            out.append(reason.as_str());
            out.append("\n");
        },
        TimelineEvent::Cancel { execution_trace_id, sequence, trader_id, symbol } => {
            write_ascii_prefix(out, *execution_trace_id, *sequence);
            out.append(" | CANCEL | trader=");
            push_u64(out, *trader_id);
            out.append(" | ");
            out.append(symbol.as_str());
            out.append("\n");
        },
    }
}

} // verus!
