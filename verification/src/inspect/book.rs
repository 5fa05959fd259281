//! The resting liquidity of an order book as the depth views read it: each
//! side's price levels in ascending price order, each level's orders in
//! queue order.

use vstd::prelude::*;
use crate::text::{dec, dec_int};

verus! {

/// An order resting in a price level's queue.
#[derive(Clone, Copy, Debug, PartialEq, Eq, Structural)]
pub struct RestingOrder {
    pub trader_id: u64,
    pub remaining_quantity: u64,
}

/// All orders resting at one price, in queue order.
#[derive(Clone, Debug)]
pub struct PriceLevel {
    pub price: i64,
    pub orders: Vec<RestingOrder>,
}

/// The two sides of a book, each as its price levels in ascending price
/// order: the best ask is the first ask level, the best bid the last bid level.
#[derive(Clone, Debug)]
pub struct BookDepth {
    pub asks: Vec<PriceLevel>,
    pub bids: Vec<PriceLevel>,
}

/// The book of one symbol at a venue.
#[derive(Clone, Debug)]
pub struct SymbolBook {
    pub symbol: String,
    pub book: BookDepth,
}

/// A venue and the books it holds, one per symbol.
#[derive(Clone, Debug)]
pub struct VenueLiquidity {
    pub venue_id: u64,
    pub books: Vec<SymbolBook>,
}

/// The total remaining quantity of a queue of orders.
pub open spec fn queue_total(orders: Seq<RestingOrder>) -> nat
    decreases orders.len(),
{
    if orders.len() == 0 {
        0
    } else {
        queue_total(orders.drop_last()) + orders.last().remaining_quantity as nat
    }
}

/// A prefix of a queue holds no more than the whole queue.
pub proof fn lemma_queue_total_prefix(orders: Seq<RestingOrder>, i: int)
    requires
        0 <= i <= orders.len(),
    ensures
        queue_total(orders.take(i)) <= queue_total(orders),
    decreases orders.len() - i,
{
    if i < orders.len() {
        lemma_queue_total_prefix(orders, i + 1);
        assert(orders.take(i + 1).drop_last() =~= orders.take(i));
    } else {
        assert(orders.take(i) =~= orders);
    }
}

/// `n` hash marks.
pub open spec fn hashes(n: nat) -> Seq<char>
    decreases n,
{
    if n == 0 {
        Seq::empty()
    } else {
        hashes((n - 1) as nat).push('#')
    }
}

/// The queue entry of one order: `[T<trader>:<remaining>] `.
pub open spec fn order_tag(o: RestingOrder) -> Seq<char> {
    "[T"@ + dec(o.trader_id as nat) + ":"@ + dec(o.remaining_quantity as nat) + "] "@
}

/// The queue entries of a level's orders, in queue order.
pub open spec fn queue_text(orders: Seq<RestingOrder>) -> Seq<char>
    decreases orders.len(),
{
    if orders.len() == 0 {
        Seq::empty()
    } else {
        queue_text(orders.drop_last()) + order_tag(orders.last())
    }
}

/// The smaller of `n` and ten: the length of a level's depth bar.
pub open spec fn bar_len(n: nat) -> nat {
    if n < 10 {
        n
    } else {
        10
    }
}

/// One line of the depth view: the price, a bar of up to ten hash marks,
/// the level's total quantity and its queue.
pub open spec fn level_line(price: i64, orders: Seq<RestingOrder>) -> Seq<char> {
    dec_int(price as int) + " | "@ + hashes(bar_len(queue_total(orders))) + "("@ + dec(
        queue_total(orders),
    ) + ") | Q: "@ + queue_text(orders) + "\n"@
}

/// The lines of the given levels from the last (highest price) to the first.
pub open spec fn levels_descending(levels: Seq<PriceLevel>) -> Seq<char>
    decreases levels.len(),
{
    if levels.len() == 0 {
        Seq::empty()
    } else {
        level_line(levels.last().price, levels.last().orders@) + levels_descending(
            levels.drop_last(),
        )
    }
}

/// Every level's total quantity fits in a `u64`.
pub open spec fn level_totals_fit(levels: Seq<PriceLevel>) -> bool {
    forall|i: int| 0 <= i < levels.len() ==> queue_total(#[trigger] levels[i].orders@) <= u64::MAX
}

/// The spread line: best ask minus best bid when both sides hold a level,
/// `INF` otherwise.
pub open spec fn spread_text(asks: Seq<PriceLevel>, bids: Seq<PriceLevel>) -> Seq<char> {
    if asks.len() > 0 && bids.len() > 0 {
        "\nSPREAD = "@ + dec_int(asks[0].price - bids.last().price) + "\n\n"@
    } else {
        "\nSPREAD = INF\n\n"@
    }
}

/// Each level's price is below the next one's: prices ascend and none repeats.
pub open spec fn prices_ascending(levels: Seq<PriceLevel>) -> bool {
    forall|i: int, j: int| 0 <= i < j < levels.len() ==> levels[i].price < levels[j].price
}

/// No two of a venue's books are held under the same symbol.
pub open spec fn symbols_distinct(books: Seq<SymbolBook>) -> bool {
    forall|i: int, j: int| 0 <= i < j < books.len() ==> books[i].symbol@ != books[j].symbol@
}

impl BookDepth {
    /// Both sides hold their levels in ascending price order, each price once,
    /// as a book keeps them: the best ask is the first ask level and the best
    /// bid the last bid level.
    pub open spec fn well_formed(&self) -> bool {
        &&& prices_ascending(self.asks@)
        &&& prices_ascending(self.bids@)
    }

    /// The depth view can be drawn: the book is well formed, every level's
    /// total fits in a `u64`, and the spread, where there is one, fits in an `i64`.
    pub open spec fn renderable(&self) -> bool {
        &&& self.well_formed()
        &&& level_totals_fit(self.asks@)
        &&& level_totals_fit(self.bids@)
        &&& (self.asks@.len() > 0 && self.bids@.len() > 0) ==> i64::MIN <= self.asks@[0].price
            - self.bids@.last().price <= i64::MAX
    }

    /// The depth view: the asks from the highest price down to the best ask,
    /// the spread, then the bids from the best bid down.
    pub open spec fn ascii_view(&self) -> Seq<char> {
        "ASKS\n"@ + levels_descending(self.asks@) + spread_text(self.asks@, self.bids@)
            + levels_descending(self.bids@) + "BIDS\n"@
    }
}

/// The book for `symbol` among a venue's books: the one held under that
/// symbol (the first one, should several be).
pub open spec fn book_for(books: Seq<SymbolBook>, symbol: Seq<char>) -> Option<BookDepth>
    decreases books.len(),
{
    if books.len() == 0 {
        None
    } else if books[0].symbol@ == symbol {
        Some(books[0].book)
    } else {
        book_for(books.drop_first(), symbol)
    }
}


/// The lines of the given levels, first level first.
pub open spec fn levels_in_order(levels: Seq<PriceLevel>) -> Seq<char>
    decreases levels.len(),
{
    if levels.len() == 0 {
        Seq::empty()
    } else {
        level_line(levels[0].price, levels[0].orders@) + levels_in_order(levels.drop_first())
    }
}

/// Each level's price is above the next one's.
pub open spec fn prices_descending(levels: Seq<PriceLevel>) -> bool {
    forall|i: int, j: int| 0 <= i < j < levels.len() ==> levels[i].price > levels[j].price
}

/// A side of a well-formed book is drawn from its highest price down: the
/// depth lines are those of the levels taken in descending price order.
pub proof fn law_depth_lines_descend_in_price(levels: Seq<PriceLevel>)
    requires
        prices_ascending(levels),
    ensures
        prices_descending(levels.reverse()),
        levels_descending(levels) == levels_in_order(levels.reverse()),
    decreases levels.len(),
{
    assert forall|i: int, j: int| 0 <= i < j < levels.reverse().len() implies levels.reverse()[i].price
        > levels.reverse()[j].price by {
        assert(levels.reverse()[i] == levels[levels.len() - 1 - i]);
        assert(levels.reverse()[j] == levels[levels.len() - 1 - j]);
    }
    if levels.len() > 0 {
        let rest = levels.drop_last();
        assert(prices_ascending(rest));
        law_depth_lines_descend_in_price(rest);
        assert(levels.reverse() =~= seq![levels.last()] + rest.reverse());
        assert(levels.reverse().drop_first() =~= rest.reverse());
        assert(levels.reverse()[0] == levels.last());
    }
}

} // verus!
