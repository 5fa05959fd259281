//! Execution-quality metrics: passive versus aggressive fills, cancels,
//! queue advancement, and effective and realized spreads. Midpoints are
//! carried doubled ("scaled") so that every quantity stays an integer.

use vstd::prelude::*;
use crate::inspect::analytics::{lemma_ppm_ratio_at_most_one, ppm, ppm_ratio};

verus! {

/// Cumulative execution-quality counters.
#[derive(Clone, Copy, Debug, Default, PartialEq, Eq, Structural)]
pub struct ExecutionQualityMetrics {
    pub total_passive_quantity: u64,
    pub total_aggressive_quantity: u64,
    pub total_cancelled_quantity: u64,
    /// Quantity that reached the front of its queue and executed.
    pub total_queue_survived_quantity: u64,
    /// Cumulative queue positions advanced.
    pub total_queue_advancement: u64,
    /// Sum of doubled effective spreads of aggressive fills.
    pub total_effective_spread_x2: u64,
    /// Sum of doubled realized spreads of aggressive fills.
    pub total_realized_spread_x2: i64,
    pub spread_samples: u64,
}

/// Metrics with every counter zero.
pub open spec fn zero_metrics() -> ExecutionQualityMetrics {
    ExecutionQualityMetrics {
        total_passive_quantity: 0,
        total_aggressive_quantity: 0,
        total_cancelled_quantity: 0,
        total_queue_survived_quantity: 0,
        total_queue_advancement: 0,
        total_effective_spread_x2: 0,
        total_realized_spread_x2: 0,
        spread_samples: 0,
    }
}

/// Absolute value.
pub open spec fn abs(x: int) -> int {
    if x < 0 {
        -x
    } else {
        x
    }
}

/// The doubled spread of a trade at `price` against a doubled midpoint:
/// `|2 * price - scaled_midpoint|`.
pub open spec fn spread_x2(price: i64, scaled_midpoint: i64) -> int {
    abs(2 * price - scaled_midpoint)
}

/// Whether recording a fill stays within the counters' ranges (the
/// arithmetic of `record_fill` does not overflow).
pub open spec fn fill_fits(
    m: ExecutionQualityMetrics,
    is_passive: bool,
    quantity: u64,
    match_price: i64,
    scaled_midpoint: i64,
    post_trade_scaled_midpoint: i64,
) -> bool {
    if is_passive {
        m.total_passive_quantity + quantity <= u64::MAX
    } else {
        &&& m.total_aggressive_quantity + quantity <= u64::MAX
        &&& i64::MIN <= 2 * match_price <= i64::MAX
        &&& i64::MIN < 2 * match_price - scaled_midpoint <= i64::MAX
        &&& i64::MIN < 2 * match_price - post_trade_scaled_midpoint <= i64::MAX
        &&& m.total_effective_spread_x2 + spread_x2(match_price, scaled_midpoint) <= u64::MAX
        &&& m.total_realized_spread_x2 + spread_x2(match_price, post_trade_scaled_midpoint)
            <= i64::MAX
        &&& m.spread_samples + 1 <= u64::MAX
    }
}

/// The counters after recording a fill.
pub open spec fn after_fill(
    m: ExecutionQualityMetrics,
    is_passive: bool,
    quantity: u64,
    match_price: i64,
    scaled_midpoint: i64,
    post_trade_scaled_midpoint: i64,
) -> ExecutionQualityMetrics {
    if is_passive {
        ExecutionQualityMetrics {
            total_passive_quantity: (m.total_passive_quantity + quantity) as u64,
            ..m
        }
    } else {
        ExecutionQualityMetrics {
            total_aggressive_quantity: (m.total_aggressive_quantity + quantity) as u64,
            total_effective_spread_x2: (m.total_effective_spread_x2 + spread_x2(
                match_price,
                scaled_midpoint,
            )) as u64,
            total_realized_spread_x2: (m.total_realized_spread_x2 + spread_x2(
                match_price,
                post_trade_scaled_midpoint,
            )) as i64,
            spread_samples: (m.spread_samples + 1) as u64,
            ..m
        }
    }
}

/// Integer division truncating toward zero, as Rust's `/` on signed integers.
pub open spec fn truncating_div(a: int, b: int) -> int {
    if a >= 0 {
        a / b
    } else {
        -((-a) / b)
    }
}

proof fn lemma_truncating_div_fits(a: i64, b: i64)
    requires
        b != 0,
        !(a == i64::MIN && b == -1),
    ensures
        i64::MIN <= truncating_div(a as int, b as int) <= i64::MAX,
{
    let x: int = if a >= 0 { a as int } else { -(a as int) };
    assert(0 <= x <= 0x8000_0000_0000_0000);
    if b > 0 {
        assert(0 <= x / (b as int) <= x) by (nonlinear_arith)
            requires
                x >= 0,
                b > 0,
        ;
    } else if b == -1 {
        assert(x / (b as int) == -x) by (nonlinear_arith)
            requires
                b == -1,
        ;
    } else {
        assert(-x <= x / (b as int) <= 0) by (nonlinear_arith)
            requires
                x >= 0,
                b < -1,
        ;
        assert(x / (b as int) >= -(x / 2)) by (nonlinear_arith)
            requires
                x >= 0,
                b <= -2,
        ;
    }
}

fn abs_i64(x: i64) -> (r: i64)
    requires
        x != i64::MIN,
    ensures
        r == abs(x as int),
{
    if x < 0 {
        -x
    } else {
        x
    }
}

impl ExecutionQualityMetrics {
    /// All counters zero.
    pub fn new() -> (m: ExecutionQualityMetrics)
        ensures
            m == (ExecutionQualityMetrics {
                total_passive_quantity: 0,
                total_aggressive_quantity: 0,
                total_cancelled_quantity: 0,
                total_queue_survived_quantity: 0,
                total_queue_advancement: 0,
                total_effective_spread_x2: 0,
                total_realized_spread_x2: 0,
                spread_samples: 0,
            }),
    {
        ExecutionQualityMetrics {
            total_passive_quantity: 0,
            total_aggressive_quantity: 0,
            total_cancelled_quantity: 0,
            total_queue_survived_quantity: 0,
            total_queue_advancement: 0,
            total_effective_spread_x2: 0,
            total_realized_spread_x2: 0,
            spread_samples: 0,
        }
    }

    /// Records a fill. A passive fill adds to the passive quantity; an
    /// aggressive one adds to the aggressive quantity, adds its doubled
    /// effective spread (against the midpoint at the trade) and its doubled
    /// realized spread (against the midpoint after it), and counts a sample.
    pub fn record_fill(
        &mut self,
        is_passive: bool,
        quantity: u64,
        match_price: i64,
        scaled_midpoint: i64,
        post_trade_scaled_midpoint: i64,
    )
        requires
            fill_fits(
                *old(self),
                is_passive,
                quantity,
                match_price,
                scaled_midpoint,
                post_trade_scaled_midpoint,
            ),
        ensures
            *final(self) == after_fill(
                *old(self),
                is_passive,
                quantity,
                match_price,
                scaled_midpoint,
                post_trade_scaled_midpoint,
            ),
    {
        if is_passive {
            self.total_passive_quantity += quantity;
        } else {
            self.total_aggressive_quantity += quantity;
            let spread = abs_i64(2 * match_price - scaled_midpoint);
            self.total_effective_spread_x2 += spread as u64;
            let realized = abs_i64(2 * match_price - post_trade_scaled_midpoint);
            self.total_realized_spread_x2 += realized;
            self.spread_samples += 1;
        }
    }

    /// Records a cancelled quantity.
    pub fn record_cancel(&mut self, quantity: u64)
        requires
            old(self).total_cancelled_quantity + quantity <= u64::MAX,
        ensures
            *final(self) == (ExecutionQualityMetrics {
                total_cancelled_quantity: (old(self).total_cancelled_quantity + quantity) as u64,
                ..*old(self)
            }),
    {
        self.total_cancelled_quantity += quantity;
    }

    /// Records that `executed_quantity` executed after `initial_ahead`
    /// quantity was ahead of it in the queue.
    pub fn record_queue_advancement(&mut self, initial_ahead: u64, executed_quantity: u64)
        requires
            old(self).total_queue_survived_quantity + executed_quantity <= u64::MAX,
            old(self).total_queue_advancement + initial_ahead <= u64::MAX,
        ensures
            *final(self) == (ExecutionQualityMetrics {
                total_queue_survived_quantity: (old(self).total_queue_survived_quantity
                    + executed_quantity) as u64,
                total_queue_advancement: (old(self).total_queue_advancement + initial_ahead) as u64,
                ..*old(self)
            }),
    {
        self.total_queue_survived_quantity += executed_quantity;
        self.total_queue_advancement += initial_ahead;
    }

    /// Passive share of filled quantity, in parts per million.
    pub fn passive_fill_ratio_ppm(&self) -> (r: u64)
        requires
            self.total_passive_quantity + self.total_aggressive_quantity <= u64::MAX,
        ensures
            r == ppm_ratio(
                self.total_passive_quantity,
                (self.total_passive_quantity + self.total_aggressive_quantity) as u64,
            ),
    {
        let total = self.total_passive_quantity + self.total_aggressive_quantity;
        ppm(self.total_passive_quantity, total)
    }

    /// Cancelled quantity per filled quantity, in parts per million.
    pub fn cancel_to_fill_ratio_ppm(&self) -> (r: u64)
        requires
            self.total_passive_quantity + self.total_aggressive_quantity <= u64::MAX,
        ensures
            r == ppm_ratio(
                self.total_cancelled_quantity,
                (self.total_passive_quantity + self.total_aggressive_quantity) as u64,
            ),
    {
        let total_fills = self.total_passive_quantity + self.total_aggressive_quantity;
        ppm(self.total_cancelled_quantity, total_fills)
    }

    /// Passive quantity that executed per passive quantity posted (executed
    /// or cancelled), in parts per million.
    pub fn queue_survival_ratio_ppm(&self) -> (r: u64)
        requires
            self.total_passive_quantity + self.total_cancelled_quantity <= u64::MAX,
        ensures
            r == ppm_ratio(
                self.total_passive_quantity,
                (self.total_passive_quantity + self.total_cancelled_quantity) as u64,
            ),
    {
        let total_passive_intent = self.total_passive_quantity + self.total_cancelled_quantity;
        ppm(self.total_passive_quantity, total_passive_intent)
    }

    /// Queue positions advanced per executed quantity (integer division), 0 with none executed.
    pub fn average_queue_advancement(&self) -> (r: u64)
        ensures
            r == if self.total_queue_survived_quantity == 0 {
                0
            } else {
                self.total_queue_advancement / self.total_queue_survived_quantity
            },
    {
        if self.total_queue_survived_quantity == 0 {
            return 0;
        }
        self.total_queue_advancement / self.total_queue_survived_quantity
    }

    /// Mean doubled effective spread over the samples (integer division), 0 with none.
    pub fn average_effective_spread_x2(&self) -> (r: u64)
        ensures
            r == if self.spread_samples == 0 {
                0
            } else {
                self.total_effective_spread_x2 / self.spread_samples
            },
    {
        if self.spread_samples == 0 {
            return 0;
        }
        self.total_effective_spread_x2 / self.spread_samples
    }

    /// Mean doubled realized spread over the samples, 0 with none. The sample
    /// count is taken as an `i64` (wrapping) and the division truncates toward zero.
    pub fn average_realized_spread_x2(&self) -> (r: i64)
        requires
            !(self.spread_samples == u64::MAX && self.total_realized_spread_x2 == i64::MIN),
        ensures
            r == if self.spread_samples == 0 {
                0
            } else {
                truncating_div(self.total_realized_spread_x2 as int, self.spread_samples as i64 as int)
            },
    {
        if self.spread_samples == 0 {
            return 0;
        }
        let n = self.spread_samples;
        let d = n as i64;
        assert(d != 0) by (bit_vector)
            requires
                d == n as i64,
                n != 0,
        ;
        assert((d == -1) == (n == u64::MAX)) by (bit_vector)
            requires
                d == n as i64,
        ;
        proof {
            lemma_truncating_div_fits(self.total_realized_spread_x2, d);
        }
        self.total_realized_spread_x2 / d
    }
}

/// The passive fill ratio and the queue survival ratio are each at most one
/// million parts per million.
pub proof fn law_execution_ratios_bounded(m: ExecutionQualityMetrics)
    ensures
        m.total_passive_quantity + m.total_aggressive_quantity <= u64::MAX ==> ppm_ratio(
            m.total_passive_quantity,
            (m.total_passive_quantity + m.total_aggressive_quantity) as u64,
        ) <= 1_000_000,
        m.total_passive_quantity + m.total_cancelled_quantity <= u64::MAX ==> ppm_ratio(
            m.total_passive_quantity,
            (m.total_passive_quantity + m.total_cancelled_quantity) as u64,
        ) <= 1_000_000,
{
    if m.total_passive_quantity + m.total_aggressive_quantity <= u64::MAX {
        lemma_ppm_ratio_at_most_one(
            m.total_passive_quantity,
            (m.total_passive_quantity + m.total_aggressive_quantity) as u64,
        );
    }
    if m.total_passive_quantity + m.total_cancelled_quantity <= u64::MAX {
        lemma_ppm_ratio_at_most_one(
            m.total_passive_quantity,
            (m.total_passive_quantity + m.total_cancelled_quantity) as u64,
        );
    }
}

} // verus!
