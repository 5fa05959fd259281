//! Market-realism model parameters.

use vstd::prelude::*;

verus! {

/// Modelled liquidity depth.
#[derive(Clone, Debug, Default)]
pub struct LiquidityDepthModel {
    pub depth: u64,
}

/// Slippage, in ticks.
#[derive(Clone, Debug, Default)]
pub struct DeterministicSlippageEngine {
    pub slippage_ticks: u64,
}

/// Tracked queue pressure.
#[derive(Clone, Debug, Default)]
pub struct QueuePressureTracker {
    pub pressure: u64,
}

/// Modelled spread.
#[derive(Clone, Debug, Default)]
pub struct SpreadEvolutionModel {
    pub spread: u64,
}

/// Market impact over a window.
#[derive(Clone, Debug, Default)]
pub struct MarketImpactWindow {
    pub impact: u64,
}

impl LiquidityDepthModel {
    /// The default (all-zero, empty) value.
    pub fn new() -> (r: LiquidityDepthModel)
        ensures
            r.depth == 0,
    {
        LiquidityDepthModel { depth: 0 }
    }
}

impl DeterministicSlippageEngine {
    /// The default (all-zero, empty) value.
    pub fn new() -> (r: DeterministicSlippageEngine)
        ensures
            r.slippage_ticks == 0,
    {
        DeterministicSlippageEngine { slippage_ticks: 0 }
    }
}

impl QueuePressureTracker {
    /// The default (all-zero, empty) value.
    pub fn new() -> (r: QueuePressureTracker)
        ensures
            r.pressure == 0,
    {
        QueuePressureTracker { pressure: 0 }
    }
}

impl SpreadEvolutionModel {
    /// The default (all-zero, empty) value.
    pub fn new() -> (r: SpreadEvolutionModel)
        ensures
            r.spread == 0,
    {
        SpreadEvolutionModel { spread: 0 }
    }
}

impl MarketImpactWindow {
    /// The default (all-zero, empty) value.
    pub fn new() -> (r: MarketImpactWindow)
        ensures
            r.impact == 0,
    {
        MarketImpactWindow { impact: 0 }
    }
}

} // verus!
