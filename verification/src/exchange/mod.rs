pub mod fidelity;
pub mod latency;
pub mod matching;
pub mod observability;
pub mod profiling;
pub mod realism;
pub mod state;
pub mod runtime;
