pub mod aggregation;
pub mod fabric;
pub mod orchestrator;
pub mod partition;
pub mod worker;
