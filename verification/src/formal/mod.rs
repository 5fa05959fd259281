pub mod aggregation;
pub mod invariants;
pub mod lineage;
pub mod proofs;
pub mod report;
