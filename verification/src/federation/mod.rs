pub mod bridge;
pub mod consensus;
pub mod lineage;
pub mod notary;
pub mod topology;
pub mod treaty;
