pub mod analytics;
pub mod book;
pub mod inspector;
pub mod execution_quality;
pub mod visualization;
pub mod timeline;
pub mod strategy_analytics;
