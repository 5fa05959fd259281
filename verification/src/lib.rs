//! Deterministic market-replay infrastructure: canonical events and their
//! binary codec, state hashing, replay analytics, execution-quality metrics,
//! timeline and diagram exports, and the data model of distributed,
//! federated and formally certified replays.

pub mod events;
pub mod serialization;
pub mod orderbook;
pub mod hashing;
pub mod package;
pub mod sandbox;
pub mod vm;
pub mod text;
pub mod sorted;
pub mod laws;
pub mod inspect;
pub mod exchange;
pub mod distributed;
pub mod formal;
pub mod federation;
