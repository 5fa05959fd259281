//! The global state hash of an exchange: the hash of every engine and the
//! sequence clock.

use vstd::prelude::*;
use crate::hashing::{blake3_digest, hash_bytes};
use crate::package::append_bytes;
use crate::serialization::{le_u64, push_u64};

verus! {

/// Hashes of each engine of an exchange, and the sequence clock they were taken at.
#[derive(Clone, Copy, Debug, Default, PartialEq, Eq)]
pub struct ExchangeStateHash {
    pub risk_engine_hash: [u8; 32],
    pub portfolio_engine_hash: [u8; 32],
    pub matching_engines_hash: [u8; 32],
    pub diagnostics_hash: [u8; 32],
    pub strategy_runtime_hash: [u8; 32],
    pub settlement_engine_hash: [u8; 32],
    pub margin_engine_hash: [u8; 32],
    pub funding_ledger_hash: [u8; 32],
    pub sequence_clock: u64,
}

/// The canonical bytes of an exchange state hash: the eight engine hashes
/// in field order, then the sequence clock as a little-endian `u64`.
pub open spec fn exchange_state_bytes(s: ExchangeStateHash) -> Seq<u8> {
    s.risk_engine_hash@ + s.portfolio_engine_hash@ + s.matching_engines_hash@ + s.diagnostics_hash@
        + s.strategy_runtime_hash@ + s.settlement_engine_hash@ + s.margin_engine_hash@
        + s.funding_ledger_hash@ + le_u64(s.sequence_clock)
}

impl ExchangeStateHash {
    /// The BLAKE3 digest of the canonical bytes.
    pub fn state_hash(&self) -> (h: [u8; 32])
        ensures
            h@ == blake3_digest(exchange_state_bytes(*self)),
    {
        let mut bytes: Vec<u8> = Vec::new();
        append_bytes(&mut bytes, self.risk_engine_hash.as_slice());
        append_bytes(&mut bytes, self.portfolio_engine_hash.as_slice());
        append_bytes(&mut bytes, self.matching_engines_hash.as_slice());
        append_bytes(&mut bytes, self.diagnostics_hash.as_slice());
        append_bytes(&mut bytes, self.strategy_runtime_hash.as_slice());
        append_bytes(&mut bytes, self.settlement_engine_hash.as_slice());
        append_bytes(&mut bytes, self.margin_engine_hash.as_slice());
        append_bytes(&mut bytes, self.funding_ledger_hash.as_slice());
        push_u64(&mut bytes, self.sequence_clock);
        hash_bytes(bytes.as_slice())
    }
}

} // verus!
