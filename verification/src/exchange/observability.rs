//! Counters the exchange keeps of the events it applied, and their hash.

use vstd::prelude::*;
use crate::hashing::{blake3_digest, hash_bytes};
use crate::package::append_bytes;
use crate::serialization::{le_u64, push_u64};

verus! {

/// How many events the exchange applied and how many orders it accepted
/// and rejected, with the canonical bytes of its order books' own replay
/// diagnostics.
#[derive(Clone, Debug, PartialEq, Eq)]
pub struct ExchangeDiagnostics {
    pub total_events_processed: u64,
    pub total_accepted_orders: u64,
    pub total_rejected_orders: u64,
    pub lob_diagnostics: Vec<u8>,
}

impl Default for ExchangeDiagnostics {
    /// No events, no orders, and the given books' diagnostics empty.
    fn default() -> (d: ExchangeDiagnostics)
        ensures
            d.total_events_processed == 0,
            d.total_accepted_orders == 0,
            d.total_rejected_orders == 0,
            d.lob_diagnostics@ == Seq::<u8>::empty(),
    {
        ExchangeDiagnostics {
            total_events_processed: 0,
            total_accepted_orders: 0,
            total_rejected_orders: 0,
            lob_diagnostics: Vec::new(),
        }
    }
}

/// The canonical bytes of the diagnostics: the three counters as
/// little-endian `u64`s in field order, then the books' diagnostics.
pub open spec fn diagnostics_bytes(d: ExchangeDiagnostics) -> Seq<u8> {
    le_u64(d.total_events_processed) + le_u64(d.total_accepted_orders) + le_u64(
        d.total_rejected_orders,
    ) + d.lob_diagnostics@
}

impl ExchangeDiagnostics {
    /// The BLAKE3 digest of the canonical bytes.
    pub fn state_hash(&self) -> (h: [u8; 32])
        ensures
            h@ == blake3_digest(diagnostics_bytes(*self)),
    {
        let mut bytes: Vec<u8> = Vec::new();
        push_u64(&mut bytes, self.total_events_processed);
        push_u64(&mut bytes, self.total_accepted_orders);
        push_u64(&mut bytes, self.total_rejected_orders);
        append_bytes(&mut bytes, self.lob_diagnostics.as_slice());
        hash_bytes(bytes.as_slice())
    }
}

impl ExchangeDiagnostics {
    /// Counts one more applied event; the other counters and the books'
    /// diagnostics are unchanged.
    pub fn count_event(&mut self)
        requires
            old(self).total_events_processed < u64::MAX,
        ensures
            final(self).total_events_processed == old(self).total_events_processed + 1,
            final(self).total_accepted_orders == old(self).total_accepted_orders,
            final(self).total_rejected_orders == old(self).total_rejected_orders,
            final(self).lob_diagnostics@ == old(self).lob_diagnostics@,
    {
        self.total_events_processed += 1;
    }

    /// Counts one more accepted order; the other counters and the books'
    /// diagnostics are unchanged.
    pub fn count_accepted(&mut self)
        requires
            old(self).total_accepted_orders < u64::MAX,
        ensures
            final(self).total_events_processed == old(self).total_events_processed,
            final(self).total_accepted_orders == old(self).total_accepted_orders + 1,
            final(self).total_rejected_orders == old(self).total_rejected_orders,
            final(self).lob_diagnostics@ == old(self).lob_diagnostics@,
    {
        self.total_accepted_orders += 1;
    }

    /// Counts one more rejected order; the other counters and the books'
    /// diagnostics are unchanged.
    pub fn count_rejected(&mut self)
        requires
            old(self).total_rejected_orders < u64::MAX,
        ensures
            final(self).total_events_processed == old(self).total_events_processed,
            final(self).total_accepted_orders == old(self).total_accepted_orders,
            final(self).total_rejected_orders == old(self).total_rejected_orders + 1,
            final(self).lob_diagnostics@ == old(self).lob_diagnostics@,
    {
        self.total_rejected_orders += 1;
    }
}

} // verus!
