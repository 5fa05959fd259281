//! The gas-metered execution sandbox in which a strategy module consumes
//! events.

use vstd::prelude::*;
use vstd::string::StringExecFns;
use crate::events::AstraEvent;
use crate::hashing::{blake3_digest, hash_bytes, DeterministicState};
use crate::serialization::{le_u64, push_u64};

verus! {

/// Gas charged for every event, before the payload bytes.
pub const GAS_PER_EVENT: u64 = 1;

/// Gas available to a sandbox and gas consumed so far.
#[derive(Clone, Copy, Debug, PartialEq, Eq, Structural)]
pub struct GasMeter {
    pub gas_limit: u64,
    pub used_gas: u64,
}

/// An execution sandbox: its gas meter and the number of events it has executed.
#[derive(Clone, Copy, Debug, PartialEq, Eq, Structural)]
pub struct WasmSandbox {
    pub gas_meter: GasMeter,
    pub events_executed: u64,
}

/// Gas an event costs: a fixed charge plus one unit per payload byte.
pub open spec fn event_gas_cost(payload_len: nat) -> int {
    GAS_PER_EVENT + payload_len
}

/// Whether a sandbox has gas left for an event with this many payload bytes.
pub open spec fn gas_suffices(s: WasmSandbox, payload_len: nat) -> bool {
    s.gas_meter.used_gas + event_gas_cost(payload_len) <= s.gas_meter.gas_limit
}

/// The sandbox after executing an event with this many payload bytes.
pub open spec fn after_event(s: WasmSandbox, payload_len: nat) -> WasmSandbox {
    WasmSandbox {
        gas_meter: GasMeter {
            gas_limit: s.gas_meter.gas_limit,
            used_gas: (s.gas_meter.used_gas + event_gas_cost(payload_len)) as u64,
        },
        events_executed: if s.events_executed == u64::MAX {
            u64::MAX
        } else {
            (s.events_executed + 1) as u64
        },
    }
}

/// A sandbox with the given gas limit that has executed nothing.
pub open spec fn fresh_sandbox(gas_limit: u64) -> WasmSandbox {
    WasmSandbox { gas_meter: GasMeter { gas_limit, used_gas: 0 }, events_executed: 0 }
}

impl WasmSandbox {
    /// A sandbox with the given gas limit that has executed nothing.
    pub fn new(gas_limit: u64) -> (s: WasmSandbox)
        ensures
            s == fresh_sandbox(gas_limit),
    {
        WasmSandbox { gas_meter: GasMeter { gas_limit, used_gas: 0 }, events_executed: 0 }
    }

    /// Executes one event, charging its gas. When the charge would exceed
    /// the limit the event is refused and the sandbox is left unchanged.
    pub fn execute_event(&mut self, event: &AstraEvent) -> (r: Result<(), String>)
        ensures
            r is Ok <==> gas_suffices(*old(self), event.payload@.len()),
            gas_suffices(*old(self), event.payload@.len()) ==> *final(self) == after_event(
                *old(self),
                event.payload@.len(),
            ),
            !gas_suffices(*old(self), event.payload@.len()) ==> *final(self) == *old(self),
            r matches Err(msg) ==> msg@ == "Gas limit exceeded"@,
    {
        let limit = self.gas_meter.gas_limit;
        let used = self.gas_meter.used_gas;
        let len = event.payload.len() as u64;
        if used > limit || limit - used < GAS_PER_EVENT || limit - used - GAS_PER_EVENT < len {
            return Err(String::from_str("Gas limit exceeded"));
        }
        self.gas_meter.used_gas = used + GAS_PER_EVENT + len;
        self.events_executed = self.events_executed.saturating_add(1);
        Ok(())
    }
}

/// The canonical bytes of a sandbox: gas limit, gas used and events executed.
pub open spec fn sandbox_bytes(s: WasmSandbox) -> Seq<u8> {
    le_u64(s.gas_meter.gas_limit) + le_u64(s.gas_meter.used_gas) + le_u64(s.events_executed)
}

impl DeterministicState for WasmSandbox {
    open spec fn spec_state_hash(&self) -> Seq<u8> {
        blake3_digest(sandbox_bytes(*self))
    }

    fn state_hash(&self) -> (h: [u8; 32]) {
        let mut bytes: Vec<u8> = Vec::new();
        push_u64(&mut bytes, self.gas_meter.gas_limit);
        push_u64(&mut bytes, self.gas_meter.used_gas);
        push_u64(&mut bytes, self.events_executed);
        hash_bytes(bytes.as_slice())
    }
}

} // verus!
