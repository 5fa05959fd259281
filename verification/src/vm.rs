//! A deterministic virtual machine: a verified strategy package running in
//! a gas-metered sandbox.

use vstd::prelude::*;
use vstd::string::StringExecFns;
use crate::events::AstraEvent;
use crate::hashing::{blake3_digest, hash_bytes, DeterministicState};
use crate::package::{append_bytes, StrategyPackage};
use crate::sandbox::{after_event, fresh_sandbox, gas_suffices, WasmSandbox};

verus! {

/// A loaded strategy package and the sandbox it runs in.
#[derive(Clone, Debug, PartialEq, Eq)]
pub struct DeterministicVm {
    pub package: StrategyPackage,
    pub sandbox: WasmSandbox,
}

impl DeterministicVm {
    /// Loads a package into a fresh sandbox with the given gas limit.
    /// Fails, with "Corrupted package checksum", exactly when the module
    /// bytes no longer hash to the package's checksum.
    pub fn load(package: StrategyPackage, gas_limit: u64) -> (r: Result<DeterministicVm, String>)
        ensures
            r is Ok <==> blake3_digest(package.wasm_bytes@) == package.checksum@,
            r matches Ok(vm) ==> vm.package == package,
            r matches Ok(vm) ==> vm.sandbox == fresh_sandbox(gas_limit),
            r matches Err(msg) ==> msg@ == "Corrupted package checksum"@,
    {
        if !package.verify() {
            return Err(String::from_str("Corrupted package checksum"));
        }
        Ok(DeterministicVm { package, sandbox: WasmSandbox::new(gas_limit) })
    }

    /// Runs one event in the sandbox; the package is untouched.
    pub fn run_event(&mut self, event: &AstraEvent) -> (r: Result<(), String>)
        ensures
            final(self).package == old(self).package,
            r is Ok <==> gas_suffices(old(self).sandbox, event.payload@.len()),
            gas_suffices(old(self).sandbox, event.payload@.len()) ==> final(self).sandbox
                == after_event(old(self).sandbox, event.payload@.len()),
            !gas_suffices(old(self).sandbox, event.payload@.len()) ==> final(self).sandbox == old(
                self,
            ).sandbox,
            r matches Err(msg) ==> msg@ == "Gas limit exceeded"@,
    {
        self.sandbox.execute_event(event)
    }
}

impl DeterministicState for DeterministicVm {
    /// The digest of the package hash followed by the sandbox hash.
    open spec fn spec_state_hash(&self) -> Seq<u8> {
        blake3_digest(self.package.spec_state_hash() + self.sandbox.spec_state_hash())
    }

    fn state_hash(&self) -> (h: [u8; 32]) {
        let mut bytes: Vec<u8> = Vec::new();
        let p = self.package.state_hash();
        let s = self.sandbox.state_hash();
        append_bytes(&mut bytes, p.as_slice());
        append_bytes(&mut bytes, s.as_slice());
        hash_bytes(bytes.as_slice())
    }
}

} // verus!
