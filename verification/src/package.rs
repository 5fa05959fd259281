//! A strategy package: a named WASM module together with the checksum it
//! was published with.

use vstd::prelude::*;
use crate::hashing::{blake3_digest, hash_bytes, DeterministicState};
use crate::serialization::{le_u64, push_u64};

verus! {

/// A named strategy module and the BLAKE3 checksum of its bytes.
#[derive(Clone, Debug, PartialEq, Eq)]
pub struct StrategyPackage {
    pub name: String,
    pub wasm_bytes: Vec<u8>,
    pub checksum: [u8; 32],
}

/// The canonical bytes of a package: the name's UTF-8 bytes and the module
/// bytes, each preceded by its length as a little-endian `u64`, then the checksum.
pub open spec fn package_bytes(name: Seq<u8>, wasm: Seq<u8>, checksum: Seq<u8>) -> Seq<u8> {
    le_u64(name.len() as u64) + name + le_u64(wasm.len() as u64) + wasm + checksum
}

pub(crate) fn append_bytes(out: &mut Vec<u8>, src: &[u8])
    ensures
        final(out)@ == old(out)@ + src@,
{
    let ghost start = out@;
    let mut i: usize = 0;
    while i < src.len()
        invariant
            i <= src@.len(),
            out@ == start + src@.subrange(0, i as int),
        decreases src@.len() - i,
    {
        out.push(src[i]);
        i = i + 1;
        assert(out@ =~= start + src@.subrange(0, i as int));
    }
    assert(src@.subrange(0, src@.len() as int) =~= src@);
}

impl StrategyPackage {
    /// Packages a module under a name, recording the BLAKE3 checksum of its bytes.
    pub fn new(name: String, wasm_bytes: Vec<u8>) -> (p: StrategyPackage)
        ensures
            p.name@ == name@,
            p.wasm_bytes@ == wasm_bytes@,
            p.checksum@ == blake3_digest(wasm_bytes@),
    {
        let checksum = hash_bytes(wasm_bytes.as_slice());
        StrategyPackage { name, wasm_bytes, checksum }
    }

    /// Whether the module bytes still hash to the recorded checksum.
    pub fn verify(&self) -> (ok: bool)
        ensures
            ok == (blake3_digest(self.wasm_bytes@) == self.checksum@),
    {
        let h = hash_bytes(self.wasm_bytes.as_slice());
        crate::hashing::verify_hash_equality(&h, &self.checksum)
    }
}

impl DeterministicState for StrategyPackage {
    open spec fn spec_state_hash(&self) -> Seq<u8> {
        blake3_digest(package_bytes(vstd::utf8::encode_utf8(self.name@), self.wasm_bytes@, self.checksum@))
    }

    fn state_hash(&self) -> (h: [u8; 32]) {
        let name = self.name.as_str().as_bytes();
        let mut bytes: Vec<u8> = Vec::new();
        push_u64(&mut bytes, name.len() as u64);
        append_bytes(&mut bytes, name);
        push_u64(&mut bytes, self.wasm_bytes.len() as u64);
        append_bytes(&mut bytes, self.wasm_bytes.as_slice());
        append_bytes(&mut bytes, self.checksum.as_slice());
        hash_bytes(bytes.as_slice())
    }
}

} // verus!
