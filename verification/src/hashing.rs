//! State hashing: BLAKE3 digests of canonical bytes, their hexadecimal
//! form, and the hash every deterministic component exposes.

use vstd::prelude::*;
use vstd::string::StringExecFns;
use crate::events::AstraEvent;
use crate::serialization::{event_bytes, serialize_event};

verus! {

/// The BLAKE3 digest (32 bytes, default output length) of a byte string,
/// as computed by `blake3::hash`.
pub uninterp spec fn blake3_digest(data: Seq<u8>) -> Seq<u8>;

/// Calls `blake3::hash` and returns the digest's bytes.
/// Trusted: the result is `blake3_digest` of the input bytes; the function
/// is deterministic, so equal inputs give equal digests. Nothing else about
/// the digest (such as collision resistance) is stated.
#[verifier::external_body]
fn blake3_hash(data: &[u8]) -> (digest: [u8; 32])
    ensures
        digest@ == blake3_digest(data@),
{
    *blake3::hash(data).as_bytes()
}

/// BLAKE3 hash of a byte string.
pub fn hash_bytes(data: &[u8]) -> (digest: [u8; 32])
    ensures
        digest@ == blake3_digest(data@),
{
    blake3_hash(data)
}

/// Whether two 32-byte hashes are equal, byte for byte.
pub fn verify_hash_equality(a: &[u8; 32], b: &[u8; 32]) -> (equal: bool)
    ensures
        equal == (a@ == b@),
{
    let mut i: usize = 0;
    while i < 32
        invariant
            i <= 32,
            a@.len() == 32,
            b@.len() == 32,
            forall|j: int| 0 <= j < i ==> a@[j] == b@[j],
        decreases 32 - i,
    {
        if a[i] != b[i] {
            return false;
        }
        i = i + 1;
    }
    assert(a@ =~= b@);
    true
}

/// The lowercase hexadecimal digit of a value below 16.
pub open spec fn hex_digit(d: u8) -> char {
    if d < 10 {
        (('0' as u8) + d) as char
    } else {
        (('a' as u8) + (d - 10)) as char
    }
}

/// Lowercase hexadecimal form of a byte string: two digits per byte, high nibble first.
pub open spec fn hex_of(bytes: Seq<u8>) -> Seq<char>
    decreases bytes.len(),
{
    if bytes.len() == 0 {
        Seq::empty()
    } else {
        hex_of(bytes.drop_last()) + seq![hex_digit(bytes.last() / 16), hex_digit(bytes.last() % 16)]
    }
}

fn push_hex_digit(out: &mut String, d: u8)
    requires
        d < 16,
    ensures
        final(out)@ == old(out)@.push(hex_digit(d)),
{
    let s = match d {
        0 => "0",
        1 => "1",
        2 => "2",
        3 => "3",
        4 => "4",
        5 => "5",
        6 => "6",
        7 => "7",
        8 => "8",
        9 => "9",
        10 => "a",
        11 => "b",
        12 => "c",
        13 => "d",
        14 => "e",
        _ => "f",
    };
    proof {
        reveal_strlit("0");
        reveal_strlit("1");
        reveal_strlit("2");
        reveal_strlit("3");
        reveal_strlit("4");
        reveal_strlit("5");
        reveal_strlit("6");
        reveal_strlit("7");
        reveal_strlit("8");
        reveal_strlit("9");
        reveal_strlit("a");
        reveal_strlit("b");
        reveal_strlit("c");
        reveal_strlit("d");
        reveal_strlit("e");
        reveal_strlit("f");
    }
    assert(s@ =~= seq![hex_digit(d)]);
    out.append(s);
}

/// Lowercase hexadecimal form of a hash (64 digits).
pub fn hash_to_hex(hash: &[u8; 32]) -> (hex: String)
    ensures
        hex@ == hex_of(hash@),
        hex@.len() == 64,
{
    let mut out = String::new();
    let mut i: usize = 0;
    while i < 32
        invariant
            i <= 32,
            hash@.len() == 32,
            out@ == hex_of(hash@.subrange(0, i as int)),
            out@.len() == 2 * i,
        decreases 32 - i,
    {
        let b = hash[i];
        push_hex_digit(&mut out, b / 16);
        push_hex_digit(&mut out, b % 16);
        proof {
            let s = hash@.subrange(0, i + 1);
            assert(s.drop_last() =~= hash@.subrange(0, i as int));
        }
        i = i + 1;
    }
    assert(hash@.subrange(0, 32) =~= hash@);
    out
}

/// A component whose whole state has a canonical 32-byte hash, so that two
/// replays can be compared by their hashes.
pub trait DeterministicState {
    /// The hash of the state, as bytes.
    spec fn spec_state_hash(&self) -> Seq<u8>;

    fn state_hash(&self) -> (h: [u8; 32])
        ensures
            h@ == self.spec_state_hash(),
    ;
}

impl DeterministicState for AstraEvent {
    /// The BLAKE3 digest of the event's canonical bytes.
    open spec fn spec_state_hash(&self) -> Seq<u8> {
        blake3_digest(event_bytes(self@))
    }

    fn state_hash(&self) -> (h: [u8; 32]) {
        let bytes = match serialize_event(self) {
            Ok(b) => b,
            Err(_) => Vec::new(),
        };
        hash_bytes(bytes.as_slice())
    }
}

/// What identifies a captured snapshot: the last sequence applied, the state
/// hash at that point, and the engine whose state it is.
#[derive(Clone, Debug, PartialEq, Eq)]
pub struct SnapshotMetadata {
    pub last_sequence_id: u64,
    pub state_hash: [u8; 32],
    pub engine_id: String,
}

impl SnapshotMetadata {
    pub fn from_hash(last_sequence_id: u64, state_hash: [u8; 32], engine_id: String) -> (m: SnapshotMetadata)
        ensures
            m.last_sequence_id == last_sequence_id,
            m.state_hash == state_hash,
            m.engine_id@ == engine_id@,
    {
        SnapshotMetadata { last_sequence_id, state_hash, engine_id }
    }
}

} // verus!
