//! Content addresses: deterministic fingerprints of serialized byte content.

use vstd::prelude::*;

verus! {

/// Offset basis of the 64-bit FNV-1a hash.
pub const FNV_OFFSET_BASIS: u64 = 0xcbf29ce484222325;

/// Prime of the 64-bit FNV-1a hash.
pub const FNV_PRIME: u64 = 0x100000001b3;

/// One step of the 64-bit FNV-1a hash: fold one byte into the running state.
pub open spec fn fnv1a_step(h: u64, b: u8) -> u64 {
    vstd::wrapping::u64_specs::wrapping_mul(h ^ (b as u64), FNV_PRIME)
}

/// The 64-bit FNV-1a hash of a byte sequence, defined left to right.
pub open spec fn fnv1a(bytes: Seq<u8>) -> u64
    decreases bytes.len(),
{
    if bytes.len() == 0 {
        FNV_OFFSET_BASIS
    } else {
        fnv1a_step(fnv1a(bytes.drop_last()), bytes.last())
    }
}

/// A deterministic content fingerprint of a serialized byte sequence.
///
/// Equality is structural: two addresses are equal exactly when their hash
/// words are equal. An address is immutable once constructed; it serves both
/// as the store's cache key and as a version marker inside a branch history.
#[derive(Clone, Copy, PartialEq, Eq, Structural, Debug, Hash)]
pub struct Address {
    /// The hash word the address consists of.
    pub hash: u64,
}

/// The address that content hashing assigns to a byte sequence.
pub open spec fn address_of(bytes: Seq<u8>) -> Address {
    Address { hash: fnv1a(bytes) }
}

impl Address {
    /// Content-address a byte sequence. Total and deterministic: the same
    /// bytes always produce the same address.
    pub fn new(bytes: &[u8]) -> (a: Address)
        ensures
            a == address_of(bytes@),
    {
        let ghost all = bytes@;
        let mut h: u64 = FNV_OFFSET_BASIS;
        let mut i: usize = 0;
        while i < bytes.len()
            invariant
                i <= all.len(),
                all == bytes@,
                h == fnv1a(all.take(i as int)),
            decreases all.len() - i,
        {
            proof {
                assert(all.take(i + 1).drop_last() == all.take(i as int));
                assert(all.take(i + 1).last() == all[i as int]);
            }
            h = (h ^ (bytes[i] as u64)).wrapping_mul(FNV_PRIME);
            i = i + 1;
        }
        proof {
            assert(all.take(all.len() as int) == all);
        }
        Address { hash: h }
    }
}

/// Content addressing is deterministic: equal byte sequences always receive
/// equal addresses, so re-hashing the same content can never move it.
pub proof fn lemma_address_deterministic(b1: Seq<u8>, b2: Seq<u8>)
    requires
        b1 == b2,
    ensures
        address_of(b1) == address_of(b2),
{
}

} // verus!
