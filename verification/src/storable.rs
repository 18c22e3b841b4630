//! Identities and the capability contract for storable values.

use vstd::prelude::*;

verus! {

/// A stable, opaque key identifying a logical entity across its version
/// history. Two versions of one entity share an identity but have different
/// content addresses; the identity is reported by the value itself, never
/// derived from its content.
#[derive(Clone, Copy, PartialEq, Eq, Structural, Debug, Hash)]
pub struct Identity {
    /// The key word the identity consists of.
    pub id: u64,
}

/// The capability a value must satisfy to be stored: it reports a stable
/// identity and a deterministic byte serialization of its content.
///
/// The store treats all storable values uniformly through this contract; it
/// never inspects the concrete type beyond identity and payload bytes. The
/// caller keeps ownership of the value; the store only ever holds a
/// serialized copy.
pub trait Storable {
    /// The identity the value reports, as a mathematical value.
    spec fn identity_spec(&self) -> Identity;

    /// The serialized content of the value, as a mathematical byte sequence.
    spec fn payload_spec(&self) -> Seq<u8>;

    /// Report the value's identity.
    fn identity(&self) -> (i: Identity)
        ensures
            i == self.identity_spec(),
    ;

    /// Produce the value's deterministic byte serialization.
    fn payload(&self) -> (p: Vec<u8>)
        ensures
            p@ == self.payload_spec(),
    ;
}

/// A plain storable value: an identity together with raw content bytes.
///
/// This is also the shape the store hands back when content is loaded: the
/// identity and payload are exactly what was serialized at store time.
#[derive(PartialEq, Eq, Debug)]
pub struct Record {
    /// The identity the record belongs to.
    pub identity: Identity,
    /// The record's content bytes.
    pub payload: Vec<u8>,
}

impl Storable for Record {
    open spec fn identity_spec(&self) -> Identity {
        self.identity
    }

    open spec fn payload_spec(&self) -> Seq<u8> {
        self.payload@
    }

    fn identity(&self) -> (i: Identity) {
        self.identity
    }

    fn payload(&self) -> (p: Vec<u8>) {
        let mut out: Vec<u8> = Vec::new();
        let mut i: usize = 0;
        while i < self.payload.len()
            invariant
                i <= self.payload@.len(),
                out@ == self.payload@.take(i as int),
            decreases self.payload@.len() - i,
        {
            out.push(self.payload[i]);
            proof {
                assert(self.payload@.take(i + 1) == self.payload@.take(i as int).push(
                    self.payload@[i as int],
                ));
            }
            i = i + 1;
        }
        proof {
            assert(self.payload@.take(self.payload@.len() as int) == self.payload@);
        }
        out
    }
}

} // verus!
