//! Wire encoding of records: the serialization boundary of the store.
//!
//! A record is put on the wire as the MessagePack encoding of the pair
//! (identity key, payload bytes). The encoding itself is done by the
//! MessagePack serializer; its output is named by [`msgpack_of`] and nothing
//! in this crate restates the wire format byte by byte.

use crate::storable::{Identity, Record};
use vstd::prelude::*;

verus! {

/// The MessagePack encoding of the pair (identity key, payload bytes), as
/// `rmp_serde::to_vec` produces it. A function of its arguments alone.
pub uninterp spec fn msgpack_of(id: u64, payload: Seq<u8>) -> Seq<u8>;

/// The pair that `rmp_serde::from_slice` reads out of a byte sequence, or
/// absence when it reports an error. Parsing is a function of the bytes
/// alone.
pub uninterp spec fn msgpack_decode(bytes: Seq<u8>) -> Option<(u64, Seq<u8>)>;

/// Relies on `rmp_serde::to_vec`: the compact MessagePack encoding of a
/// `(u64, Vec<u8>)` pair is deterministic in the two values, so a successful
/// encoding is exactly `msgpack_of(id, payload)`. Encoding such a pair can
/// fail only when the output buffer cannot grow (the serializer's writer
/// reports allocation failure as an error), so no result is promised.
///
/// The payload must fit the wire format's 32-bit length field: on a longer
/// payload the serializer writes a truncated element count and decoding no
/// longer inverts encoding, so such payloads are left out here and rejected
/// by the caller.
#[verifier::external_body]
pub(crate) fn encode_record(id: u64, payload: &Vec<u8>) -> (r: Option<Vec<u8>>)
    requires
        payload@.len() <= u32::MAX,
    ensures
        r matches Some(v) ==> v@ == msgpack_of(id, payload@),
{
    rmp_serde::to_vec(&(id, payload)).ok()
}

/// Relies on `rmp_serde::from_slice`, in two respects. Parsing is
/// deterministic in the input bytes, so the outcome is exactly
/// [`msgpack_decode`] of them. And decoding inverts encoding: on bytes that
/// are the MessagePack encoding of a `(u64, Vec<u8>)` pair whose payload
/// fits the wire format's 32-bit length field, it succeeds and returns
/// exactly that pair. On any other bytes no more is promised: the result may
/// be absence, or whatever pair the bytes happen to parse as.
#[verifier::external_body]
pub(crate) fn decode_record(bytes: &Vec<u8>) -> (r: Option<Record>)
    ensures
        match r {
            Some(rec) => msgpack_decode(bytes@) matches Some(d) && d.0 == rec.identity.id && d.1
                == rec.payload@,
            None => msgpack_decode(bytes@) is None,
        },
        match r {
            Some(rec) => forall|i: u64, p: Seq<u8>|
                p.len() <= u32::MAX && bytes@ == msgpack_of(i, p) ==> rec.identity.id == i
                    && rec.payload@ == p,
            None => forall|i: u64, p: Seq<u8>|
                p.len() <= u32::MAX ==> bytes@ != msgpack_of(i, p),
        },
{
    match rmp_serde::from_slice::<(u64, Vec<u8>)>(bytes.as_slice()) {
        Ok((id, payload)) => Some(Record { identity: Identity { id }, payload }),
        Err(_) => None,
    }
}

} // verus!
