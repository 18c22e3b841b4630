//! The datastore: content-addressed storage composed with a local branch.

use crate::address::{address_of, fnv1a, Address};
use crate::branch::{head_of, Agent, Branch};
use crate::codec::{decode_record, encode_record, msgpack_decode, msgpack_of};
use crate::storable::{Record, Storable};
use std::collections::HashMap;
use vstd::prelude::*;

verus! {

/// A database of two parts: a content-addressed store of serialized values,
/// fronted by an in-memory cache keyed by address, and a set of branches
/// mapping identities to their version histories. One branch is local and
/// mutable; the cached branches reflect other agents' histories and are
/// never written here.
pub struct Datastore {
    /// Where persisted content lives on disk; configuration only, no file
    /// layout is defined yet.
    pub path: String,
    /// The branch this store writes to.
    pub local_branch: Branch,
    /// Other agents' branches, observed but never mutated here.
    pub cached_branches: Vec<Branch>,
    /// The in-memory content cache: serialized bytes keyed by the hash word
    /// of their content address.
    pub cached_addresses: HashMap<u64, Vec<u8>>,
}

/// The distinguished failure of [`Datastore::register`]: registration is an
/// open extension point, and until its seeding and validation semantics are
/// defined every call reports that the operation is not implemented. Kept
/// apart from the ordinary absence value so that a caller can tell "this
/// operation does not exist yet" from a failure of its own input.
#[derive(Clone, Copy, PartialEq, Eq, Structural, Debug)]
pub enum RegisterError {
    /// Registration semantics are not defined yet; no call can succeed.
    NotImplemented,
}

/// A successor relationship between two content addresses: the content at
/// `current` is a successor of the content at `previous`. A relationship
/// record only; it carries no diff payload.
pub struct Delta {
    /// The address of the previous version.
    pub previous: Address,
    /// The address of the content after the step to the next version.
    pub current: Address,
}

impl Datastore {
    /// The content cache as a mathematical map from address hash word to the
    /// cached byte sequence.
    pub open spec fn cache(self) -> Map<u64, Seq<u8>> {
        self.cached_addresses@.map_values(|b: Vec<u8>| b@)
    }

    /// Address integrity: every cached byte sequence sits under the key that
    /// re-hashing those bytes produces, so no address ever names content it
    /// was not computed from.
    pub open spec fn wf(self) -> bool {
        forall|k: u64| #[trigger]
            self.cache().contains_key(k) ==> k == fnv1a(self.cache()[k])
    }

    /// An empty datastore over the given on-disk path, whose local branch is
    /// owned by the given agent.
    pub fn new(path: String, owner: Agent) -> (d: Datastore)
        ensures
            d.wf(),
            d.path == path,
            d.local_branch.owner == owner,
            d.local_branch.histories() == Map::<u64, Seq<Address>>::empty(),
            d.cached_branches@ == Seq::<Branch>::empty(),
            d.cache() == Map::<u64, Seq<u8>>::empty(),
    {
        let d = Datastore {
            path,
            local_branch: Branch::new(owner),
            cached_branches: Vec::new(),
            cached_addresses: HashMap::new(),
        };
        proof {
            assert(d.cache() =~= Map::<u64, Seq<u8>>::empty());
        }
        d
    }

    /// Insert already-serialized content into the cache under its content
    /// address. Total: the address is computed from the bytes themselves, so
    /// the address-integrity invariant is re-established no matter what is
    /// handed in.
    fn store_bytes(&mut self, bytes: Vec<u8>) -> (a: Address)
        ensures
            a == address_of(bytes@),
            final(self).cache() == old(self).cache().insert(a.hash, bytes@),
            final(self).local_branch == old(self).local_branch,
            final(self).cached_branches == old(self).cached_branches,
            final(self).path == old(self).path,
            old(self).wf() ==> final(self).wf(),
    {
        let ghost bs = bytes@;
        let a = Address::new(bytes.as_slice());
        self.cached_addresses.insert(a.hash, bytes);
        proof {
            assert(self.cache() =~= old(self).cache().insert(a.hash, bs));
        }
        a
    }

    /// Look content up by address and decode it back into a record.
    ///
    /// Absence is returned exactly when the address is not in the cache or
    /// the cached bytes do not parse as a record; a cache miss has no
    /// on-disk fallback. Together with [`Datastore::store`] this states the
    /// round-trip law: bytes cached as the encoding of an identity and
    /// payload load back as exactly that record.
    pub fn load(&self, address: &Address) -> (r: Option<Record>)
        ensures
            r is Some <==> (self.cache().contains_key(address.hash) && msgpack_decode(
                self.cache()[address.hash],
            ) is Some),
            match r {
                Some(rec) => {
                    &&& self.cache().contains_key(address.hash)
                    &&& msgpack_decode(self.cache()[address.hash]) matches Some(d) && d.0
                        == rec.identity.id && d.1 == rec.payload@
                    &&& forall|i: u64, p: Seq<u8>|
                        p.len() <= u32::MAX && self.cache()[address.hash] == msgpack_of(i, p)
                            ==> rec.identity.id == i && rec.payload@ == p
                },
                None => self.cache().contains_key(address.hash) ==> forall|i: u64, p: Seq<u8>|
                    p.len() <= u32::MAX ==> self.cache()[address.hash] != msgpack_of(i, p),
            },
    {
        match self.cached_addresses.get(&address.hash) {
            None => None,
            Some(bytes) => decode_record(bytes),
        }
    }

    /// Serialize a storable value, content-address the result, and cache it
    /// under that address. Returns the new address; absence is reported only
    /// when serialization itself fails — a payload too long for the wire
    /// format's 32-bit length field, or an encoder allocation failure — and
    /// then nothing has changed.
    pub fn store<T: Storable>(&mut self, storable: &T) -> (r: Option<Address>)
        ensures
            old(self).wf() ==> final(self).wf(),
            storable.payload_spec().len() > u32::MAX ==> r is None,
            match r {
                Some(a) => ({
                    let bytes = msgpack_of(storable.identity_spec().id, storable.payload_spec());
                    &&& storable.payload_spec().len() <= u32::MAX
                    &&& a == address_of(bytes)
                    &&& final(self).cache() == old(self).cache().insert(a.hash, bytes)
                    &&& final(self).local_branch == old(self).local_branch
                    &&& final(self).cached_branches == old(self).cached_branches
                    &&& final(self).path == old(self).path
                }),
                None => *final(self) == *old(self),
            },
    {
        let identity = storable.identity();
        let payload = storable.payload();
        if payload.len() > u32::MAX as usize {
            return None;
        }
        match encode_record(identity.id, &payload) {
            None => None,
            Some(bytes) => Some(self.store_bytes(bytes)),
        }
    }

    /// Record a new version of a storable value on the local branch: resolve
    /// the value's current head, check that the head's content is present,
    /// store the new content, and append its address to the history.
    ///
    /// Success appends exactly one address, which is immediately the new
    /// head; the old head stays in place as a prior history element. On any
    /// failure — an identity that was never seeded, a head whose content is
    /// not loadable, or a serialization failure — the store is left exactly
    /// as it was: the call either fully commits or makes no visible change.
    pub fn update<T: Storable>(&mut self, storable: &T) -> (r: Option<()>)
        ensures
            old(self).wf() ==> final(self).wf(),
            head_of(old(self).local_branch.histories(), storable.identity_spec().id) is None
                ==> r is None,
            (head_of(old(self).local_branch.histories(), storable.identity_spec().id) matches Some(
                h,
            ) && !old(self).cache().contains_key(h.hash)) ==> r is None,
            (head_of(old(self).local_branch.histories(), storable.identity_spec().id) matches Some(
                h,
            ) && old(self).cache().contains_key(h.hash) && msgpack_decode(old(self).cache()[h.hash])
                is None) ==> r is None,
            match r {
                Some(_) => ({
                    let id = storable.identity_spec().id;
                    let bytes = msgpack_of(id, storable.payload_spec());
                    let a = address_of(bytes);
                    let histories = old(self).local_branch.histories();
                    &&& head_of(histories, id) matches Some(h) && old(self).cache().contains_key(
                        h.hash,
                    ) && msgpack_decode(old(self).cache()[h.hash]) is Some
                    &&& storable.payload_spec().len() <= u32::MAX
                    &&& final(self).cache() == old(self).cache().insert(a.hash, bytes)
                    &&& final(self).local_branch.histories() == histories.insert(
                        id,
                        histories[id].push(a),
                    )
                    &&& head_of(final(self).local_branch.histories(), id) == Some(a)
                    &&& final(self).local_branch.owner == old(self).local_branch.owner
                    &&& final(self).cached_branches == old(self).cached_branches
                    &&& final(self).path == old(self).path
                }),
                None => *final(self) == *old(self),
            },
    {
        let identity = storable.identity();
        let head_address = match self.local_branch.head(&identity) {
            None => {
                return None;
            },
            Some(a) => a,
        };
        match self.load(&head_address) {
            None => {
                return None;
            },
            Some(_) => {},
        }
        let address = match self.store(storable) {
            None => {
                return None;
            },
            Some(a) => a,
        };
        match self.local_branch.commit(&identity, &address) {
            None => {
                proof {
                    assert(false);
                }
                None
            },
            Some(_) => Some(()),
        }
    }

    /// Seeding a never-before-seen identity — walking the context chain to
    /// validate its placement and creating its first version — is an open
    /// extension point whose semantics are not settled. Until they are, the
    /// operation fails loudly on every call with the distinguished
    /// [`RegisterError::NotImplemented`] signal — never the ordinary absence
    /// the other operations use, so a caller cannot mistake it for a
    /// failure worth retrying — and leaves the store unchanged.
    pub fn register<T: Storable>(&mut self, _storable: &T) -> (r: Result<(), RegisterError>)
        ensures
            r == Err::<(), RegisterError>(RegisterError::NotImplemented),
            *final(self) == *old(self),
    {
        Err(RegisterError::NotImplemented)
    }
}

/// The round-trip law at the level of the cache model. A successful
/// `store` of a value with the given identity and payload changes the cache
/// exactly by inserting the value's encoding under its content address; this
/// lemma states that the cache then holds, at that address, precisely that
/// encoding. By the contract of [`Datastore::load`], any later load of that
/// address must therefore return exactly the stored identity and payload.
pub proof fn lemma_store_load_round_trip(cache: Map<u64, Seq<u8>>, id: u64, payload: Seq<u8>)
    ensures
        ({
            let bytes = msgpack_of(id, payload);
            let a = address_of(bytes);
            let stored = cache.insert(a.hash, bytes);
            stored.contains_key(a.hash) && stored[a.hash] == bytes
        }),
{
}

} // verus!
