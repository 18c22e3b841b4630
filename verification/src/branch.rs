//! Branches: per-agent version-history indexes over identities.

use crate::address::Address;
use crate::storable::Identity;
use std::collections::HashMap;
use vstd::prelude::*;

verus! {

/// An opaque key into the agent model: the owner of a branch. The agent
/// model itself is an external collaborator; a branch only records which
/// agent it belongs to.
#[derive(Clone, Copy, PartialEq, Eq, Structural, Debug, Hash)]
pub struct Agent {
    /// The key word the agent reference consists of.
    pub id: u64,
}

/// One agent's version-history index: a mapping from identity to the ordered
/// sequence of content addresses of that identity's versions, oldest first.
/// The last element of a non-empty history is the identity's current head.
///
/// A history, once present, is append-only: no operation removes or reorders
/// its elements. An identity with no entry at all has never been seeded on
/// this branch.
pub struct Branch {
    /// The agent this branch belongs to; a reference into the agent model,
    /// not owned data.
    pub owner: Agent,
    /// The version histories this branch has cached, keyed by identity key.
    pub cached_identities: HashMap<u64, Vec<Address>>,
}

/// The head a history map assigns to an identity key: the last address of a
/// non-empty history, and absence both for a missing entry and for an entry
/// whose history is empty.
pub open spec fn head_of(histories: Map<u64, Seq<Address>>, id: u64) -> Option<Address> {
    if histories.contains_key(id) && histories[id].len() > 0 {
        Some(histories[id].last())
    } else {
        None
    }
}

impl Branch {
    /// The branch's histories as a mathematical map from identity key to
    /// address sequence.
    pub open spec fn histories(self) -> Map<u64, Seq<Address>> {
        self.cached_identities@.map_values(|v: Vec<Address>| v@)
    }

    /// A branch with no seeded identities, owned by the given agent.
    pub fn new(owner: Agent) -> (b: Branch)
        ensures
            b.owner == owner,
            b.histories() == Map::<u64, Seq<Address>>::empty(),
    {
        let b = Branch { owner, cached_identities: HashMap::new() };
        proof {
            assert(b.histories() =~= Map::<u64, Seq<Address>>::empty());
        }
        b
    }

    /// Seed an identity on this branch with an empty history, so that later
    /// commits for it are accepted. Seeding an identity that already has an
    /// entry leaves the branch unchanged: a history is never reset.
    pub fn seed(&mut self, identity: &Identity)
        ensures
            final(self).owner == old(self).owner,
            final(self).histories() == if old(self).histories().contains_key(identity.id) {
                old(self).histories()
            } else {
                old(self).histories().insert(identity.id, Seq::<Address>::empty())
            },
    {
        if !self.cached_identities.contains_key(&identity.id) {
            self.cached_identities.insert(identity.id, Vec::new());
            proof {
                assert(self.histories() =~= old(self).histories().insert(
                    identity.id,
                    Seq::<Address>::empty(),
                ));
            }
        }
    }

    /// The current head for an identity: the most recent address in its
    /// history, or absence when the identity was never seeded here or its
    /// history is empty (the two states are not distinguished).
    pub fn head(&self, identity: &Identity) -> (r: Option<Address>)
        ensures
            r == head_of(self.histories(), identity.id),
    {
        match self.cached_identities.get(&identity.id) {
            None => None,
            Some(versions) => {
                if versions.len() == 0 {
                    None
                } else {
                    Some(versions[versions.len() - 1])
                }
            },
        }
    }

    /// Append an address to an identity's history, making it the new head.
    /// Fails, changing nothing, exactly when the identity has no history
    /// entry on this branch: a commit never creates an entry implicitly.
    pub fn commit(&mut self, identity: &Identity, address: &Address) -> (r: Option<()>)
        ensures
            r is Some <==> old(self).histories().contains_key(identity.id),
            final(self).owner == old(self).owner,
            final(self).histories() == if old(self).histories().contains_key(identity.id) {
                old(self).histories().insert(
                    identity.id,
                    old(self).histories()[identity.id].push(*address),
                )
            } else {
                old(self).histories()
            },
    {
        match self.cached_identities.remove(&identity.id) {
            None => None,
            Some(mut versions) => {
                versions.push(*address);
                self.cached_identities.insert(identity.id, versions);
                proof {
                    assert(self.histories() =~= old(self).histories().insert(
                        identity.id,
                        old(self).histories()[identity.id].push(*address),
                    ));
                }
                Some(())
            },
        }
    }
}

/// The head is absent both for an identity that was never seeded and for one
/// seeded with an empty history: the two states collapse to one answer.
pub proof fn lemma_head_absent(histories: Map<u64, Seq<Address>>, id: u64)
    requires
        !histories.contains_key(id) || histories[id].len() == 0,
    ensures
        head_of(histories, id) is None,
{
}

/// After a commit is accepted, the committed address is immediately the
/// identity's head.
pub proof fn lemma_commit_sets_head(histories: Map<u64, Seq<Address>>, id: u64, a: Address)
    requires
        histories.contains_key(id),
    ensures
        head_of(histories.insert(id, histories[id].push(a)), id) == Some(a),
{
}

/// A commit only extends history: every address recorded for any identity
/// before an accepted commit is still recorded, at its old position, after
/// it.
pub proof fn lemma_commit_preserves_history(
    histories: Map<u64, Seq<Address>>,
    id: u64,
    a: Address,
)
    requires
        histories.contains_key(id),
    ensures
        ({
            let after = histories.insert(id, histories[id].push(a));
            forall|j: u64, k: int|
                histories.contains_key(j) && 0 <= k < histories[j].len() ==> {
                    &&& after.contains_key(j)
                    &&& after[j].len() >= histories[j].len()
                    &&& after[j][k] == histories[j][k]
                }
        }),
{
}

} // verus!
