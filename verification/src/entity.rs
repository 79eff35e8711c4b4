//! Entity identifiers and sets of them.

use vstd::prelude::*;

verus! {

/// The identity of an entity of the simulation: the bits of its identifier
/// in the entity store.
pub type EntityId = u64;

/// Whether a number is the bits of an entity identifier: its upper half is
/// the generation, which is not zero and has its top bit clear.
pub open spec fn is_entity_bits(bits: u64) -> bool {
    0 < (bits >> 32) < 0x8000_0000
}

/// Whether a number is the bits of an entity identifier.
pub fn names_entity(bits: EntityId) -> (named: bool)
    ensures
        named == is_entity_bits(bits),
{
    let generation: u64 = bits >> 32;
    0 < generation && generation < 0x8000_0000
}

/// A set of entity identifiers, kept in the hash set of `bevy::utils`.
///
/// Nothing of the hash set is verified here: what it holds is named by
/// [`entity_set_members`], and each operation below states what the hash set's
/// own documentation promises of it.
#[verifier::external_body]
pub struct EntitySet {
    ids: bevy::utils::HashSet<u64>,
}

/// The identifiers that an [`EntitySet`] holds.
pub uninterp spec fn entity_set_members(set: EntitySet) -> Set<EntityId>;

impl View for EntitySet {
    type V = Set<EntityId>;

    open spec fn view(&self) -> Set<EntityId> {
        entity_set_members(*self)
    }
}

impl EntitySet {
    /// Calls `HashSet::default`, which creates an empty set.
    #[verifier::external_body]
    pub(crate) fn empty() -> (set: EntitySet)
        ensures
            entity_set_members(set) == Set::<EntityId>::empty(),
    {
        EntitySet { ids: bevy::utils::HashSet::default() }
    }

    /// Calls `HashSet::insert`, which adds the value and returns whether the
    /// set did not hold it before.
    #[verifier::external_body]
    pub(crate) fn insert(&mut self, id: EntityId) -> (fresh: bool)
        ensures
            entity_set_members(*final(self)) == entity_set_members(*old(self)).insert(id),
            fresh == !entity_set_members(*old(self)).contains(id),
    {
        self.ids.insert(id)
    }

    /// Calls `HashSet::contains`, which returns whether the set holds the value.
    #[verifier::external_body]
    pub(crate) fn contains(&self, id: EntityId) -> (found: bool)
        ensures
            found == entity_set_members(*self).contains(id),
    {
        self.ids.contains(&id)
    }
}

} // verus!
