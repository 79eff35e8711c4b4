//! Which surfaces a cast may stop at.
//!
//! The backend asks, for each collider its cast meets, whether the sensor
//! takes it as a candidate. [`Screening::admits`] is that answer.

use crate::entity::{EntityId, EntitySet};
use crate::groups::InteractionGroups;
use crate::scalar::{raw_product, Scalar, ONE};
use crate::vector::{Vector2, Vector3};
use vstd::prelude::*;

verus! {

/// What the backend knows of the collider of a candidate.
#[derive(Clone, Copy, Debug, PartialEq, Eq, Structural)]
pub struct ColliderTraits {
    /// The groups by which the collider picks whom it solves contacts with.
    pub solver_groups: InteractionGroups,
    /// Whether the collider only detects overlaps and is not solid.
    pub is_sensor: bool,
}

/// The groups of the collider of the entity that owns a sensor.
#[derive(Clone, Copy, Debug, PartialEq, Eq, Structural)]
pub struct OwnerCollider {
    /// The groups by which the collider picks whom it collides with.
    pub collision_groups: InteractionGroups,
    /// The groups by which the collider picks whom it solves contacts with.
    pub solver_groups: InteractionGroups,
}

/// One manifold of a standing contact between two colliders.
#[derive(Clone, Copy, Debug, PartialEq, Eq, Structural)]
pub struct Manifold {
    /// The number of contact points.
    pub num_points: usize,
    /// The contact normal as the first collider sees it.
    pub local_n1: Vector2,
    /// The contact normal as the second collider sees it.
    pub local_n2: Vector2,
}

/// A standing contact between the owner of a sensor and a candidate.
#[derive(Debug)]
pub struct ContactPair {
    /// The entity of the first collider of the pair.
    pub collider1: EntityId,
    /// The manifolds of the contact.
    pub manifolds: Vec<Manifold>,
}

/// A collider that a cast has met, with what the caller looked up about it.
#[derive(Debug)]
pub struct Candidate {
    /// The entity of the collider.
    pub entity: EntityId,
    /// The collider's traits, where the backend has a collider for the entity.
    pub collider: Option<ColliderTraits>,
    /// Whether the entity is marked as a ghost platform.
    pub is_ghost: bool,
    /// The standing contact between the owner and this entity, if any.
    pub contact: Option<ContactPair>,
}

/// What the backend is told to leave out of a cast before it asks about
/// single candidates.
#[derive(Clone, Copy, Debug, PartialEq, Eq, Structural)]
pub struct CastFilter {
    /// The body whose colliders the cast never stops at.
    pub exclude_body: EntityId,
    /// The collision groups the cast goes by, where the owner has a collider.
    pub groups: Option<InteractionGroups>,
}

/// The entity a sensor filters and reports for: the one it serves, or itself
/// where it serves no other.
pub open spec fn owner_of(sensor: EntityId, subservient_to: Option<EntityId>) -> EntityId {
    match subservient_to {
        Some(owner) => owner,
        None => sensor,
    }
}

/// The entity a sensor filters and reports for: the one it serves, or itself
/// where it serves no other.
pub fn effective_owner(sensor: EntityId, subservient_to: Option<EntityId>) -> (owner: EntityId)
    ensures
        owner == owner_of(sensor, subservient_to),
{
    match subservient_to {
        Some(owner) => owner,
        None => sensor,
    }
}

/// How far a contact normal points along the cast direction: their dot
/// product in the simulation plane, in units of 1/65536².
pub open spec fn alignment(normal: Vector2, direction: Vector3) -> int {
    normal.x * direction.x + normal.y * direction.y
}

/// Whether a contact normal points further along the cast direction than the
/// cutoff allows.
pub open spec fn exceeds_cutoff(cutoff: Scalar, normal: Vector2, direction: Vector3) -> bool {
    cutoff * ONE < alignment(normal, direction)
}

/// The normal of a manifold that faces the owner.
pub open spec fn facing_owner(manifold: Manifold, owner_is_first: bool) -> Vector2 {
    if owner_is_first {
        manifold.local_n2
    } else {
        manifold.local_n1
    }
}

/// Whether a manifold tells that the owner already rests on the candidate:
/// it has a contact point and its normal exceeds the cutoff.
pub open spec fn manifold_rejects(
    manifold: Manifold,
    owner_is_first: bool,
    cutoff: Scalar,
    direction: Vector3,
) -> bool {
    0 < manifold.num_points && exceeds_cutoff(
        cutoff,
        facing_owner(manifold, owner_is_first),
        direction,
    )
}

/// The settings by which one sensor screens its candidates.
#[derive(Clone, Copy, Debug, PartialEq, Eq, Structural)]
pub struct Screening {
    /// The entity the sensor filters for.
    pub owner: EntityId,
    /// The solver groups of the owner's collider, or the groups that interact
    /// with everything where it has none.
    pub owner_solver_groups: InteractionGroups,
    /// The cutoff of the contact-normal rejection.
    pub cutoff: Scalar,
    /// The cast direction.
    pub direction: Vector3,
}

impl Screening {
    /// Whether some manifold of a standing contact rejects the candidate.
    pub open spec fn contact_rejects(self, contact: ContactPair) -> bool {
        exists|i: int|
            0 <= i < contact.manifolds@.len() && manifold_rejects(
                #[trigger] contact.manifolds@[i],
                self.owner == contact.collider1,
                self.cutoff,
                self.direction,
            )
    }

    /// Whether the candidate's collider lets it be a candidate: it is solid,
    /// and it solves contacts with the owner or belongs to a ghost platform.
    /// An entity without a collider passes.
    pub open spec fn collider_admits(self, candidate: Candidate) -> bool {
        match candidate.collider {
            Some(traits) => {
                &&& !traits.is_sensor
                &&& (traits.solver_groups.interacts_with(self.owner_solver_groups)
                    || candidate.is_ghost)
            },
            None => true,
        }
    }

    /// Whether a cast may stop at the candidate, given the ghost platforms
    /// that this pass has already gone through.
    pub open spec fn admits(self, visited: Set<EntityId>, candidate: Candidate) -> bool {
        &&& candidate.entity != self.owner
        &&& !visited.contains(candidate.entity)
        &&& self.collider_admits(candidate)
        &&& match candidate.contact {
            Some(contact) => !self.contact_rejects(contact),
            None => true,
        }
    }

    /// What the backend is told to leave out before it asks about single
    /// candidates: the owner's body, and what the owner's collision groups
    /// exclude.
    pub open spec fn cast_filter_of(owner: EntityId, collider: Option<OwnerCollider>) -> CastFilter {
        CastFilter {
            exclude_body: owner,
            groups: match collider {
                Some(collider) => Some(collider.collision_groups),
                None => None,
            },
        }
    }

    /// What the backend is told to leave out before it asks about single
    /// candidates.
    pub fn cast_filter(owner: EntityId, collider: Option<OwnerCollider>) -> (filter: CastFilter)
        ensures
            filter == Screening::cast_filter_of(owner, collider),
    {
        CastFilter {
            exclude_body: owner,
            groups: match collider {
                Some(collider) => Some(collider.collision_groups),
                None => None,
            },
        }
    }

    /// Whether a contact normal points further along the cast direction than
    /// the cutoff allows.
    pub fn normal_exceeds_cutoff(&self, normal: Vector2) -> (exceeds: bool)
        ensures
            exceeds == exceeds_cutoff(self.cutoff, normal, self.direction),
    {
        let along_x: i128 = raw_product(normal.x, self.direction.x);
        let along_y: i128 = raw_product(normal.y, self.direction.y);
        let threshold: i128 = (self.cutoff as i128) * 65536;
        threshold - along_x < along_y
    }

    /// Whether some manifold of a standing contact rejects the candidate.
    pub fn rejects_contact(&self, contact: &ContactPair) -> (rejected: bool)
        ensures
            rejected == self.contact_rejects(*contact),
    {
        let owner_is_first = self.owner == contact.collider1;
        let mut i: usize = 0;
        while i < contact.manifolds.len()
            invariant
                0 <= i <= contact.manifolds@.len(),
                owner_is_first == (self.owner == contact.collider1),
                forall|j: int|
                    0 <= j < i ==> !manifold_rejects(
                        #[trigger] contact.manifolds@[j],
                        owner_is_first,
                        self.cutoff,
                        self.direction,
                    ),
            decreases contact.manifolds@.len() - i,
        {
            let manifold = contact.manifolds[i];
            if 0 < manifold.num_points {
                let normal = if owner_is_first {
                    manifold.local_n2
                } else {
                    manifold.local_n1
                };
                if self.normal_exceeds_cutoff(normal) {
                    return true;
                }
            }
            i += 1;
        }
        false
    }

    /// Whether a cast may stop at the candidate, given the ghost platforms
    /// that this pass has already gone through.
    pub(crate) fn admits_candidate(&self, visited: &EntitySet, candidate: &Candidate) -> (admitted: bool)
        ensures
            admitted == self.admits(visited@, *candidate),
    {
        if candidate.entity == self.owner {
            return false;
        }
        if visited.contains(candidate.entity) {
            return false;
        }
        if let Some(traits) = candidate.collider {
            if !traits.solver_groups.test(self.owner_solver_groups) && !candidate.is_ghost {
                return false;
            }
            if traits.is_sensor {
                return false;
            }
        }
        if let Some(contact) = &candidate.contact {
            if self.rejects_contact(contact) {
                return false;
            }
        }
        true
    }
}

} // verus!
