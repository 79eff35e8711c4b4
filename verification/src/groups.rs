//! Interaction groups: the bit masks by which colliders choose their partners.

use vstd::prelude::*;

verus! {

/// The membership and filter masks of a collider.
#[derive(Clone, Copy, Debug, PartialEq, Eq, Structural)]
pub struct InteractionGroups {
    /// The groups the collider belongs to.
    pub memberships: u32,
    /// The groups the collider interacts with.
    pub filter: u32,
}

impl InteractionGroups {
    /// The groups that interact with everything.
    pub open spec fn everything() -> InteractionGroups {
        InteractionGroups { memberships: 0xffff_ffff, filter: 0xffff_ffff }
    }

    /// Whether two colliders interact: each one's memberships share a bit with
    /// the other's filter.
    pub open spec fn interacts_with(self, other: InteractionGroups) -> bool {
        (self.memberships & other.filter) != 0 && (other.memberships & self.filter) != 0
    }

    /// The groups that interact with everything.
    pub fn all() -> (groups: InteractionGroups)
        ensures
            groups == InteractionGroups::everything(),
    {
        InteractionGroups { memberships: 0xffff_ffff, filter: 0xffff_ffff }
    }

    /// Whether two colliders interact, as the physics engine decides it.
    pub fn test(self, other: InteractionGroups) -> (allowed: bool)
        ensures
            allowed == self.interacts_with(other),
    {
        engine_test(self, other)
    }
}

/// Calls `InteractionGroups::test` of rapier on the same masks. Its source
/// computes `(self.memberships & rhs.filter) != 0 && (rhs.memberships &
/// self.filter) != 0` on the masks' bits, which is what the contract claims.
#[verifier::external_body]
fn engine_test(lhs: InteractionGroups, rhs: InteractionGroups) -> (allowed: bool)
    ensures
        allowed == lhs.interacts_with(rhs),
{
    let ours = bevy_rapier2d::rapier::geometry::InteractionGroups::new(
        lhs.memberships.into(),
        lhs.filter.into(),
    );
    let theirs = bevy_rapier2d::rapier::geometry::InteractionGroups::new(
        rhs.memberships.into(),
        rhs.filter.into(),
    );
    ours.test(theirs)
}

} // verus!
