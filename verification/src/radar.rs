//! The obstacle radar: which entities overlap a box around the body.
//!
//! The radar itself is the component of the controller's integration layer.
//! This module drives it through one tick: it opens the tick, then marks
//! every entity the backend reports except the radar's owner.

use crate::entity::{is_entity_bits, names_entity, EntityId};
use bevy_tnua_physics_integration_layer::obstacle_radar::TnuaObstacleRadar;
use vstd::prelude::*;

verus! {

/// The radar component of the integration layer. Nothing inside it is
/// visible here.
#[verifier::external_type_specification]
#[verifier::external_body]
pub struct ExTnuaObstacleRadar(TnuaObstacleRadar);

/// A position as the integration layer takes it. Nothing inside it is visible
/// here: it is handed through.
#[verifier::external_type_specification]
#[verifier::external_body]
pub struct ExPosition(bevy::math::Vec3);

/// A direction as the integration layer takes it. Nothing inside it is
/// visible here: it is handed through.
#[verifier::external_type_specification]
#[verifier::external_body]
pub struct ExDirection(bevy::math::Dir3);

/// The blips of a radar: each entity it holds, by the bits of its identifier,
/// with whether it was marked since the tick was opened.
pub uninterp spec fn radar_blips(radar: TnuaObstacleRadar) -> Map<EntityId, bool>;

/// The entity a radar belongs to, by the bits of its identifier, as of the
/// last tick that was opened.
pub uninterp spec fn radar_owner(radar: TnuaObstacleRadar) -> EntityId;

/// The blips after a tick is opened: those marked in the tick before stay,
/// no longer marked, and the others are dropped.
pub open spec fn aged(blips: Map<EntityId, bool>) -> Map<EntityId, bool> {
    Map::new(|entity: EntityId| blips.contains_key(entity) && blips[entity], |entity: EntityId| false)
}

/// The entities marked since the tick was opened.
pub open spec fn seen_now(blips: Map<EntityId, bool>) -> Set<EntityId> {
    Set::new(|entity: EntityId| blips.contains_key(entity) && blips[entity])
}

/// The blips after the backend has reported an overlap with `obstacle` to the
/// radar of `owner`: the obstacle is marked, unless it is the owner itself or
/// not an entity at all.
pub open spec fn overlapped(
    blips: Map<EntityId, bool>,
    owner: EntityId,
    obstacle: EntityId,
) -> Map<EntityId, bool> {
    if obstacle != owner && is_entity_bits(obstacle) {
        blips.insert(obstacle, true)
    } else {
        blips
    }
}

/// The blips after the backend has reported the first `count` of
/// `obstacles`, one after the other.
pub open spec fn overlapped_all(
    blips: Map<EntityId, bool>,
    owner: EntityId,
    obstacles: Seq<EntityId>,
    count: int,
) -> Map<EntityId, bool>
    decreases count,
{
    if count <= 0 {
        blips
    } else {
        overlapped(overlapped_all(blips, owner, obstacles, count - 1), owner, obstacles[count - 1])
    }
}

/// The entities that a scan marks: those reported, other than the owner.
pub open spec fn reported(owner: EntityId, obstacles: Seq<EntityId>) -> Set<EntityId> {
    Set::new(
        |entity: EntityId| entity != owner && is_entity_bits(entity) && obstacles.contains(entity),
    )
}

/// Calls `Entity::from_bits` on the owner and then
/// `TnuaObstacleRadar::pre_marking_update`.
///
/// The source of `pre_marking_update` stores its three arguments, drops every
/// blip whose status is `Unseen` and sets the status of every remaining blip
/// to `Unseen`: the contract says that of the blips and of the owner, and
/// nothing of the position and the direction that are stored. `from_bits`
/// panics on bits that are not an entity's, which the precondition leaves
/// out.
#[verifier::external_body]
fn call_pre_marking_update(
    radar: &mut TnuaObstacleRadar,
    owner: EntityId,
    position: bevy::math::Vec3,
    up: bevy::math::Dir3,
)
    requires
        is_entity_bits(owner),
    ensures
        radar_blips(*final(radar)) == aged(radar_blips(*old(radar))),
        radar_owner(*final(radar)) == owner,
{
    radar.pre_marking_update(bevy::ecs::entity::Entity::from_bits(owner), position, up)
}

/// Calls `Entity::from_bits` on the entity and then
/// `TnuaObstacleRadar::mark_seen`, whose source inserts the entity among the
/// blips with the status `Seen` and touches nothing else. `from_bits` panics
/// on bits that are not an entity's, which the precondition leaves out.
#[verifier::external_body]
fn call_mark_seen(radar: &mut TnuaObstacleRadar, entity: EntityId)
    requires
        is_entity_bits(entity),
    ensures
        radar_blips(*final(radar)) == radar_blips(*old(radar)).insert(entity, true),
        radar_owner(*final(radar)) == radar_owner(*old(radar)),
{
    radar.mark_seen(bevy::ecs::entity::Entity::from_bits(entity))
}

/// Opens a tick of the radar: the owner, its position and the up direction
/// are handed to the radar, and no blip is marked any more.
///
/// Returns whether the tick was opened: it is not, and the radar is left as
/// it is, where the owner is not an entity.
pub fn pre_marking_update(
    radar: &mut TnuaObstacleRadar,
    owner: EntityId,
    position: bevy::math::Vec3,
    up: bevy::math::Dir3,
) -> (opened: bool)
    ensures
        opened == is_entity_bits(owner),
        radar_blips(*final(radar)) == if opened {
            aged(radar_blips(*old(radar)))
        } else {
            radar_blips(*old(radar))
        },
        radar_owner(*final(radar)) == if opened {
            owner
        } else {
            radar_owner(*old(radar))
        },
        opened ==> seen_now(radar_blips(*final(radar))) == Set::<EntityId>::empty(),
{
    if !names_entity(owner) {
        return false;
    }
    call_pre_marking_update(radar, owner, position, up);
    assert(seen_now(radar_blips(*radar)) =~= Set::<EntityId>::empty());
    true
}

/// Takes one overlap that the backend reports to the radar of `owner`: marks
/// the obstacle unless it is the owner itself. The answer tells the backend to
/// go on reporting, and is always `true`.
pub fn on_overlap(radar: &mut TnuaObstacleRadar, owner: EntityId, obstacle: EntityId) -> (go_on: bool)
    ensures
        go_on,
        radar_blips(*final(radar)) == overlapped(radar_blips(*old(radar)), owner, obstacle),
        radar_owner(*final(radar)) == radar_owner(*old(radar)),
{
    if owner == obstacle {
        return true;
    }
    if names_entity(obstacle) {
        call_mark_seen(radar, obstacle);
    }
    true
}

/// The entities that the first `count` reports mark: those reported, other
/// than the owner.
pub open spec fn reported_among(owner: EntityId, obstacles: Seq<EntityId>, count: int) -> Set<
    EntityId,
> {
    Set::new(
        |entity: EntityId|
            entity != owner && is_entity_bits(entity) && exists|j: int|
                0 <= j < count && #[trigger] obstacles[j] == entity,
    )
}

/// After any number of reports the radar holds what it held together with
/// the entities reported, other than the owner, and these are marked.
pub proof fn lemma_overlaps_mark_what_is_reported(
    blips: Map<EntityId, bool>,
    owner: EntityId,
    obstacles: Seq<EntityId>,
    count: int,
)
    requires
        0 <= count <= obstacles.len(),
    ensures
        overlapped_all(blips, owner, obstacles, count) == Map::new(
            |entity: EntityId|
                blips.contains_key(entity) || reported_among(owner, obstacles, count).contains(
                    entity,
                ),
            |entity: EntityId|
                if reported_among(owner, obstacles, count).contains(entity) {
                    true
                } else {
                    blips[entity]
                },
        ),
    decreases count,
{
    let target = Map::new(
        |entity: EntityId|
            blips.contains_key(entity) || reported_among(owner, obstacles, count).contains(entity),
        |entity: EntityId|
            if reported_among(owner, obstacles, count).contains(entity) {
                true
            } else {
                blips[entity]
            },
    );
    if count == 0 {
        assert(overlapped_all(blips, owner, obstacles, count) =~= target);
    } else {
        lemma_overlaps_mark_what_is_reported(blips, owner, obstacles, count - 1);
        let before = overlapped_all(blips, owner, obstacles, count - 1);
        let obstacle = obstacles[count - 1];
        let after = overlapped(before, owner, obstacle);
        let earlier = reported_among(owner, obstacles, count - 1);
        let now = reported_among(owner, obstacles, count);
        assert forall|entity: EntityId| now.contains(entity) <==> earlier.contains(entity) || (
        entity == obstacle && obstacle != owner && is_entity_bits(obstacle)) by {
            if earlier.contains(entity) {
                let j = choose|j: int| 0 <= j < count - 1 && #[trigger] obstacles[j] == entity;
                assert(obstacles[j] == entity);
            }
            if entity == obstacle {
                assert(obstacles[count - 1] == entity);
            }
            if now.contains(entity) {
                let j = choose|j: int| 0 <= j < count && #[trigger] obstacles[j] == entity;
                if j < count - 1 {
                    assert(obstacles[j] == entity);
                }
            }
        }
        assert(after =~= target);
    }
}

/// A whole tick of the radar over the overlaps the backend found: opens the
/// tick, then takes every overlap in turn.
///
/// Afterwards exactly the reported entities other than the owner are marked,
/// and the radar holds, unmarked, those that were marked in the tick before
/// and not again. Where the owner is not an entity nothing is done.
pub fn scan(
    radar: &mut TnuaObstacleRadar,
    owner: EntityId,
    position: bevy::math::Vec3,
    up: bevy::math::Dir3,
    overlaps: &Vec<EntityId>,
) -> (opened: bool)
    ensures
        opened == is_entity_bits(owner),
        !opened ==> radar_blips(*final(radar)) == radar_blips(*old(radar)),
        opened ==> radar_blips(*final(radar)) == overlapped_all(
            aged(radar_blips(*old(radar))),
            owner,
            overlaps@,
            overlaps@.len() as int,
        ),
        opened ==> seen_now(radar_blips(*final(radar))) == reported(owner, overlaps@),
        opened ==> radar_blips(*final(radar)).dom() == seen_now(radar_blips(*old(radar))).union(
            reported(owner, overlaps@),
        ),
        radar_owner(*final(radar)) == if opened {
            owner
        } else {
            radar_owner(*old(radar))
        },
{
    if !pre_marking_update(radar, owner, position, up) {
        return false;
    }
    let ghost opened = radar_blips(*radar);
    let mut i: usize = 0;
    while i < overlaps.len()
        invariant
            0 <= i <= overlaps@.len(),
            radar_blips(*radar) == overlapped_all(opened, owner, overlaps@, i as int),
            radar_owner(*radar) == owner,
        decreases overlaps@.len() - i,
    {
        let obstacle = overlaps[i];
        on_overlap(radar, owner, obstacle);
        i += 1;
    }
    proof {
        let after = radar_blips(*radar);
        let marked = reported(owner, overlaps@);
        let count = overlaps@.len() as int;
        lemma_overlaps_mark_what_is_reported(opened, owner, overlaps@, count);
        assert forall|e: EntityId| marked.contains(e) <==> reported_among(
            owner,
            overlaps@,
            count,
        ).contains(e) by {
            if marked.contains(e) {
                let j = choose|j: int| 0 <= j < overlaps@.len() && overlaps@[j] == e;
                assert(overlaps@[j] == e);
            }
            if reported_among(owner, overlaps@, count).contains(e) {
                let j = choose|j: int| 0 <= j < count && #[trigger] overlaps@[j] == e;
                assert(overlaps@[j] == e);
            }
        }
        assert(seen_now(after) =~= marked);
        assert(after.dom() =~= seen_now(radar_blips(*old(radar))).union(marked));
    }
    true
}

} // verus!
