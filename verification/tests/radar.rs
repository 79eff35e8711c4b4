use bevy::math::{Dir3, Vec3};
use bevy::prelude::Entity;
use bevy_tnua_physics_integration_layer::obstacle_radar::TnuaObstacleRadar;
use tnua_rapier2d::entity::names_entity;
use tnua_rapier2d::radar::{on_overlap, pre_marking_update, scan};

fn id(index: u32) -> u64 {
    Entity::from_raw(index).to_bits()
}

fn blips(radar: &TnuaObstacleRadar) -> Vec<u64> {
    let mut found: Vec<u64> = radar.iter_blips().map(|entity| entity.to_bits()).collect();
    found.sort();
    found
}

fn sorted(mut ids: Vec<u64>) -> Vec<u64> {
    ids.sort();
    ids
}

#[test]
fn entity_bits_are_told_from_other_numbers() {
    assert!(names_entity(id(0)));
    assert!(names_entity(id(5)));
    assert!(names_entity(id(u32::MAX)));
    assert!(names_entity(1 << 32));
    assert!(names_entity(0x7fff_ffff_ffff_ffff));
    assert!(!names_entity(0));
    assert!(!names_entity(5));
    assert!(!names_entity(0xffff_ffff));
    assert!(!names_entity(1 << 63));
    assert!(!names_entity(u64::MAX));
    for bits in [0, 1, 0xffff_ffff, 1 << 32, (1 << 32) + 7, 1 << 62, 1 << 63, (1 << 63) + (1 << 32), u64::MAX, id(9)] {
        assert_eq!(names_entity(bits), Entity::try_from_bits(bits).is_ok());
    }
}

#[test]
fn scan_marks_every_overlap_but_the_owner() {
    let mut radar = TnuaObstacleRadar::new(1.0, 2.0);
    let position = Vec3::new(4.0, 5.0, 0.0);
    let opened = scan(&mut radar, id(1), position, Dir3::NEG_Y, &vec![id(5), id(1), id(7), id(5), id(1)]);
    assert!(opened);
    assert_eq!(blips(&radar), sorted(vec![id(5), id(7)]));
    assert!(radar.has_blip(Entity::from_raw(5)));
    assert!(radar.has_blip(Entity::from_raw(7)));
    assert!(!radar.has_blip(Entity::from_raw(1)));
    assert!(!radar.has_blip(Entity::from_raw(6)));
    assert_eq!(radar.tracked_entity(), Entity::from_raw(1));
    assert_eq!(radar.tracked_position(), position);
    assert_eq!(radar.up_direction(), Dir3::NEG_Y);
}

#[test]
fn what_was_marked_a_tick_ago_lingers_for_one_tick() {
    let mut radar = TnuaObstacleRadar::new(1.0, 2.0);
    let owner = id(1);
    assert!(scan(&mut radar, owner, Vec3::ZERO, Dir3::Y, &vec![id(5), id(7)]));
    assert_eq!(blips(&radar), sorted(vec![id(5), id(7)]));
    assert!(scan(&mut radar, owner, Vec3::ZERO, Dir3::Y, &vec![id(7), id(9)]));
    assert_eq!(blips(&radar), sorted(vec![id(5), id(7), id(9)]));
    assert!(scan(&mut radar, owner, Vec3::ZERO, Dir3::Y, &vec![]));
    assert_eq!(blips(&radar), sorted(vec![id(7), id(9)]));
    assert!(scan(&mut radar, owner, Vec3::ZERO, Dir3::Y, &vec![]));
    assert_eq!(blips(&radar), Vec::<u64>::new());
}

#[test]
fn opening_a_tick_ages_the_blips() {
    let mut radar = TnuaObstacleRadar::new(1.0, 2.0);
    let owner = id(1);
    assert!(pre_marking_update(&mut radar, owner, Vec3::ZERO, Dir3::Y));
    assert!(on_overlap(&mut radar, owner, id(5)));
    assert!(pre_marking_update(&mut radar, owner, Vec3::ZERO, Dir3::Y));
    assert_eq!(blips(&radar), vec![id(5)]);
    assert!(pre_marking_update(&mut radar, owner, Vec3::ZERO, Dir3::Y));
    assert_eq!(blips(&radar), Vec::<u64>::new());
}

#[test]
fn overlaps_can_be_taken_one_by_one() {
    let mut radar = TnuaObstacleRadar::new(1.0, 2.0);
    let owner = id(1);
    assert!(pre_marking_update(&mut radar, owner, Vec3::ZERO, Dir3::Y));
    assert!(on_overlap(&mut radar, owner, id(5)));
    assert!(on_overlap(&mut radar, owner, owner));
    assert!(on_overlap(&mut radar, owner, id(5)));
    assert!(on_overlap(&mut radar, owner, id(6)));
    assert_eq!(blips(&radar), sorted(vec![id(5), id(6)]));
}

#[test]
fn a_number_that_is_no_entity_is_never_marked() {
    let mut radar = TnuaObstacleRadar::new(1.0, 2.0);
    let owner = id(1);
    assert!(pre_marking_update(&mut radar, owner, Vec3::ZERO, Dir3::Y));
    for stray in [0, 7, 1 << 63, u64::MAX] {
        assert!(on_overlap(&mut radar, owner, stray));
    }
    assert_eq!(blips(&radar), Vec::<u64>::new());
    assert!(scan(&mut radar, owner, Vec3::ZERO, Dir3::Y, &vec![0, id(3), u64::MAX]));
    assert_eq!(blips(&radar), vec![id(3)]);
}

#[test]
fn a_radar_whose_owner_is_no_entity_is_left_alone() {
    let mut radar = TnuaObstacleRadar::new(1.0, 2.0);
    assert!(scan(&mut radar, id(1), Vec3::X, Dir3::Y, &vec![id(5)]));
    for stray in [0, 7, 1 << 63, u64::MAX] {
        assert!(!pre_marking_update(&mut radar, stray, Vec3::ZERO, Dir3::NEG_Y));
        assert!(!scan(&mut radar, stray, Vec3::ZERO, Dir3::NEG_Y, &vec![id(6)]));
    }
    assert_eq!(blips(&radar), vec![id(5)]);
    assert_eq!(radar.tracked_entity(), Entity::from_raw(1));
    assert_eq!(radar.tracked_position(), Vec3::X);
    assert_eq!(radar.up_direction(), Dir3::Y);
}
