use tnua_rapier2d::motor::Velocity;
use tnua_rapier2d::scalar::{whole, ONE};
use tnua_rapier2d::toggle::Toggle;
use tnua_rapier2d::tracker::{BodySample, RigidBodyTracker};
use tnua_rapier2d::vector::{Quat, Vector2, Vector3};

#[test]
fn a_missing_toggle_means_enabled() {
    assert_eq!(Toggle::or_enabled(None), Toggle::Enabled);
    assert_eq!(Toggle::or_enabled(Some(Toggle::Disabled)), Toggle::Disabled);
    assert_eq!(Toggle::or_enabled(Some(Toggle::SenseOnly)), Toggle::SenseOnly);
    assert_eq!(Toggle::or_enabled(Some(Toggle::Enabled)), Toggle::Enabled);
    assert_eq!(Toggle::default(), Toggle::Enabled);
}

#[test]
fn what_each_toggle_lets_run() {
    assert!(!Toggle::Disabled.runs_sensors());
    assert!(Toggle::SenseOnly.runs_sensors());
    assert!(Toggle::Enabled.runs_sensors());
    assert!(!Toggle::Disabled.runs_motor());
    assert!(!Toggle::SenseOnly.runs_motor());
    assert!(Toggle::Enabled.runs_motor());
}

fn sample() -> BodySample {
    BodySample {
        translation: Vector3 { x: whole(1), y: whole(2), z: whole(3) },
        rotation: Quat { x: 0, y: 0, z: ONE / 2, w: ONE / 2 },
        velocity: Velocity { linvel: Vector2 { x: whole(4), y: whole(5) }, angvel: whole(6) },
        gravity: Vector2 { x: 0, y: whole(-10) },
    }
}

#[test]
fn tracker_takes_the_sample_as_a_whole() {
    for toggle in [Toggle::Enabled, Toggle::SenseOnly] {
        let mut tracker = RigidBodyTracker::default();
        tracker.update(toggle, &sample());
        assert_eq!(
            tracker,
            RigidBodyTracker {
                translation: Vector3 { x: whole(1), y: whole(2), z: whole(3) },
                rotation: Quat { x: 0, y: 0, z: ONE / 2, w: ONE / 2 },
                velocity: Vector3 { x: whole(4), y: whole(5), z: 0 },
                angvel: Vector3 { x: 0, y: 0, z: whole(6) },
                gravity: Vector3 { x: 0, y: whole(-10), z: 0 },
            }
        );
    }
}

#[test]
fn tracker_of_a_disabled_entity_keeps_its_value() {
    let mut tracker = RigidBodyTracker::default();
    tracker.update(Toggle::Disabled, &sample());
    assert_eq!(tracker, RigidBodyTracker::default());
    tracker.update(Toggle::Enabled, &sample());
    let held = tracker;
    let mut other = sample();
    other.translation.x = whole(100);
    tracker.update(Toggle::Disabled, &other);
    assert_eq!(tracker, held);
}

#[test]
fn a_fresh_tracker_is_at_rest() {
    assert_eq!(
        RigidBodyTracker::default(),
        RigidBodyTracker {
            translation: Vector3 { x: 0, y: 0, z: 0 },
            rotation: Quat { x: 0, y: 0, z: 0, w: ONE },
            velocity: Vector3 { x: 0, y: 0, z: 0 },
            angvel: Vector3 { x: 0, y: 0, z: 0 },
            gravity: Vector3 { x: 0, y: 0, z: 0 },
        }
    );
}

#[test]
fn a_sample_is_captured_unless_the_entity_is_disabled() {
    assert_eq!(RigidBodyTracker::capture(Toggle::Disabled, &sample()), None);
    let mut expected = RigidBodyTracker::default();
    expected.update(Toggle::Enabled, &sample());
    assert_eq!(RigidBodyTracker::capture(Toggle::Enabled, &sample()), Some(expected));
    assert_eq!(RigidBodyTracker::capture(Toggle::SenseOnly, &sample()), Some(expected));
    assert_eq!(expected.velocity, Vector3 { x: whole(4), y: whole(5), z: 0 });
}
