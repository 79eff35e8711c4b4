//! The rigid-body tracker: where the body is and how it moves, as of this
//! tick.

use crate::motor::Velocity;
use crate::scalar::ONE;
use crate::toggle::Toggle;
use crate::vector::{Quat, Vector2, Vector3};
use vstd::prelude::*;

verus! {

/// What the backend knows of a body in one tick.
#[derive(Clone, Copy, Debug, PartialEq, Eq, Structural)]
pub struct BodySample {
    /// The position of the body in the world.
    pub translation: Vector3,
    /// The rotation of the body in the world.
    pub rotation: Quat,
    /// The velocity of the body.
    pub velocity: Velocity,
    /// The gravity of the simulation.
    pub gravity: Vector2,
}

/// The state of a body as the controller reads it.
#[derive(Clone, Copy, Debug, PartialEq, Eq, Structural)]
pub struct RigidBodyTracker {
    /// The position of the body in the world.
    pub translation: Vector3,
    /// The rotation of the body in the world.
    pub rotation: Quat,
    /// The linear velocity.
    pub velocity: Vector3,
    /// The angular velocity: the rotation axis times the speed of rotation.
    pub angvel: Vector3,
    /// The gravity that acts on the body.
    pub gravity: Vector3,
}

impl RigidBodyTracker {
    /// The tracker of a body at rest at the origin.
    pub open spec fn at_rest() -> RigidBodyTracker {
        RigidBodyTracker {
            translation: Vector3::zero(),
            rotation: Quat { x: 0, y: 0, z: 0, w: ONE },
            velocity: Vector3::zero(),
            angvel: Vector3::zero(),
            gravity: Vector3::zero(),
        }
    }

    /// What a tracker holds after it has taken a sample: the sample's
    /// position and rotation, and its planar quantities laid into space.
    pub open spec fn tracking(sample: BodySample) -> RigidBodyTracker {
        RigidBodyTracker {
            translation: sample.translation,
            rotation: sample.rotation,
            velocity: sample.velocity.linvel.extended(0),
            angvel: Vector3 { x: 0, y: 0, z: sample.velocity.angvel },
            gravity: sample.gravity.extended(0),
        }
    }

    /// What a tracker is to hold after this tick's sample: the sample, laid
    /// into space, or `None` for a disabled entity, whose tracker keeps what
    /// it held.
    pub fn capture(toggle: Toggle, sample: &BodySample) -> (captured: Option<RigidBodyTracker>)
        ensures
            captured == if toggle.senses() {
                Some(RigidBodyTracker::tracking(*sample))
            } else {
                None
            },
    {
        if !toggle.runs_sensors() {
            return None;
        }
        Some(
            RigidBodyTracker {
                translation: sample.translation,
                rotation: sample.rotation,
                velocity: sample.velocity.linvel.extend(0),
                angvel: Vector3 { x: 0, y: 0, z: sample.velocity.angvel },
                gravity: sample.gravity.extend(0),
            },
        )
    }

    /// Takes this tick's sample of the body.
    ///
    /// The tracker of a disabled entity keeps what it held; any other is
    /// overwritten as a whole.
    pub fn update(&mut self, toggle: Toggle, sample: &BodySample)
        ensures
            *final(self) == if toggle.senses() {
                RigidBodyTracker::tracking(*sample)
            } else {
                *old(self)
            },
    {
        if let Some(captured) = RigidBodyTracker::capture(toggle, sample) {
            *self = captured;
        }
    }
}

impl Default for RigidBodyTracker {
    fn default() -> (tracker: RigidBodyTracker)
        ensures
            tracker == RigidBodyTracker::at_rest(),
    {
        RigidBodyTracker {
            translation: Vector3 { x: 0, y: 0, z: 0 },
            rotation: Quat { x: 0, y: 0, z: 0, w: ONE },
            velocity: Vector3 { x: 0, y: 0, z: 0 },
            angvel: Vector3 { x: 0, y: 0, z: 0 },
            gravity: Vector3 { x: 0, y: 0, z: 0 },
        }
    }
}

} // verus!
