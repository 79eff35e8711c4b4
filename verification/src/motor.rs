//! The motor: what the controller wants of the body, and how that becomes
//! velocity and force in the backend.

use crate::scalar::{checked_scale, checked_sum, representable, scaled_product, Scalar};
use crate::toggle::Toggle;
use crate::vector::{Vector2, Vector3};
use vstd::prelude::*;

verus! {

/// A change of velocity the controller asks for.
///
/// Either channel may be `None`: the controller then asks for nothing on it,
/// and the backend's value is left alone.
#[derive(Clone, Copy, Debug, PartialEq, Eq, Structural)]
pub struct VelChange {
    /// The part that is applied over time, as a force.
    pub acceleration: Option<Vector3>,
    /// The part that is added to the velocity as it is.
    pub boost: Option<Vector3>,
}

/// What the controller asks of the body in one tick.
#[derive(Clone, Copy, Debug, PartialEq, Eq, Structural)]
pub struct Motor {
    /// The change of linear velocity.
    pub lin: VelChange,
    /// The change of angular velocity, about the axis of the simulation
    /// plane.
    pub ang: VelChange,
}

/// The velocity of a body in the backend.
#[derive(Clone, Copy, Debug, PartialEq, Eq, Structural)]
pub struct Velocity {
    /// The linear velocity.
    pub linvel: Vector2,
    /// The angular velocity.
    pub angvel: Scalar,
}

/// The force and torque the backend applies to a body in each step.
#[derive(Clone, Copy, Debug, PartialEq, Eq, Structural)]
pub struct ExternalForce {
    /// The force.
    pub force: Vector2,
    /// The torque.
    pub torque: Scalar,
}

/// The mass properties of a body, as the backend reports them.
#[derive(Clone, Copy, Debug, PartialEq, Eq, Structural)]
pub struct MassProperties {
    /// The mass.
    pub mass: Scalar,
    /// The moment of inertia about the axis of the simulation plane.
    pub principal_inertia: Scalar,
}

/// The backend's components of a controlled body.
#[derive(Clone, Copy, Debug, PartialEq, Eq, Structural)]
pub struct TnuaRapier2dIOBundle {
    /// The velocity, which the motor's boosts are added to.
    pub velocity: Velocity,
    /// The force and torque, which the motor's accelerations set.
    pub external_force: ExternalForce,
    /// The mass properties, which turn accelerations into forces.
    pub read_mass_properties: MassProperties,
}

/// What is to be written to a body of the backend. A field that is `None` is
/// left as the backend has it.
#[derive(Clone, Copy, Debug, PartialEq, Eq, Structural)]
pub struct BodyWrites {
    /// The linear velocity to write.
    pub linvel: Option<Vector2>,
    /// The angular velocity to write.
    pub angvel: Option<Scalar>,
    /// The force to write.
    pub force: Option<Vector2>,
    /// The torque to write.
    pub torque: Option<Scalar>,
}

impl BodyWrites {
    /// The body once these writes are performed on it.
    pub open spec fn performed_on(self, body: TnuaRapier2dIOBundle) -> TnuaRapier2dIOBundle {
        TnuaRapier2dIOBundle {
            velocity: Velocity {
                linvel: match self.linvel {
                    Some(linvel) => linvel,
                    None => body.velocity.linvel,
                },
                angvel: match self.angvel {
                    Some(angvel) => angvel,
                    None => body.velocity.angvel,
                },
            },
            external_force: ExternalForce {
                force: match self.force {
                    Some(force) => force,
                    None => body.external_force.force,
                },
                torque: match self.torque {
                    Some(torque) => torque,
                    None => body.external_force.torque,
                },
            },
            read_mass_properties: body.read_mass_properties,
        }
    }

    /// Performs these writes on a body.
    pub fn perform(&self, body: &mut TnuaRapier2dIOBundle)
        ensures
            *final(body) == self.performed_on(*old(body)),
    {
        if let Some(linvel) = self.linvel {
            body.velocity.linvel = linvel;
        }
        if let Some(angvel) = self.angvel {
            body.velocity.angvel = angvel;
        }
        if let Some(force) = self.force {
            body.external_force.force = force;
        }
        if let Some(torque) = self.torque {
            body.external_force.torque = torque;
        }
    }
}

impl ExternalForce {
    /// No force and no torque.
    pub open spec fn none() -> ExternalForce {
        ExternalForce { force: Vector2::zero(), torque: 0 }
    }
}

impl Default for Velocity {
    fn default() -> (velocity: Velocity)
        ensures
            velocity == (Velocity { linvel: Vector2::zero(), angvel: 0 }),
    {
        Velocity { linvel: Vector2 { x: 0, y: 0 }, angvel: 0 }
    }
}

impl Default for ExternalForce {
    fn default() -> (force: ExternalForce)
        ensures
            force == ExternalForce::none(),
    {
        ExternalForce { force: Vector2 { x: 0, y: 0 }, torque: 0 }
    }
}

impl Default for MassProperties {
    fn default() -> (properties: MassProperties)
        ensures
            properties == (MassProperties { mass: 0, principal_inertia: 0 }),
    {
        MassProperties { mass: 0, principal_inertia: 0 }
    }
}

impl Default for TnuaRapier2dIOBundle {
    fn default() -> (bundle: TnuaRapier2dIOBundle)
        ensures
            bundle == (TnuaRapier2dIOBundle {
                velocity: Velocity { linvel: Vector2::zero(), angvel: 0 },
                external_force: ExternalForce::none(),
                read_mass_properties: MassProperties { mass: 0, principal_inertia: 0 },
            }),
    {
        TnuaRapier2dIOBundle {
            velocity: Velocity { linvel: Vector2 { x: 0, y: 0 }, angvel: 0 },
            external_force: ExternalForce { force: Vector2 { x: 0, y: 0 }, torque: 0 },
            read_mass_properties: MassProperties { mass: 0, principal_inertia: 0 },
        }
    }
}

impl Motor {
    /// The motor that asks for nothing on any channel.
    pub open spec fn idle() -> Motor {
        Motor {
            lin: VelChange { acceleration: None, boost: None },
            ang: VelChange { acceleration: None, boost: None },
        }
    }

    /// Whether every value this motor would write to the body can be
    /// represented.
    pub open spec fn fits(self, body: TnuaRapier2dIOBundle) -> bool {
        &&& self.lin.boost matches Some(boost) ==> representable(body.velocity.linvel.x + boost.x)
            && representable(body.velocity.linvel.y + boost.y)
        &&& self.lin.acceleration matches Some(acceleration) ==> representable(
            scaled_product(acceleration.x as int, body.read_mass_properties.mass as int),
        ) && representable(
            scaled_product(acceleration.y as int, body.read_mass_properties.mass as int),
        )
        &&& self.ang.boost matches Some(boost) ==> representable(body.velocity.angvel + boost.z)
        &&& self.ang.acceleration matches Some(acceleration) ==> representable(
            scaled_product(
                acceleration.z as int,
                body.read_mass_properties.principal_inertia as int,
            ),
        )
    }

    /// The velocity of the body once this motor has driven it: each boost
    /// that is asked for is added to the velocity it belongs to.
    pub open spec fn driven_velocity(self, body: TnuaRapier2dIOBundle) -> Velocity {
        Velocity {
            linvel: match self.lin.boost {
                Some(boost) => Vector2 {
                    x: (body.velocity.linvel.x + boost.x) as i64,
                    y: (body.velocity.linvel.y + boost.y) as i64,
                },
                None => body.velocity.linvel,
            },
            angvel: match self.ang.boost {
                Some(boost) => (body.velocity.angvel + boost.z) as i64,
                None => body.velocity.angvel,
            },
        }
    }

    /// The force on the body once this motor has driven it: the linear
    /// acceleration that is asked for times the mass, and the angular one
    /// times the moment of inertia, each in place of what was there.
    pub open spec fn driven_force(self, body: TnuaRapier2dIOBundle) -> ExternalForce {
        ExternalForce {
            force: match self.lin.acceleration {
                Some(acceleration) => Vector2 {
                    x: scaled_product(
                        acceleration.x as int,
                        body.read_mass_properties.mass as int,
                    ) as i64,
                    y: scaled_product(
                        acceleration.y as int,
                        body.read_mass_properties.mass as int,
                    ) as i64,
                },
                None => body.external_force.force,
            },
            torque: match self.ang.acceleration {
                Some(acceleration) => scaled_product(
                    acceleration.z as int,
                    body.read_mass_properties.principal_inertia as int,
                ) as i64,
                None => body.external_force.torque,
            },
        }
    }

    /// What this motor writes to a body under the given toggle, where it
    /// writes at all.
    ///
    /// - Unless the toggle lets the motor drive, the force and the torque are
    ///   written as zero and nothing else is.
    /// - Where a value to write cannot be represented, nothing is written.
    /// - Otherwise each channel that is asked for is written: a boost as the
    ///   velocity it belongs to plus the boost, an acceleration as the force
    ///   or torque that the mass or the moment of inertia makes of it.
    pub open spec fn writes_for(self, toggle: Toggle, body: TnuaRapier2dIOBundle) -> Option<
        BodyWrites,
    > {
        if !toggle.drives() {
            Some(
                BodyWrites { linvel: None, angvel: None, force: Some(Vector2::zero()), torque: Some(0) },
            )
        } else if !self.fits(body) {
            None
        } else {
            Some(
                BodyWrites {
                    linvel: match self.lin.boost {
                        Some(_) => Some(self.driven_velocity(body).linvel),
                        None => None,
                    },
                    angvel: match self.ang.boost {
                        Some(_) => Some(self.driven_velocity(body).angvel),
                        None => None,
                    },
                    force: match self.lin.acceleration {
                        Some(_) => Some(self.driven_force(body).force),
                        None => None,
                    },
                    torque: match self.ang.acceleration {
                        Some(_) => Some(self.driven_force(body).torque),
                        None => None,
                    },
                },
            )
        }
    }

    /// The body after this motor was applied to it under the given toggle:
    /// the body with the motor's writes performed on it, or the body as it
    /// was where the motor writes nothing.
    pub open spec fn applied_to(self, toggle: Toggle, body: TnuaRapier2dIOBundle) -> TnuaRapier2dIOBundle {
        match self.writes_for(toggle, body) {
            Some(writes) => writes.performed_on(body),
            None => body,
        }
    }

    /// What this motor writes to a body under the given toggle, or `None`
    /// where a value to write cannot be represented.
    pub fn writes(&self, toggle: Toggle, body: &TnuaRapier2dIOBundle) -> (writes: Option<BodyWrites>)
        ensures
            writes == self.writes_for(toggle, *body),
            writes is Some <==> !toggle.drives() || self.fits(*body),
    {
        if !toggle.runs_motor() {
            return Some(
                BodyWrites {
                    linvel: None,
                    angvel: None,
                    force: Some(Vector2 { x: 0, y: 0 }),
                    torque: Some(0),
                },
            );
        }
        let mass = body.read_mass_properties.mass;
        let inertia = body.read_mass_properties.principal_inertia;
        let mut writes = BodyWrites { linvel: None, angvel: None, force: None, torque: None };
        if let Some(boost) = self.lin.boost {
            match (
                checked_sum(body.velocity.linvel.x, boost.x),
                checked_sum(body.velocity.linvel.y, boost.y),
            ) {
                (Some(x), Some(y)) => {
                    writes.linvel = Some(Vector2 { x, y });
                },
                _ => {
                    return None;
                },
            }
        }
        if let Some(acceleration) = self.lin.acceleration {
            match (checked_scale(acceleration.x, mass), checked_scale(acceleration.y, mass)) {
                (Some(x), Some(y)) => {
                    writes.force = Some(Vector2 { x, y });
                },
                _ => {
                    return None;
                },
            }
        }
        if let Some(boost) = self.ang.boost {
            match checked_sum(body.velocity.angvel, boost.z) {
                Some(angvel) => {
                    writes.angvel = Some(angvel);
                },
                None => {
                    return None;
                },
            }
        }
        if let Some(acceleration) = self.ang.acceleration {
            match checked_scale(acceleration.z, inertia) {
                Some(torque) => {
                    writes.torque = Some(torque);
                },
                None => {
                    return None;
                },
            }
        }
        Some(writes)
    }

    /// Applies this motor to a body of the backend.
    ///
    /// Returns whether the body was written as asked: always under a toggle
    /// that does not let the motor drive, and otherwise exactly where every
    /// value to write can be represented.
    ///
    /// Under a toggle that does not let the motor drive, the force and the
    /// torque are zero afterwards whatever the motor asks. A motor that asks
    /// for nothing on any channel changes nothing of a body it drives.
    pub fn apply(&self, toggle: Toggle, body: &mut TnuaRapier2dIOBundle) -> (written: bool)
        ensures
            *final(body) == self.applied_to(toggle, *old(body)),
            written == (!toggle.drives() || self.fits(*old(body))),
            !toggle.drives() ==> final(body).external_force == ExternalForce::none()
                && final(body).velocity == old(body).velocity,
            toggle.drives() && *self == Motor::idle() ==> *final(body) == *old(body),
            toggle.drives() && self.fits(*old(body)) ==> final(body).velocity
                == self.driven_velocity(*old(body)) && final(body).external_force
                == self.driven_force(*old(body)),
            final(body).read_mass_properties == old(body).read_mass_properties,
    {
        match self.writes(toggle, body) {
            Some(writes) => {
                writes.perform(body);
                true
            },
            None => false,
        }
    }
}

} // verus!
