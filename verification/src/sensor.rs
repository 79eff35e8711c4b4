//! The proximity sensor: its configuration, what one cast reports, and the
//! record a hit is normalised to.

use crate::entity::EntityId;
use crate::scalar::{representable, scaled_product, Scalar, ONE};
use crate::transform::Transform;
use crate::vector::{Vector2, Vector3};
use vstd::prelude::*;

verus! {

/// Whether a vector can serve as a cast direction: it is not zero and no
/// component is longer than one unit.
pub open spec fn admissible_direction(direction: Vector3) -> bool {
    &&& direction != Vector3::zero()
    &&& -ONE <= direction.x <= ONE
    &&& -ONE <= direction.y <= ONE
    &&& -ONE <= direction.z <= ONE
}

/// Why a sensor configuration was refused.
#[derive(Clone, Copy, Debug, PartialEq, Eq, Structural)]
pub enum ConfigError {
    /// The cast range is negative.
    NegativeRange,
    /// The cast direction is zero, or longer than one unit along an axis.
    DegenerateDirection,
    /// The cast origin lies where no scalar reaches.
    OriginOutOfReach,
}

/// The configuration of a proximity sensor.
///
/// A value of this type always has a range that is not negative and an
/// admissible direction: [`SensorConfig::new`] refuses anything else.
#[derive(Clone, Copy, Debug)]
pub struct SensorConfig {
    cast_origin: Vector3,
    cast_direction: Vector3,
    cast_range: Scalar,
    intersection_match_prevention_cutoff: Scalar,
}

impl SensorConfig {
    #[verifier::type_invariant]
    spec fn well_formed(self) -> bool {
        &&& self.cast_range >= 0
        &&& admissible_direction(self.cast_direction)
    }

    /// The cast origin: in the coordinates of the tracked body, or in those
    /// of the world once the configuration is placed there.
    pub closed spec fn spec_cast_origin(self) -> Vector3 {
        self.cast_origin
    }

    /// The direction of the cast.
    pub closed spec fn spec_cast_direction(self) -> Vector3 {
        self.cast_direction
    }

    /// How far the cast reaches.
    pub closed spec fn spec_cast_range(self) -> Scalar {
        self.cast_range
    }

    /// The largest component along the cast direction that the normal of a
    /// standing contact may have before the contact's other side is passed
    /// over.
    pub closed spec fn spec_intersection_match_prevention_cutoff(self) -> Scalar {
        self.intersection_match_prevention_cutoff
    }

    /// A configuration from its four settings.
    ///
    /// A negative range is refused first, then a direction that is not
    /// admissible; every other input gives a configuration that holds exactly
    /// the settings passed in.
    pub fn new(
        cast_origin: Vector3,
        cast_direction: Vector3,
        cast_range: Scalar,
        intersection_match_prevention_cutoff: Scalar,
    ) -> (made: Result<SensorConfig, ConfigError>)
        ensures
            cast_range < 0 ==> made == Err::<SensorConfig, ConfigError>(
                ConfigError::NegativeRange,
            ),
            cast_range >= 0 && !admissible_direction(cast_direction) ==> made == Err::<
                SensorConfig,
                ConfigError,
            >(ConfigError::DegenerateDirection),
            cast_range >= 0 && admissible_direction(cast_direction) ==> {
                &&& made is Ok
                &&& made->Ok_0.cast_origin() == cast_origin
                &&& made->Ok_0.cast_direction() == cast_direction
                &&& made->Ok_0.cast_range() == cast_range
                &&& made->Ok_0.intersection_match_prevention_cutoff()
                    == intersection_match_prevention_cutoff
            },
    {
        if cast_range < 0 {
            return Err(ConfigError::NegativeRange);
        }
        let within_unit = -ONE <= cast_direction.x && cast_direction.x <= ONE && -ONE
            <= cast_direction.y && cast_direction.y <= ONE && -ONE <= cast_direction.z
            && cast_direction.z <= ONE;
        if cast_direction.is_zero() || !within_unit {
            return Err(ConfigError::DegenerateDirection);
        }
        Ok(
            SensorConfig {
                cast_origin,
                cast_direction,
                cast_range,
                intersection_match_prevention_cutoff,
            },
        )
    }

    /// This configuration as it stands in the world for a body placed by
    /// `transform`: the origin is moved with the body and the direction is
    /// turned with it.
    ///
    /// An origin that cannot be represented is refused first, then a turned
    /// direction that cannot be represented or is not admissible.
    pub fn in_world(&self, transform: &Transform) -> (placed: Result<SensorConfig, ConfigError>)
        ensures
            match (
                transform.point_in_world(self.cast_origin()),
                transform.direction_in_world(self.cast_direction()),
            ) {
                (None, _) => placed == Err::<SensorConfig, ConfigError>(
                    ConfigError::OriginOutOfReach,
                ),
                (Some(origin), Some(direction)) if admissible_direction(direction) => {
                    &&& placed is Ok
                    &&& placed->Ok_0.cast_origin() == origin
                    &&& placed->Ok_0.cast_direction() == direction
                    &&& placed->Ok_0.cast_range() == self.cast_range()
                    &&& placed->Ok_0.intersection_match_prevention_cutoff()
                        == self.intersection_match_prevention_cutoff()
                },
                _ => placed == Err::<SensorConfig, ConfigError>(ConfigError::DegenerateDirection),
            },
    {
        proof {
            use_type_invariant(self);
        }
        let origin = match transform.transform_point(self.cast_origin) {
            Some(origin) => origin,
            None => {
                return Err(ConfigError::OriginOutOfReach);
            },
        };
        let direction = match transform.transform_vector(self.cast_direction) {
            Some(direction) => direction,
            None => {
                return Err(ConfigError::DegenerateDirection);
            },
        };
        match SensorConfig::new(
            origin,
            direction,
            self.cast_range,
            self.intersection_match_prevention_cutoff,
        ) {
            Ok(placed) => Ok(placed),
            Err(_) => Err(ConfigError::DegenerateDirection),
        }
    }

    /// The cast origin: in the coordinates of the tracked body, or in those
    /// of the world once the configuration is placed there.
    #[verifier::when_used_as_spec(spec_cast_origin)]
    pub fn cast_origin(self) -> (origin: Vector3)
        ensures
            origin == self.cast_origin(),
    {
        self.cast_origin
    }

    /// The direction of the cast.
    #[verifier::when_used_as_spec(spec_cast_direction)]
    pub fn cast_direction(self) -> (direction: Vector3)
        ensures
            direction == self.cast_direction(),
            admissible_direction(direction),
    {
        proof {
            use_type_invariant(&self);
        }
        self.cast_direction
    }

    /// How far the cast reaches.
    #[verifier::when_used_as_spec(spec_cast_range)]
    pub fn cast_range(self) -> (range: Scalar)
        ensures
            range == self.cast_range(),
            range >= 0,
    {
        proof {
            use_type_invariant(&self);
        }
        self.cast_range
    }

    /// The cutoff of the contact-normal rejection.
    #[verifier::when_used_as_spec(spec_intersection_match_prevention_cutoff)]
    pub fn intersection_match_prevention_cutoff(self) -> (cutoff: Scalar)
        ensures
            cutoff == self.intersection_match_prevention_cutoff(),
    {
        self.intersection_match_prevention_cutoff
    }
}

/// What the sensor reports of the surface it found.
#[derive(Clone, Copy, Debug, PartialEq, Eq, Structural)]
pub struct SensorOutput {
    /// The entity that was hit.
    pub entity: EntityId,
    /// The distance to the hit from the cast origin, along the cast direction.
    pub proximity: Scalar,
    /// The normal of the surface at the hit.
    pub normal: Vector3,
    /// The velocity of the surface at the hit point.
    pub entity_linvel: Vector3,
    /// The angular velocity of the entity that was hit, about the axis of the
    /// simulation plane.
    pub entity_angvel: Vector3,
}

/// What one cast of the backend reports.
#[derive(Clone, Copy, Debug, PartialEq, Eq, Structural)]
pub struct CastHit {
    /// The entity that was hit.
    pub entity: EntityId,
    /// The distance travelled from where this cast started.
    pub time_of_impact: Scalar,
    /// Where the surface was hit.
    pub point: Vector2,
    /// The normal the backend reports, or zero where it could not tell one.
    pub normal: Vector2,
}

/// What the backend tells of the impact of a shape that was swept.
#[derive(Clone, Copy, Debug, PartialEq, Eq, Structural)]
pub struct ShapeImpact {
    /// The point of the surface that the shape touched.
    pub witness1: Vector2,
    /// The normal of the surface there.
    pub normal1: Vector2,
}

impl CastHit {
    /// The hit that a swept shape amounts to: a sweep of which the backend
    /// tells no impact is no hit.
    pub open spec fn of_sweep(
        entity: EntityId,
        time_of_impact: Scalar,
        details: Option<ShapeImpact>,
    ) -> Option<CastHit> {
        match details {
            Some(impact) => Some(
                CastHit { entity, time_of_impact, point: impact.witness1, normal: impact.normal1 },
            ),
            None => None,
        }
    }

    /// The hit that a swept shape amounts to: a sweep of which the backend
    /// tells no impact is no hit.
    pub fn from_shape_cast(
        entity: EntityId,
        time_of_impact: Scalar,
        details: Option<ShapeImpact>,
    ) -> (hit: Option<CastHit>)
        ensures
            hit == CastHit::of_sweep(entity, time_of_impact, details),
    {
        match details {
            Some(impact) => Some(
                CastHit { entity, time_of_impact, point: impact.witness1, normal: impact.normal1 },
            ),
            None => None,
        }
    }
}

/// Where an entity is and how it moves, as the backend knows it.
#[derive(Clone, Copy, Debug, PartialEq, Eq, Structural)]
pub struct BodyMotion {
    /// The position of the entity.
    pub center: Vector2,
    /// Its linear velocity.
    pub linvel: Vector2,
    /// Its angular velocity.
    pub angvel: Scalar,
}

/// How a surface moves at one of its points.
#[derive(Clone, Copy, Debug, PartialEq, Eq, Structural)]
pub struct SurfaceMotion {
    /// The velocity of the point.
    pub linvel: Vector3,
    /// The angular velocity of the entity the point belongs to.
    pub angvel: Vector3,
}

/// A hit together with what the caller looked up about the entity hit.
#[derive(Clone, Copy, Debug, PartialEq, Eq, Structural)]
pub struct Observation {
    /// The hit as the backend reported it.
    pub hit: CastHit,
    /// Whether the entity is marked as a ghost platform.
    pub is_ghost: bool,
    /// How the surface moves at the hit point.
    pub motion: SurfaceMotion,
}

/// The first component of the velocity that a body's rotation and
/// translation give to `point`: `linvel.x - angvel · (point.y - center.y)`.
pub open spec fn swept_x(body: BodyMotion, point: Vector2) -> int {
    if body.angvel == 0 {
        body.linvel.x as int
    } else {
        body.linvel.x - scaled_product(body.angvel as int, point.y - body.center.y)
    }
}

/// The second component of the velocity that a body's rotation and
/// translation give to `point`: `linvel.y + angvel · (point.x - center.x)`.
pub open spec fn swept_y(body: BodyMotion, point: Vector2) -> int {
    if body.angvel == 0 {
        body.linvel.y as int
    } else {
        body.linvel.y + scaled_product(body.angvel as int, point.x - body.center.x)
    }
}

/// The motion of the surface of `body` at `point`, where both components of
/// the point's velocity are representable.
///
/// An entity without a body of its own stands still.
pub open spec fn surface_motion_of(body: Option<BodyMotion>, point: Vector2) -> Option<
    SurfaceMotion,
> {
    match body {
        None => Some(SurfaceMotion { linvel: Vector3::zero(), angvel: Vector3::zero() }),
        Some(body) => if representable(swept_x(body, point)) && representable(
            swept_y(body, point),
        ) {
            Some(
                SurfaceMotion {
                    linvel: Vector3 {
                        x: swept_x(body, point) as i64,
                        y: swept_y(body, point) as i64,
                        z: 0,
                    },
                    angvel: Vector3 { x: 0, y: 0, z: body.angvel },
                },
            )
        } else {
            None
        },
    }
}

proof fn lemma_lever_product_bounds(turn: int, lever: int)
    requires
        representable(turn),
        -0xffff_ffff_ffff_ffff <= lever <= 0xffff_ffff_ffff_ffff,
    ensures
        -0x7fff_ffff_ffff_ffff_8000_0000_0000_0000 <= turn * lever
            <= 0x7fff_ffff_ffff_ffff_8000_0000_0000_0000,
{
    assert(turn * lever <= 0x7fff_ffff_ffff_ffff_8000_0000_0000_0000) by (nonlinear_arith)
        requires
            -0x8000_0000_0000_0000 <= turn <= 0x7fff_ffff_ffff_ffff,
            -0xffff_ffff_ffff_ffff <= lever <= 0xffff_ffff_ffff_ffff,
    ;
    assert(turn * lever >= -0x7fff_ffff_ffff_ffff_8000_0000_0000_0000) by (nonlinear_arith)
        requires
            -0x8000_0000_0000_0000 <= turn <= 0x7fff_ffff_ffff_ffff,
            -0xffff_ffff_ffff_ffff <= lever <= 0xffff_ffff_ffff_ffff,
    ;
}

/// The fixed-point product of an angular velocity and a lever arm that is the
/// difference of two scalars.
fn turn_times_lever(turn: Scalar, to: Scalar, from: Scalar) -> (r: i128)
    ensures
        r == scaled_product(turn as int, to - from),
        -0x8000_0000_0000_0000_0000_0000_0000 <= r <= 0x8000_0000_0000_0000_0000_0000_0000,
{
    let lever: i128 = (to as i128) - (from as i128);
    proof {
        lemma_lever_product_bounds(turn as int, lever as int);
    }
    let wide: i128 = (turn as i128) * lever;
    wide / (ONE as i128)
}

/// The motion of the surface of a hit entity at the hit point: the entity's
/// linear velocity plus what its rotation about its centre adds there.
///
/// Returns `None` exactly where a component of that velocity cannot be
/// represented.
pub fn surface_motion(body: Option<BodyMotion>, point: Vector2) -> (motion: Option<SurfaceMotion>)
    ensures
        motion == surface_motion_of(body, point),
{
    match body {
        None => Some(
            SurfaceMotion {
                linvel: Vector3 { x: 0, y: 0, z: 0 },
                angvel: Vector3 { x: 0, y: 0, z: 0 },
            },
        ),
        Some(body) => {
            let mut x: i128 = body.linvel.x as i128;
            let mut y: i128 = body.linvel.y as i128;
            if body.angvel != 0 {
                x = x - turn_times_lever(body.angvel, point.y, body.center.y);
                y = y + turn_times_lever(body.angvel, point.x, body.center.x);
            }
            if x < (i64::MIN as i128) || x > (i64::MAX as i128) || y < (i64::MIN as i128) || y > (
            i64::MAX as i128) {
                None
            } else {
                Some(
                    SurfaceMotion {
                        linvel: Vector3 { x: x as i64, y: y as i64, z: 0 },
                        angvel: Vector3 { x: 0, y: 0, z: body.angvel },
                    },
                )
            }
        },
    }
}

/// The normal to report for a hit: the backend's, laid into space, or the
/// reverse of the cast direction where the backend reported none.
pub open spec fn facing_normal(reported: Vector2, direction: Vector3) -> Vector3 {
    if reported == Vector2::zero() {
        Vector3 { x: (-direction.x) as i64, y: (-direction.y) as i64, z: (-direction.z) as i64 }
    } else {
        reported.extended(0)
    }
}

impl Observation {
    /// The observation of a hit on an entity with the given body, where the
    /// motion of the surface at the hit point can be represented.
    pub open spec fn observed(hit: CastHit, is_ghost: bool, body: Option<BodyMotion>) -> Option<
        Observation,
    > {
        match surface_motion_of(body, hit.point) {
            Some(motion) => Some(Observation { hit, is_ghost, motion }),
            None => None,
        }
    }

    /// The observation of a hit on an entity with the given body, or `None`
    /// where the motion of the surface at the hit point cannot be
    /// represented.
    pub fn of(hit: CastHit, is_ghost: bool, body: Option<BodyMotion>) -> (seen: Option<Observation>)
        ensures
            seen == Observation::observed(hit, is_ghost, body),
    {
        match surface_motion(body, hit.point) {
            Some(motion) => Some(Observation { hit, is_ghost, motion }),
            None => None,
        }
    }

    /// The record this observation is normalised to when its cast started
    /// `skip` away from the cast origin.
    pub open spec fn output_at(self, skip: Scalar, direction: Vector3) -> SensorOutput {
        SensorOutput {
            entity: self.hit.entity,
            proximity: (skip + self.hit.time_of_impact) as i64,
            normal: facing_normal(self.hit.normal, direction),
            entity_linvel: self.motion.linvel,
            entity_angvel: self.motion.angvel,
        }
    }

    /// The record this observation is normalised to when its cast started
    /// `skip` away from the cast origin.
    pub(crate) fn normalise(self, skip: Scalar, direction: Vector3) -> (output: SensorOutput)
        requires
            representable(skip + self.hit.time_of_impact),
            admissible_direction(direction),
        ensures
            output == self.output_at(skip, direction),
    {
        let normal = if self.hit.normal.is_zero() {
            Vector3 { x: -direction.x, y: -direction.y, z: -direction.z }
        } else {
            self.hit.normal.extend(0)
        };
        SensorOutput {
            entity: self.hit.entity,
            proximity: skip + self.hit.time_of_impact,
            normal,
            entity_linvel: self.motion.linvel,
            entity_angvel: self.motion.angvel,
        }
    }
}

/// What a sensor reads off a single cast over its whole range: the hit,
/// normalised, where there is one within the range.
///
/// A sensor with no range reads nothing.
pub open spec fn direct_reading(
    range: Scalar,
    direction: Vector3,
    answer: Option<Observation>,
) -> Option<SensorOutput> {
    match answer {
        Some(seen) => if 0 < range && 0 <= seen.hit.time_of_impact <= range {
            Some(seen.output_at(0, direction))
        } else {
            None
        },
        None => None,
    }
}

impl SensorConfig {
    /// What this sensor reads off a single cast over its whole range.
    pub fn read_cast(&self, answer: Option<Observation>) -> (output: Option<SensorOutput>)
        ensures
            output == direct_reading(self.cast_range(), self.cast_direction(), answer),
    {
        proof {
            use_type_invariant(self);
        }
        match answer {
            Some(seen) => if 0 < self.cast_range && 0 <= seen.hit.time_of_impact
                && seen.hit.time_of_impact <= self.cast_range {
                Some(seen.normalise(0, self.cast_direction))
            } else {
                None
            },
            None => None,
        }
    }
}

} // verus!
