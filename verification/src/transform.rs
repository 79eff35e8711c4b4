//! Placing a body in the world.

use crate::scalar::{raw_product, representable, scaled_product, Scalar, ONE};
use crate::vector::Vector3;
use vstd::prelude::*;

verus! {

/// Where a body stands in the world: a linear part, given by the images of the
/// three axes, and a translation.
#[derive(Clone, Copy, Debug, PartialEq, Eq, Structural)]
pub struct Transform {
    /// The image of the first axis.
    pub x_axis: Vector3,
    /// The image of the second axis.
    pub y_axis: Vector3,
    /// The image of the third axis.
    pub z_axis: Vector3,
    /// Where the body's origin lies in the world.
    pub translation: Vector3,
}

/// One component of the image of a vector under a linear map: the sum of the
/// fixed-point products of the vector's components with the matching
/// components of the images of the axes.
pub open spec fn combined(along: (Scalar, Scalar, Scalar), v: Vector3) -> int {
    scaled_product(along.0 as int, v.x as int) + scaled_product(along.1 as int, v.y as int)
        + scaled_product(along.2 as int, v.z as int)
}

impl Transform {
    /// The transform that leaves everything where it is.
    pub open spec fn identity() -> Transform {
        Transform {
            x_axis: Vector3 { x: ONE, y: 0, z: 0 },
            y_axis: Vector3 { x: 0, y: ONE, z: 0 },
            z_axis: Vector3 { x: 0, y: 0, z: ONE },
            translation: Vector3::zero(),
        }
    }

    /// The components of the image of a direction, over the integers: the
    /// linear part applied to it.
    pub open spec fn turned(self, v: Vector3) -> (int, int, int) {
        (
            combined((self.x_axis.x, self.y_axis.x, self.z_axis.x), v),
            combined((self.x_axis.y, self.y_axis.y, self.z_axis.y), v),
            combined((self.x_axis.z, self.y_axis.z, self.z_axis.z), v),
        )
    }

    /// The components of the image of a point, over the integers: the linear
    /// part applied to it, moved by the translation.
    pub open spec fn moved(self, p: Vector3) -> (int, int, int) {
        (
            self.turned(p).0 + self.translation.x,
            self.turned(p).1 + self.translation.y,
            self.turned(p).2 + self.translation.z,
        )
    }

    /// The image of a direction, where each component can be represented.
    pub open spec fn direction_in_world(self, v: Vector3) -> Option<Vector3> {
        held(self.turned(v))
    }

    /// The image of a point, where each component can be represented.
    pub open spec fn point_in_world(self, p: Vector3) -> Option<Vector3> {
        held(self.moved(p))
    }

    /// The transform that leaves everything where it is.
    pub fn new_identity() -> (transform: Transform)
        ensures
            transform == Transform::identity(),
    {
        Transform {
            x_axis: Vector3 { x: ONE, y: 0, z: 0 },
            y_axis: Vector3 { x: 0, y: ONE, z: 0 },
            z_axis: Vector3 { x: 0, y: 0, z: ONE },
            translation: Vector3 { x: 0, y: 0, z: 0 },
        }
    }

    /// The image of a direction under the linear part, or `None` where a
    /// component of it cannot be represented.
    pub fn transform_vector(&self, v: Vector3) -> (image: Option<Vector3>)
        ensures
            image == self.direction_in_world(v),
    {
        let x: i128 = combine(self.x_axis.x, self.y_axis.x, self.z_axis.x, v);
        let y: i128 = combine(self.x_axis.y, self.y_axis.y, self.z_axis.y, v);
        let z: i128 = combine(self.x_axis.z, self.y_axis.z, self.z_axis.z, v);
        hold(x, y, z)
    }

    /// The image of a point, or `None` where a component of it cannot be
    /// represented.
    pub fn transform_point(&self, p: Vector3) -> (image: Option<Vector3>)
        ensures
            image == self.point_in_world(p),
    {
        let x: i128 = combine(self.x_axis.x, self.y_axis.x, self.z_axis.x, p)
            + self.translation.x as i128;
        let y: i128 = combine(self.x_axis.y, self.y_axis.y, self.z_axis.y, p)
            + self.translation.y as i128;
        let z: i128 = combine(self.x_axis.z, self.y_axis.z, self.z_axis.z, p)
            + self.translation.z as i128;
        hold(x, y, z)
    }
}

/// The vector with the given components, where each can be represented.
pub open spec fn held(components: (int, int, int)) -> Option<Vector3> {
    if representable(components.0) && representable(components.1) && representable(
        components.2,
    ) {
        Some(Vector3 { x: components.0 as i64, y: components.1 as i64, z: components.2 as i64 })
    } else {
        None
    }
}

fn hold(x: i128, y: i128, z: i128) -> (vector: Option<Vector3>)
    ensures
        vector == held((x as int, y as int, z as int)),
{
    let low: i128 = i64::MIN as i128;
    let high: i128 = i64::MAX as i128;
    if x < low || x > high || y < low || y > high || z < low || z > high {
        None
    } else {
        Some(Vector3 { x: x as i64, y: y as i64, z: z as i64 })
    }
}

fn combine(along_x: Scalar, along_y: Scalar, along_z: Scalar, v: Vector3) -> (sum: i128)
    ensures
        sum == combined((along_x, along_y, along_z), v),
        -0x0001_8000_0000_0000_0000_0000_0000_0000 <= sum
            <= 0x0001_8000_0000_0000_0000_0000_0000_0000,
{
    let first: i128 = raw_product(along_x, v.x) / 65536;
    let second: i128 = raw_product(along_y, v.y) / 65536;
    let third: i128 = raw_product(along_z, v.z) / 65536;
    first + second + third
}

} // verus!
