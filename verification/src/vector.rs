//! Plain fixed-point vectors.

use crate::scalar::Scalar;
use vstd::prelude::*;

verus! {

/// A vector in the plane of the simulation.
#[derive(Clone, Copy, Debug, PartialEq, Eq, Structural)]
pub struct Vector2 {
    pub x: Scalar,
    pub y: Scalar,
}

/// A vector in space; the simulation plane is `z == 0`.
#[derive(Clone, Copy, Debug, PartialEq, Eq, Structural)]
pub struct Vector3 {
    pub x: Scalar,
    pub y: Scalar,
    pub z: Scalar,
}

/// A rotation, carried as the four components of a quaternion.
#[derive(Clone, Copy, Debug, PartialEq, Eq, Structural)]
pub struct Quat {
    pub x: Scalar,
    pub y: Scalar,
    pub z: Scalar,
    pub w: Scalar,
}

impl Vector2 {
    /// The zero vector.
    pub open spec fn zero() -> Vector2 {
        Vector2 { x: 0, y: 0 }
    }

    /// This vector in space, with the given third component.
    pub open spec fn extended(self, z: Scalar) -> Vector3 {
        Vector3 { x: self.x, y: self.y, z }
    }

    /// This vector in space, with the given third component.
    pub fn extend(self, z: Scalar) -> (r: Vector3)
        ensures
            r == self.extended(z),
    {
        Vector3 { x: self.x, y: self.y, z }
    }

    /// Whether both components are zero.
    pub fn is_zero(self) -> (r: bool)
        ensures
            r == (self == Vector2::zero()),
    {
        self.x == 0 && self.y == 0
    }
}

impl Vector3 {
    /// The zero vector.
    pub open spec fn zero() -> Vector3 {
        Vector3 { x: 0, y: 0, z: 0 }
    }

    /// Whether all three components are zero.
    pub fn is_zero(self) -> (r: bool)
        ensures
            r == (self == Vector3::zero()),
    {
        self.x == 0 && self.y == 0 && self.z == 0
    }
}

} // verus!
