//! Rotation pose: an axis, an angle and a unit flag.
//!
//! The quaternion here is the pose a caller mutates between frames. Deriving
//! the rotation matrix from it is floating-point work and happens in the
//! render layer, which hands the finished matrix back to the entities (see
//! [`crate::entity`]).

use vstd::prelude::*;

verus! {

use crate::ScalarBits;
use crate::vector::Vector3;

/// A rotation of `angle` degrees around `axis`.
///
/// `unit` records whether the caller guarantees the axis is already
/// unit-length; when it is false, the matrix derivation downstream must
/// compensate by the squared magnitude of the vector part.
#[derive(Clone, Copy)]
pub struct Quaternion {
    angle: ScalarBits,
    axis: Vector3<ScalarBits>,
    unit: bool,
}

impl Quaternion {
    /// The stored axis.
    pub closed spec fn spec_axis(self) -> Vector3<ScalarBits> {
        self.axis
    }

    /// The stored angle, in degrees.
    pub closed spec fn spec_angle(self) -> ScalarBits {
        self.angle
    }

    /// The stored unit flag.
    pub closed spec fn spec_unit(self) -> bool {
        self.unit
    }

    pub fn new(axis: Vector3<ScalarBits>, angle: ScalarBits, unit: bool) -> (q: Self)
        ensures
            q.spec_axis() === axis,
            q.spec_angle() == angle,
            q.spec_unit() == unit,
    {
        Self { angle, axis, unit }
    }

    /// Replace the rotation in place; the unit flag is kept.
    pub fn set_rotation(&mut self, axis: Vector3<ScalarBits>, angle: ScalarBits)
        ensures
            final(self).spec_axis() === axis,
            final(self).spec_angle() == angle,
            final(self).spec_unit() == old(self).spec_unit(),
    {
        self.axis = axis;
        self.angle = angle;
    }

    pub fn axis(&self) -> (a: &Vector3<ScalarBits>)
        ensures
            *a === self.spec_axis(),
    {
        &self.axis
    }

    pub fn angle(&self) -> (a: ScalarBits)
        ensures
            a == self.spec_angle(),
    {
        self.angle
    }

    pub fn unit(&self) -> (u: bool)
        ensures
            u == self.spec_unit(),
    {
        self.unit
    }
}

} // verus!
