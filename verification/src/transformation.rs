//! Cached transform representations derived from a pose.
//!
//! The 2D transformation caches the 2x2 rotation and scale matrices that the
//! GPU record embeds; the 3D transformation caches the 4x4 translation and
//! scale matrices beside a quaternion. The trigonometric values a rotation
//! matrix is built from are floating-point work: the render layer computes
//! the cosine and sine of the angle and hands them in as bit patterns (a
//! [`Trig`] pair); laying the matrices out from them is done, and verified,
//! here.

use vstd::prelude::*;

verus! {

use crate::{negated, ScalarBits, SCALAR_ONE, SCALAR_ZERO};
use crate::matrix::{Mat2, Matrix4};
use crate::quaternion::Quaternion;
use crate::vector::Vector3;

/// The cosine and sine of an angle, as scalar bit patterns.
#[derive(Clone, Copy, PartialEq, Debug)]
pub struct Trig {
    pub cos: ScalarBits,
    pub sin: ScalarBits,
}

/// The column-major 2x2 rotation matrix built from `t`: the first column is
/// `(cos, -sin)`, the second `(sin, cos)`.
pub open spec fn rotation2_of(t: Trig) -> Mat2 {
    Mat2 { c0r0: t.cos, c0r1: negated(t.sin), c1r0: t.sin, c1r1: t.cos }
}

/// The 2x2 scale matrix with `s` on the diagonal and zeros elsewhere.
pub open spec fn scale2_of(s: ScalarBits) -> Mat2 {
    Mat2 { c0r0: s, c0r1: SCALAR_ZERO, c1r0: SCALAR_ZERO, c1r1: s }
}

/// The 2x2 rotation and scale matrices cached for a 2D entity.
#[derive(Clone, Copy)]
pub struct Transformation2D {
    rotation: Mat2,
    scale: Mat2,
}

impl Transformation2D {
    /// The cached rotation matrix.
    pub closed spec fn spec_rotation(self) -> Mat2 {
        self.rotation
    }

    /// The cached scale matrix.
    pub closed spec fn spec_scale(self) -> Mat2 {
        self.scale
    }

    /// Well-formedness: the scale matrix's off-diagonal entries are the
    /// zeros they were constructed with.
    pub open spec fn wf(self) -> bool {
        self.spec_scale() === scale2_of(self.spec_scale().c0r0)
    }

    /// Build the caches from the trig pair of the angle and the scale factor.
    pub fn new(trig: Trig, scale: ScalarBits) -> (t: Self)
        ensures
            t.wf(),
            t.spec_rotation() === rotation2_of(trig),
            t.spec_scale() === scale2_of(scale),
    {
        let rotation = Mat2 {
            c0r0: trig.cos,
            c0r1: crate::negate(trig.sin),
            c1r0: trig.sin,
            c1r1: trig.cos,
        };
        let scale_m = Mat2 { c0r0: scale, c0r1: SCALAR_ZERO, c1r0: SCALAR_ZERO, c1r1: scale };
        Self { rotation, scale: scale_m }
    }

    /// Recompute the caches from the current angle's trig pair and scale.
    ///
    /// Only the diagonal of the scale matrix is rewritten; its off-diagonal
    /// zeros date from construction and never change.
    pub fn update(&mut self, trig: Trig, scale: ScalarBits)
        requires
            old(self).wf(),
        ensures
            final(self).wf(),
            final(self).spec_rotation() === rotation2_of(trig),
            final(self).spec_scale() === scale2_of(scale),
    {
        self.rotation = Mat2 {
            c0r0: trig.cos,
            c0r1: crate::negate(trig.sin),
            c1r0: trig.sin,
            c1r1: trig.cos,
        };
        self.scale.c0r0 = scale;
        self.scale.c1r1 = scale;
    }

    pub fn rotation(&self) -> (m: Mat2)
        ensures
            m === self.spec_rotation(),
    {
        self.rotation
    }

    pub fn scale(&self) -> (m: Mat2)
        ensures
            m === self.spec_scale(),
    {
        self.scale
    }
}

/// `m` is the homogeneous translation matrix moving the origin to `p`:
/// identity, except that the last column is `(p.x, p.y, p.z, 1)`.
pub open spec fn is_translation4(m: Matrix4<ScalarBits>, p: Vector3<ScalarBits>) -> bool {
    &&& m.entry(0, 0) == SCALAR_ONE
    &&& m.entry(0, 1) == SCALAR_ZERO
    &&& m.entry(0, 2) == SCALAR_ZERO
    &&& m.entry(0, 3) == SCALAR_ZERO
    &&& m.entry(1, 0) == SCALAR_ZERO
    &&& m.entry(1, 1) == SCALAR_ONE
    &&& m.entry(1, 2) == SCALAR_ZERO
    &&& m.entry(1, 3) == SCALAR_ZERO
    &&& m.entry(2, 0) == SCALAR_ZERO
    &&& m.entry(2, 1) == SCALAR_ZERO
    &&& m.entry(2, 2) == SCALAR_ONE
    &&& m.entry(2, 3) == SCALAR_ZERO
    &&& m.entry(3, 0) == p.x
    &&& m.entry(3, 1) == p.y
    &&& m.entry(3, 2) == p.z
    &&& m.entry(3, 3) == SCALAR_ONE
}

/// `m` is the homogeneous scale matrix with `s` three times on the diagonal,
/// a one in the last place, and zeros elsewhere.
pub open spec fn is_scale4(m: Matrix4<ScalarBits>, s: ScalarBits) -> bool {
    &&& m.entry(0, 0) == s
    &&& m.entry(0, 1) == SCALAR_ZERO
    &&& m.entry(0, 2) == SCALAR_ZERO
    &&& m.entry(0, 3) == SCALAR_ZERO
    &&& m.entry(1, 0) == SCALAR_ZERO
    &&& m.entry(1, 1) == s
    &&& m.entry(1, 2) == SCALAR_ZERO
    &&& m.entry(1, 3) == SCALAR_ZERO
    &&& m.entry(2, 0) == SCALAR_ZERO
    &&& m.entry(2, 1) == SCALAR_ZERO
    &&& m.entry(2, 2) == s
    &&& m.entry(2, 3) == SCALAR_ZERO
    &&& m.entry(3, 0) == SCALAR_ZERO
    &&& m.entry(3, 1) == SCALAR_ZERO
    &&& m.entry(3, 2) == SCALAR_ZERO
    &&& m.entry(3, 3) == SCALAR_ONE
}

/// A full 3D model transform: a quaternion rotation beside cached
/// translation and scale matrices.
///
/// Composing the three into the final model matrix multiplies floats and is
/// the render layer's step; holding and mutating the parts is verified here.
pub struct Transformation3D {
    rotation: Quaternion,
    position: Matrix4<ScalarBits>,
    scale: Matrix4<ScalarBits>,
}

impl Transformation3D {
    /// The cached translation matrix.
    pub closed spec fn spec_position_matrix(self) -> Matrix4<ScalarBits> {
        self.position
    }

    /// The cached scale matrix.
    pub closed spec fn spec_scale_matrix(self) -> Matrix4<ScalarBits> {
        self.scale
    }

    /// The stored rotation.
    pub closed spec fn spec_rotation(self) -> Quaternion {
        self.rotation
    }

    /// The position the translation matrix moves the origin to.
    pub open spec fn spec_position(self) -> Vector3<ScalarBits> {
        Vector3 {
            x: self.spec_position_matrix().entry(3, 0),
            y: self.spec_position_matrix().entry(3, 1),
            z: self.spec_position_matrix().entry(3, 2),
        }
    }

    /// The scale factor on the scale matrix's diagonal.
    pub open spec fn spec_scale(self) -> ScalarBits {
        self.spec_scale_matrix().entry(0, 0)
    }

    /// Well-formedness: the two cached matrices have the translation and
    /// scale shapes they were constructed with.
    pub open spec fn wf(self) -> bool {
        &&& is_translation4(self.spec_position_matrix(), self.spec_position())
        &&& is_scale4(self.spec_scale_matrix(), self.spec_scale())
    }

    pub fn new(position: Vector3<ScalarBits>, rotation: Quaternion, scale: ScalarBits) -> (t:
        Self)
        ensures
            t.wf(),
            t.spec_position() === position,
            t.spec_scale() == scale,
            t.spec_rotation() === rotation,
    {
        let position_m = Matrix4::new(
            [
                [SCALAR_ONE, SCALAR_ZERO, SCALAR_ZERO, SCALAR_ZERO],
                [SCALAR_ZERO, SCALAR_ONE, SCALAR_ZERO, SCALAR_ZERO],
                [SCALAR_ZERO, SCALAR_ZERO, SCALAR_ONE, SCALAR_ZERO],
                [position.x, position.y, position.z, SCALAR_ONE],
            ],
        );
        let scale_m = Matrix4::new(
            [
                [scale, SCALAR_ZERO, SCALAR_ZERO, SCALAR_ZERO],
                [SCALAR_ZERO, scale, SCALAR_ZERO, SCALAR_ZERO],
                [SCALAR_ZERO, SCALAR_ZERO, scale, SCALAR_ZERO],
                [SCALAR_ZERO, SCALAR_ZERO, SCALAR_ZERO, SCALAR_ONE],
            ],
        );
        Self { position: position_m, scale: scale_m, rotation }
    }

    pub fn position(&self) -> (p: Vector3<ScalarBits>)
        ensures
            p === self.spec_position(),
    {
        Vector3 {
            x: self.position.get(3, 0),
            y: self.position.get(3, 1),
            z: self.position.get(3, 2),
        }
    }

    pub fn scale(&self) -> (s: ScalarBits)
        ensures
            s == self.spec_scale(),
    {
        self.scale.get(0, 0)
    }

    pub fn rotation(&self) -> (q: &Quaternion)
        ensures
            *q === self.spec_rotation(),
    {
        &self.rotation
    }

    pub fn set_rotation(&mut self, rotation: Quaternion)
        ensures
            final(self).spec_rotation() === rotation,
            final(self).spec_position_matrix() === old(self).spec_position_matrix(),
            final(self).spec_scale_matrix() === old(self).spec_scale_matrix(),
    {
        self.rotation = rotation;
    }

    /// Replace only the angle of the stored rotation.
    pub fn set_angle(&mut self, angle: ScalarBits)
        ensures
            final(self).spec_rotation().spec_angle() == angle,
            final(self).spec_rotation().spec_axis() === old(self).spec_rotation().spec_axis(),
            final(self).spec_rotation().spec_unit() == old(self).spec_rotation().spec_unit(),
            final(self).spec_position_matrix() === old(self).spec_position_matrix(),
            final(self).spec_scale_matrix() === old(self).spec_scale_matrix(),
    {
        let axis = *self.rotation.axis();
        self.rotation.set_rotation(axis, angle);
    }

    /// Replace only the axis of the stored rotation.
    pub fn set_axis(&mut self, axis: Vector3<ScalarBits>)
        ensures
            final(self).spec_rotation().spec_axis() === axis,
            final(self).spec_rotation().spec_angle() == old(self).spec_rotation().spec_angle(),
            final(self).spec_rotation().spec_unit() == old(self).spec_rotation().spec_unit(),
            final(self).spec_position_matrix() === old(self).spec_position_matrix(),
            final(self).spec_scale_matrix() === old(self).spec_scale_matrix(),
    {
        let angle = self.rotation.angle();
        self.rotation.set_rotation(axis, angle);
    }

    pub fn set_scale(&mut self, scale: ScalarBits)
        requires
            old(self).wf(),
        ensures
            final(self).wf(),
            final(self).spec_scale() == scale,
            final(self).spec_position() === old(self).spec_position(),
            final(self).spec_rotation() === old(self).spec_rotation(),
            final(self).spec_position_matrix() === old(self).spec_position_matrix(),
    {
        self.scale.set(0, 0, scale);
        self.scale.set(1, 1, scale);
        self.scale.set(2, 2, scale);
    }

    pub fn set_position(&mut self, position: Vector3<ScalarBits>)
        requires
            old(self).wf(),
        ensures
            final(self).wf(),
            final(self).spec_position() === position,
            final(self).spec_scale() == old(self).spec_scale(),
            final(self).spec_rotation() === old(self).spec_rotation(),
            final(self).spec_scale_matrix() === old(self).spec_scale_matrix(),
    {
        self.position.set_column(3, [position.x, position.y, position.z, SCALAR_ONE]);
    }
}

} // verus!
