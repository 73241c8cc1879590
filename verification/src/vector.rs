//! Plain two- and three-component vectors of an arbitrary scalar type.
//!
//! Pixel-space positions use genuine unsigned integers; world-space
//! quantities carry the raw bit patterns of 32-bit IEEE 754 scalars (see
//! [`crate::ScalarBits`]). The core arranges and projects these components;
//! floating-point arithmetic on them (magnitude, normalisation, dot and
//! cross products) belongs to the render layer, outside the verified core.

use vstd::prelude::*;

verus! {

/// A plain pair of scalar components.
#[derive(Clone, Copy, PartialEq, Debug)]
pub struct Vector2<T> {
    pub x: T,
    pub y: T,
}

impl<T: Copy> Vector2<T> {
    /// The components as a fixed-layout record, `x` first.
    pub fn to_raw(&self) -> (r: [T; 2])
        ensures
            r@ === seq![self.x, self.y],
    {
        [self.x, self.y]
    }
}

/// A plain triple of scalar components.
#[derive(Clone, Copy, PartialEq, Debug)]
pub struct Vector3<T> {
    pub x: T,
    pub y: T,
    pub z: T,
}

impl<T: Copy> Vector3<T> {
    /// The components as a fixed-layout record, `x` first.
    pub fn to_raw(&self) -> (r: [T; 3])
        ensures
            r@ === seq![self.x, self.y, self.z],
    {
        [self.x, self.y, self.z]
    }
}

} // verus!
