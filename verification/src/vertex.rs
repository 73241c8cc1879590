//! GPU-facing vertex records.
//!
//! Each field holds the raw bit patterns of 32-bit IEEE 754 scalars (see
//! [`crate::ScalarBits`]); the render layer reinterprets them as the
//! tightly packed float records the shader stage consumes.

use vstd::prelude::*;

verus! {

use crate::ScalarBits;
use crate::vector::{Vector2, Vector3};

/// A 2D vertex: a position and a texture coordinate, two scalars each.
#[derive(Clone, Copy, PartialEq, Debug)]
pub struct Vertex2D {
    pub position: Vector2<ScalarBits>,
    pub tex_pos: Vector2<ScalarBits>,
}

/// A 3D vertex: a position and a texture coordinate, three scalars each.
#[derive(Clone, Copy, PartialEq, Debug)]
pub struct Vertex3D {
    pub position: Vector3<ScalarBits>,
    pub tex_pos: Vector3<ScalarBits>,
}

} // verus!
