//! Data-and-buffer core of a small 2D/3D rendering engine: identity pools for
//! entities, batches and textures, spatial pose types, GPU-facing raw records,
//! and the per-frame batch/buffer synchronization logic.

use vstd::prelude::*;

pub mod batch;
pub mod entity;
pub mod identity;
pub mod matrix;
pub mod quaternion;
pub mod texture;
pub mod transformation;
pub mod vector;
pub mod vertex;

verus! {

/// The raw bit pattern of a 32-bit IEEE 754 scalar.
///
/// The verified core stores, arranges and projects such scalars without ever
/// interpreting them numerically; every floating-point computation (trig,
/// matrix products, normalisation) happens in the render layer, which hands
/// its results back as bit patterns. Sign flips are the one operation the
/// core performs itself: negating an IEEE 754 value flips exactly the top
/// bit of its pattern.
pub type ScalarBits = u32;

/// The bit pattern of the scalar one.
pub const SCALAR_ONE: ScalarBits = 0x3F80_0000;

/// The bit pattern of the (positive) scalar zero.
pub const SCALAR_ZERO: ScalarBits = 0;

/// The bit pattern of `s` with its sign flipped.
pub open spec fn negated(s: ScalarBits) -> ScalarBits {
    s ^ 0x8000_0000
}

/// Flip the sign of a scalar bit pattern.
pub fn negate(s: ScalarBits) -> (r: ScalarBits)
    ensures
        r == negated(s),
{
    s ^ 0x8000_0000
}

/// The failure taxonomy of the engine core.
///
/// `InvariantViolation` marks corrupted internal bookkeeping (a double
/// release, a desynchronized counter); `InvalidReference` marks a caller
/// handing in an identifier that is not currently registered; `DecodeFailure`
/// marks an image byte stream that could not be decoded.
#[derive(Clone, Copy, Debug, PartialEq, Eq, Structural)]
pub enum EngineError {
    InvariantViolation,
    InvalidReference,
    DecodeFailure,
}

} // verus!
