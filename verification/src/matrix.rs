//! Column-major matrices: a generic 4x4 matrix, and the small fixed 2x2 and
//! 3x3 scalar matrices that the GPU-facing records embed.

use vstd::prelude::*;

verus! {

use crate::{ScalarBits, SCALAR_ZERO};

/// A column-major 2x2 matrix of scalar bit patterns; `c0r1` is the entry in
/// column 0, row 1.
#[derive(Clone, Copy, PartialEq, Debug)]
pub struct Mat2 {
    pub c0r0: ScalarBits,
    pub c0r1: ScalarBits,
    pub c1r0: ScalarBits,
    pub c1r1: ScalarBits,
}

/// A column-major 3x3 matrix of scalar bit patterns.
#[derive(Clone, Copy, PartialEq, Debug)]
pub struct Mat3 {
    pub c0r0: ScalarBits,
    pub c0r1: ScalarBits,
    pub c0r2: ScalarBits,
    pub c1r0: ScalarBits,
    pub c1r1: ScalarBits,
    pub c1r2: ScalarBits,
    pub c2r0: ScalarBits,
    pub c2r1: ScalarBits,
    pub c2r2: ScalarBits,
}

/// The 3x3 scale matrix with `s` on the diagonal and zeros elsewhere.
pub open spec fn mat3_diagonal(s: ScalarBits) -> Mat3 {
    Mat3 {
        c0r0: s,
        c0r1: SCALAR_ZERO,
        c0r2: SCALAR_ZERO,
        c1r0: SCALAR_ZERO,
        c1r1: s,
        c1r2: SCALAR_ZERO,
        c2r0: SCALAR_ZERO,
        c2r1: SCALAR_ZERO,
        c2r2: s,
    }
}

/// A 4x4 matrix stored column-major as four columns of four scalars.
pub struct Matrix4<T> {
    matrix: [[T; 4]; 4],
}

impl<T: Copy> Matrix4<T> {
    /// The entry in the given column and row.
    pub closed spec fn entry(self, column: int, row: int) -> T {
        self.matrix@[column]@[row]
    }

    pub fn new(matrix: [[T; 4]; 4]) -> (m: Self)
        ensures
            forall|c: int, r: int|
                0 <= c < 4 && 0 <= r < 4 ==> m.entry(c, r) === matrix@[c]@[r],
    {
        Self { matrix }
    }

    pub fn get(&self, column: usize, row: usize) -> (v: T)
        requires
            column < 4,
            row < 4,
        ensures
            v === self.entry(column as int, row as int),
    {
        self.matrix[column][row]
    }

    pub fn set(&mut self, column: usize, row: usize, value: T)
        requires
            column < 4,
            row < 4,
        ensures
            final(self).entry(column as int, row as int) === value,
            forall|c: int, r: int|
                0 <= c < 4 && 0 <= r < 4 && (c != column || r != row)
                    ==> final(self).entry(c, r) === old(self).entry(c, r),
    {
        self.matrix[column][row] = value;
    }

    pub fn set_column(&mut self, column: usize, value: [T; 4])
        requires
            column < 4,
        ensures
            forall|r: int| 0 <= r < 4 ==> final(self).entry(column as int, r) === value@[r],
            forall|c: int, r: int|
                0 <= c < 4 && 0 <= r < 4 && c != column
                    ==> final(self).entry(c, r) === old(self).entry(c, r),
    {
        self.matrix[column] = value;
    }
}

} // verus!
