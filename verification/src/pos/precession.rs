//! The part of precession that only moves values about: a rotation matrix
//! comes out of the astrometry routines for one direction, and is applied in
//! the other.

use vstd::prelude::*;

verus! {

/// Whether `flipped` is the transpose of `matrix`: its rows are the columns
/// of `matrix`.
pub open spec fn is_transpose<T>(matrix: [[T; 3]; 3], flipped: [[T; 3]; 3]) -> bool {
    forall|i: int, j: int|
        0 <= i < 3 && 0 <= j < 3 ==> (#[trigger] flipped@[i]@[j]) == matrix@[j]@[i]
}

/// Transposes a 3 by 3 matrix. For a rotation matrix this is its inverse:
/// the rotation from the epoch of date back to J2000.
pub fn transpose<T: Copy>(matrix: &[[T; 3]; 3]) -> (flipped: [[T; 3]; 3])
    ensures
        is_transpose(*matrix, flipped),
{
    [
        [matrix[0][0], matrix[1][0], matrix[2][0]],
        [matrix[0][1], matrix[1][1], matrix[2][1]],
        [matrix[0][2], matrix[1][2], matrix[2][2]],
    ]
}

} // verus!
