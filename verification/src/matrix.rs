//! The matrices of a transform.
//!
//! A matrix is stored row by row. A backend that reads sixteen values column
//! by column takes it for its transpose, so a shader that is given these
//! matrices multiplies the vertex from the left: `vertex * matrix`.

use vstd::prelude::*;
use crate::constants::{identity_matrix, one, zero};
use crate::scalar::Scalar;
use crate::types::{Matrix4x4, Rotation, XYTuple};

verus! {

/// The entry of a matrix in a row and a column.
pub open spec fn matrix_entry(m: Matrix4x4, row: int, col: int) -> Scalar {
    m[4 * row + col]
}

/// The identity with the offset in the last column of the first two rows:
/// applied to a column vector with `w = 1` it moves the vector by the offset.
pub open spec fn translation_matrix(offset: XYTuple) -> Matrix4x4 {
    [
        one(), zero(), zero(), offset.x,
        zero(), one(), zero(), offset.y,
        zero(), zero(), one(), zero(),
        zero(), zero(), zero(), one(),
    ]
}

/// The identity with the block `[cos, -sin; sin, cos]` in the first two rows
/// and columns: the sine is negated in the first row.
pub open spec fn rotation_matrix(turn: Rotation) -> Matrix4x4 {
    [
        turn.cos, turn.sin.negated(), zero(), zero(),
        turn.sin, turn.cos, zero(), zero(),
        zero(), zero(), one(), zero(),
        zero(), zero(), zero(), one(),
    ]
}

/// The identity with the two factors first on the diagonal.
pub open spec fn scale_matrix(factors: XYTuple) -> Matrix4x4 {
    [
        factors.x, zero(), zero(), zero(),
        zero(), factors.y, zero(), zero(),
        zero(), zero(), one(), zero(),
        zero(), zero(), zero(), one(),
    ]
}

/// How the matrices of a transform read, entry by entry: the offset of a
/// translation is in the last column, above a zero and a one; the factors of
/// a scale are on the diagonal, before two ones; the block of a rotation has
/// the cosine on the diagonal, the negated sine to the right of the first and
/// the sine below it. Every other entry is that of the identity.
pub proof fn lemma_transform_entries(offset: XYTuple, turn: Rotation, factors: XYTuple)
    ensures
        forall|r: int, c: int|
            0 <= r < 4 && 0 <= c < 4 ==> #[trigger] matrix_entry(identity_matrix(), r, c) == if r
                == c {
                one()
            } else {
                zero()
            },
        forall|r: int, c: int|
            0 <= r < 4 && 0 <= c < 4 ==> #[trigger] matrix_entry(translation_matrix(offset), r, c)
                == if r == 0 && c == 3 {
                offset.x
            } else if r == 1 && c == 3 {
                offset.y
            } else {
                matrix_entry(identity_matrix(), r, c)
            },
        forall|r: int, c: int|
            0 <= r < 4 && 0 <= c < 4 ==> #[trigger] matrix_entry(scale_matrix(factors), r, c)
                == if r == 0 && c == 0 {
                factors.x
            } else if r == 1 && c == 1 {
                factors.y
            } else {
                matrix_entry(identity_matrix(), r, c)
            },
        forall|r: int, c: int|
            0 <= r < 4 && 0 <= c < 4 ==> #[trigger] matrix_entry(rotation_matrix(turn), r, c)
                == if r < 2 && r == c {
                turn.cos
            } else if r == 0 && c == 1 {
                turn.sin.negated()
            } else if r == 1 && c == 0 {
                turn.sin
            } else {
                matrix_entry(identity_matrix(), r, c)
            },
{
}

/// The matrix that moves by an offset.
pub fn translation(offset: XYTuple) -> (m: Matrix4x4)
    ensures
        m == translation_matrix(offset),
{
    let o = Scalar::one();
    let z = Scalar::zero();
    let m: Matrix4x4 = [o, z, z, offset.x, z, o, z, offset.y, z, z, o, z, z, z, z, o];
    assert(m =~= translation_matrix(offset));
    m
}

/// The matrix that turns by a rotation.
pub fn rotation(turn: Rotation) -> (m: Matrix4x4)
    ensures
        m == rotation_matrix(turn),
{
    let o = Scalar::one();
    let z = Scalar::zero();
    let c = turn.cos;
    let s = turn.sin;
    let m: Matrix4x4 = [c, s.neg(), z, z, s, c, z, z, z, z, o, z, z, z, z, o];
    assert(m =~= rotation_matrix(turn));
    m
}

/// The matrix that scales by two factors.
pub fn scale(factors: XYTuple) -> (m: Matrix4x4)
    ensures
        m == scale_matrix(factors),
{
    let o = Scalar::one();
    let z = Scalar::zero();
    let m: Matrix4x4 = [factors.x, z, z, z, z, factors.y, z, z, z, z, o, z, z, z, z, o];
    assert(m =~= scale_matrix(factors));
    m
}

} // verus!
