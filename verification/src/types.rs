//! The plain values that a draw is described with.

use vstd::prelude::*;
use crate::scalar::Scalar;

verus! {

/// Four components: a homogeneous position, a color or a viewport.
pub type Vector4 = [Scalar; 4];

/// A 4x4 matrix, stored row by row: the entry in row `r` and column `c` is at
/// index `4 * r + c`.
pub type Matrix4x4 = [Scalar; 16];

/// A pair of coordinates or of factors.
#[derive(Clone, Copy, Debug, PartialEq, Eq, Structural)]
pub struct XYTuple {
    pub x: Scalar,
    pub y: Scalar,
}

/// A rotation in the plane, given by the cosine and the sine of its angle.
#[derive(Clone, Copy, Debug, PartialEq, Eq, Structural)]
pub struct Rotation {
    pub cos: Scalar,
    pub sin: Scalar,
}

/// What a caller sets for one draw of a form.
#[derive(Clone, Copy, Debug, PartialEq, Eq)]
pub struct DrawProps {
    pub position: XYTuple,
    pub rotation: Rotation,
    pub scale: XYTuple,
    pub color: Vector4,
}

impl Rotation {
    /// The rotation by the angle zero.
    pub fn none() -> (r: Rotation)
        ensures
            r == (Rotation { cos: Scalar { bits: crate::scalar::ONE_BITS }, sin: Scalar { bits: crate::scalar::ZERO_BITS } }),
    {
        Rotation { cos: Scalar::one(), sin: Scalar::zero() }
    }
}

} // verus!
