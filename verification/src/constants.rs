//! The layout of vertex data, the density of meshes and the values that
//! uniforms start with.

use vstd::prelude::*;
use crate::scalar::{Scalar, ONE_BITS, ZERO_BITS};
use crate::types::{Matrix4x4, Vector4};

verus! {

/// Components of one vertex: x, y, z and w.
pub const VERTEX_SIZE: usize = 4;

/// Vertices of one triangle.
pub const TRIANGLE_VERTICES: usize = 3;

/// Components of one triangle.
pub const TRIANGLE_SIZE: usize = 12;

/// The length of an outline segment that ellipses are meshed with, `8.0`.
pub const MESH_COMPRESSION_FACTOR_BITS: u32 = 0x4100_0000;

/// The largest radius that a mesh is made fine enough for, `1000.0`.
pub const MAX_RADIUS_BITS: u32 = 0x447A_0000;

/// The number `0.0`.
pub open spec fn zero() -> Scalar {
    Scalar { bits: ZERO_BITS }
}

/// The number `1.0`.
pub open spec fn one() -> Scalar {
    Scalar { bits: ONE_BITS }
}

/// The identity matrix.
pub open spec fn identity_matrix() -> Matrix4x4 {
    [
        one(), zero(), zero(), zero(),
        zero(), one(), zero(), zero(),
        zero(), zero(), one(), zero(),
        zero(), zero(), zero(), one(),
    ]
}

/// The vector of four zeros.
pub open spec fn zero_vector() -> Vector4 {
    [zero(), zero(), zero(), zero()]
}

/// The matrix that uniforms start with: the identity.
pub fn default_matrix4x4() -> (m: Matrix4x4)
    ensures
        m == identity_matrix(),
{
    let o = Scalar::one();
    let z = Scalar::zero();
    let m: Matrix4x4 = [o, z, z, z, z, o, z, z, z, z, o, z, z, z, z, o];
    assert(m =~= identity_matrix());
    m
}

/// The vector that uniforms start with: four zeros.
pub fn default_vector4() -> (v: Vector4)
    ensures
        v == zero_vector(),
{
    let z = Scalar::zero();
    let v: Vector4 = [z, z, z, z];
    assert(v =~= zero_vector());
    v
}

} // verus!
