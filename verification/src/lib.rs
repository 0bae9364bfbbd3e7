//! A small drawing core for triangle meshes on a WebGL-like backend.
//!
//! The crate lays out the vertex buffers of simple shapes, decides how a
//! shader program is built from what a rendering backend reports, stages the
//! uniforms of a form and plans the commands of a draw. It never calls a
//! backend: it says what is to be done and is told what came of it.
//!
//! Numbers are IEEE 754 binary32 values carried by their bit patterns
//! ([`scalar::Scalar`]). The crate moves, negates, classifies and compares
//! them, which is exact; arithmetic that rounds (sums, quotients, roots,
//! cosines) is left to its callers, whose results it takes as arguments.
//!
//! - [`scalar`], [`types`], [`constants`], [`matrix`]: numbers, the values of
//!   a draw, the layout of vertex data, the matrices of a transform.
//! - [`geometry`]: vertex buffers, the meshes of a rectangle and of a fan,
//!   the points and the bounding radius of a mesh.
//! - [`program`], [`builder`]: the shader program and how it is built.
//! - [`form`], [`shape`]: drawable forms and the shapes made of them.
//! - [`error`]: what a construction can fail with.

pub mod scalar;
pub mod types;
pub mod constants;
pub mod matrix;
pub mod error;
pub mod geometry;
pub mod program;
pub mod builder;
pub mod form;
pub mod shape;
