//! Vectors, orientations and rotations in fixed-point arithmetic.

pub mod rotation;
pub mod shapes_3d;
pub mod vec3d;
