//! The vector types.
pub mod vec2d;
pub mod vec3d;
