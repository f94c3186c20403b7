//! The names most callers need, for one `use` item.
pub use crate::scalar::NumVec;
pub use crate::scalar::Scalar;
pub use crate::vecs::vec2d::vec2d;
pub use crate::vecs::vec2d::Vec2D;
pub use crate::vecs::vec3d::vec3d;
pub use crate::vecs::vec3d::Vec3D;
