//! Perspective projection matrices, generic over the scalar type.
//!
//! [`frustum`] builds the matrix of a view frustum from its six clipping planes, and
//! [`perspective`] that of a symmetric one from a field of view. Both run in any
//! [`Scalar`] and validate nothing: what a division by zero yields in the scalar type is
//! what the matrix holds. What they return is written down entry by entry in
//! [`frustum_spec`] and [`perspective_spec`], and [`laws`] proves what these matrices
//! do in exact arithmetic.

pub mod angle;
pub mod frustum;
pub mod laws;
pub mod mat;
pub mod perspective;
mod reals;
pub mod scalar;

pub use angle::Angle;
pub use frustum::{frustum, frustum_spec};
pub use mat::Mat4;
pub use perspective::{perspective, perspective_from_tan, perspective_spec};
pub use scalar::{Arithmetic, Scalar};
