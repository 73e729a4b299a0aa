//! Vectors of one to four dimensions, square matrices of two to four, quaternions
//! and angles over a scalar type. The scalars here are bounded integers: every
//! operation is exact, and its contract says when its result stays in range.

mod angle;
mod euler;
mod matrix;
mod num;
mod projection;
mod quaternion;
mod structure;
mod vector;

pub use angle::{lemma_normalize_periodic, normalized, normalized_signed, Angle, Deg, Rad};
pub use euler::Euler;
pub use matrix::{Mat2, Mat3, Mat4, Matrix, SquareMatrix};
pub use num::{div_trunc, fits2, fits3, fits4, fits_diff, lemma_from_int_value, lemma_unit_products, rem_trunc, Num, One, Signed, Zero};
pub use projection::{Ortho, Perspective};
pub use quaternion::Quat;
pub use structure::{InnerSpace, MetricSpace, VectorSpace};
pub use vector::{ElementWise, Vec1, Vec2, Vec3, Vec4, Vector};
