//! Unit-safe angles and quaternion rotations, generic over the scalar type.
//!
//! - `scalar`: the `Real` trait that every type here is built over.
//! - `laws`: the laws of exact arithmetic that the general properties of
//!   angles and quaternions are proved from.
//! - `angle`: `Rad` and `Deg`, their arithmetic, normalization and the
//!   trigonometric functions, which all go through radians.
//! - `vector`, `matrix`: the three-component vector and the 3 x 3 matrix
//!   that rotations act on and convert to.
//! - `quaternion`: `Quat`, its construction from angles, its algebra and
//!   its interpolation.
pub mod angle;
pub mod laws;
pub mod matrix;
pub mod quaternion;
pub mod scalar;
pub mod vector;
