//! Attitude representations (quaternion, direction cosine matrix, Euler
//! angles), the fixed-size linear algebra under them, and one-step
//! integrators.
pub mod attitude;
pub mod coordinate;
pub mod math;
pub mod numerical_methods;
pub mod reference_frame;
pub mod scalar;
pub mod utils;

pub use math::{Matrix, Vector};
