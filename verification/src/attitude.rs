//! Three representations of an orientation in space, and the conversions
//! between them.
pub mod algebra;
pub mod attitude;
pub mod dcm;
pub mod euler;
pub mod quaternion;
pub mod rotation;

pub use dcm::DirectionCosineMatrix;
pub use euler::Euler;
pub use quaternion::{AttitudeError, Pivot, Quaternion};
pub use rotation::Rotation;
