//! Helpers around the numeric core.
pub mod angle_conversion;
pub mod parse;

pub use angle_conversion::{ToDegrees, ToRadians};
