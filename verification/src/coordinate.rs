//! Coordinates of a point in space.
pub mod cartesian;
pub mod coordinate;
pub mod cylindrical;
pub mod spherical;

pub use cartesian::Cartesian;
pub use cylindrical::Cylindrical;
pub use spherical::Spherical;
