//! A point in any of the three kinds of coordinates.
use crate::coordinate::cartesian::Cartesian;
use crate::coordinate::cylindrical::Cylindrical;
use crate::coordinate::spherical::Spherical;
use crate::reference_frame::traits::ReferenceFrame;
use vstd::prelude::*;

verus! {

/// A point given in Cartesian, cylindrical or spherical coordinates.
pub enum Coordinate<T, F: ReferenceFrame> {
    CartesianValue(Cartesian<T, F>),
    CylindricalValue(Cylindrical<T>),
    SphericalValue(Spherical<T>),
}

} // verus!
