//! Reference frames, as types that tag coordinates.
pub mod traits;

pub use traits::{FixedFrame, ReferenceFrame, RotatingFrame, RotationBetween};

use vstd::prelude::*;

verus! {

/// What kind of frame a value is given in, where that has to be told at run
/// time.
#[derive(Debug, Clone, Copy, PartialEq, Eq)]
pub enum FrameKind {
    Inertial,
    Rotating,
    Unknown,
}

} // verus!
