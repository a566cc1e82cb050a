//! The traits that a frame type implements.
use crate::attitude::quaternion::Quaternion;
use crate::math::vector::Vector;
use vstd::prelude::*;

verus! {

/// Any frame, inertial or rotating.
pub trait ReferenceFrame {

}

/// A frame that does not rotate.
pub trait FixedFrame<T>: ReferenceFrame {

}

/// A frame whose orientation changes with time.
pub trait RotatingFrame<T>: ReferenceFrame {
    /// The angular velocity in the body-fixed frame.
    fn angular_velocity(&self) -> Vector<T, 3>;

    /// The epoch of the angular velocity.
    fn epoch(&self) -> T;

    /// The orientation at the time `t` relative to the inertial parent.
    fn orientation_at(&self, t: T) -> Quaternion<T>;
}

/// The rotation from the frame `FROM` to the frame `TO`.
pub trait RotationBetween<T, FROM: ReferenceFrame, TO: ReferenceFrame> {
    /// The rotation at the time `t`.
    fn rotation(t: T) -> Quaternion<T>;
}

} // verus!
