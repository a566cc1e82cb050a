//! An orientation in any of its three representations.
use crate::attitude::dcm::DirectionCosineMatrix;
use crate::attitude::euler::Euler;
use crate::attitude::quaternion::Quaternion;
use vstd::prelude::*;

verus! {

/// An orientation given as a direction cosine matrix, as Euler angles or as a
/// quaternion.
pub enum Rotation<T> {
    DCMRotation(DirectionCosineMatrix<T>),
    EulerRotation(Euler<T>),
    QuaternionRotation(Quaternion<T>),
}

} // verus!
