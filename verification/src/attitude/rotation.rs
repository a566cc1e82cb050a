//! An orientation of a body relative to a reference frame, held as a quaternion.
use crate::attitude::dcm::DirectionCosineMatrix;
use crate::attitude::quaternion::{
    hamilton, hamilton_defined, identity_parts, is_angular_velocity_quaternion,
    is_shepperd_quaternion, is_shepperd_result, shepperd_pivot, AttitudeError, Quaternion,
};
use crate::math::vector::{are_shown, Vector};
use crate::utils::parse::{texts, vector_text};
use crate::scalar::{
    field_obeys, field_total, neg_total, one_of, ring_obeys, ring_total, runs, scalar_of, zero_of,
};
use core::ops::{Add, Div, Mul, Neg, Sub};
use num_traits::Float;
use vstd::prelude::*;
use vstd::std_specs::cmp::{PartialEqSpec, PartialOrdSpec};
use vstd::std_specs::convert::FromSpec;
use vstd::std_specs::ops::{MulSpec, NegSpec};
use vstd::string::StringExecFns;

verus! {

/// The orientation of a body relative to a reference frame. The quaternion is
/// kept as given: it is the caller's to hand in one of norm one.
#[derive(Debug, Clone, Copy, PartialEq)]
pub struct Rotation<T> {
    quat: Quaternion<T>,
}

impl<T> View for Rotation<T> {
    type V = Seq<T>;

    closed spec fn view(&self) -> Seq<T> {
        self.quat@
    }
}

/// The conjugate of the quaternion `q`: the vector part negated.
pub open spec fn conjugate<T: Neg<Output = T>>(q: Seq<T>) -> Seq<T> {
    seq![q[0], q[1].neg_spec(), q[2].neg_spec(), q[3].neg_spec()]
}

/// The quaternion `[zero, v[0], v[1], v[2]]` that stands for the vector `v`.
pub open spec fn pure_quaternion<T>(zero: T, v: Seq<T>) -> Seq<T> {
    seq![zero, v[0], v[1], v[2]]
}

/// The sandwich product `q * [zero, v] * conj(q)` can be computed.
pub open spec fn sandwich_defined<
    T: Add<Output = T> + Sub<Output = T> + Mul<Output = T> + Neg<Output = T>,
>(q: Seq<T>, zero: T, v: Seq<T>) -> bool {
    &&& q[1].neg_req() && q[2].neg_req() && q[3].neg_req()
    &&& hamilton_defined(q, pure_quaternion(zero, v))
    &&& hamilton_defined(hamilton(q, pure_quaternion(zero, v)), conjugate(q))
}

/// The sandwich product `q * [zero, v] * conj(q)`, taken as
/// `(q * [zero, v]) * conj(q)`.
pub open spec fn sandwich<
    T: Add<Output = T> + Sub<Output = T> + Mul<Output = T> + Neg<Output = T>,
>(q: Seq<T>, zero: T, v: Seq<T>) -> Seq<T> {
    hamilton(hamilton(q, pure_quaternion(zero, v)), conjugate(q))
}

/// What Shepperd's method returns for the matrix `m`, given the scalar `one`,
/// taken as a rotation: an error where no guard passes, else a rotation
/// whose quaternion holds the parts for the selected pivot.
pub open spec fn is_shepperd_rotation<
    T: Float + PartialOrd + Add<Output = T> + Sub<Output = T> + Mul<Output = T> + Div<Output = T>,
>(r: Result<Rotation<T>, AttitudeError>, m: Seq<Seq<T>>, one: T) -> bool {
    match shepperd_pivot(m, one) {
        None => r == Err::<Rotation<T>, AttitudeError>(AttitudeError::NoValidQuaternion),
        Some(pivot) => match r {
            Ok(rotation) => is_shepperd_quaternion(rotation@, m, one, pivot),
            Err(_) => false,
        },
    }
}

/// `r` is the rotation `q` advanced by the increment that the angular
/// velocity `omega` gives in the time `dt`: `increment * q`.
pub open spec fn is_integrated<
    T: Float + PartialEq + Add<Output = T> + Sub<Output = T> + Mul<Output = T> + Div<
        Output = T,
    > + From<u8>,
>(r: Seq<T>, q: Seq<T>, omega: Seq<T>, dt: T) -> bool {
    exists|increment: Seq<T>|
        is_angular_velocity_quaternion(increment, omega, dt) && hamilton_defined(increment, q)
            && r == #[trigger] hamilton(increment, q)
}

impl<T> Rotation<T> {
    /// The rotation whose quaternion has the parts `s`.
    pub closed spec fn of_view(s: Seq<T>) -> Self {
        Rotation { quat: Quaternion::of_view(s) }
    }

    /// `of_view` gives back a rotation from the parts of its own quaternion.
    pub proof fn lemma_of_view(a: Self)
        ensures
            Self::of_view(a@) == a,
    {
        Quaternion::lemma_of_view(a.quat);
    }
}

impl<T: Copy> Rotation<T> {
    /// The rotation that the quaternion `q` stands for. `q` is taken as it
    /// is, not normalized.
    pub fn from_quaternion(q: Quaternion<T>) -> (r: Self)
        ensures
            r@ == q@,
    {
        Self { quat: q }
    }

    /// The quaternion of the rotation.
    pub fn quaternion(&self) -> (r: Quaternion<T>)
        ensures
            r@ == self@,
    {
        self.quat
    }
}

impl<'a, T: Copy> vstd::std_specs::convert::FromSpecImpl<&'a Quaternion<T>> for Rotation<T> {
    open spec fn obeys_from_spec() -> bool {
        true
    }

    open spec fn from_spec(q: &'a Quaternion<T>) -> Self {
        Self::of_view(q@)
    }
}

impl<'a, T: Copy> From<&'a Quaternion<T>> for Rotation<T> {
    /// The rotation that the quaternion `q` stands for.
    fn from(q: &'a Quaternion<T>) -> (r: Self)
        ensures
            r@ == q@,
    {
        let r = Self::from_quaternion(*q);
        proof {
            Self::lemma_of_view(r);
        }
        r
    }
}

impl<T: Copy + Add<Output = T> + Sub<Output = T> + Mul<Output = T>> Rotation<T> {
    /// The composition of two rotations: the Hamilton product of their
    /// quaternions, `self` on the left.
    pub fn compose(&self, rhs: &Self) -> (r: Self)
        requires
            runs(ring_total::<T>(), ring_obeys::<T>(), hamilton_defined(self@, rhs@)),
        ensures
            ring_obeys::<T>() ==> hamilton_defined(self@, rhs@) && r@ == hamilton(self@, rhs@),
    {
        Self::from_quaternion(self.quat * rhs.quat)
    }
}

impl<T: Copy + Add<Output = T> + Sub<Output = T> + Mul<Output = T>> vstd::std_specs::ops::MulSpecImpl for Rotation<T> {
    open spec fn obeys_mul_spec() -> bool {
        ring_obeys::<T>()
    }

    open spec fn mul_req(self, rhs: Self) -> bool {
        runs(ring_total::<T>(), ring_obeys::<T>(), hamilton_defined(self@, rhs@))
    }

    open spec fn mul_spec(self, rhs: Self) -> Self {
        Self::of_view(hamilton(self@, rhs@))
    }
}

impl<T: Copy + Add<Output = T> + Sub<Output = T> + Mul<Output = T>> Mul for Rotation<T> {
    type Output = Self;

    /// The composition `self.compose(&rhs)`.
    fn mul(self, rhs: Self) -> (r: Self)
        ensures
            ring_obeys::<T>() ==> hamilton_defined(self@, rhs@) && r@ == hamilton(self@, rhs@),
    {
        let r = self.compose(&rhs);
        proof {
            Self::lemma_of_view(r);
        }
        r
    }
}

impl<T: Copy + Neg<Output = T>> Rotation<T> {
    /// The inverse rotation: the conjugate of the quaternion.
    pub fn inverse(&self) -> (r: Self)
        requires
            self@[1].neg_req() && self@[2].neg_req() && self@[3].neg_req(),
        ensures
            T::obeys_neg_spec() ==> r@ == conjugate(self@),
    {
        let q = self.quat.data.data;
        Self::from_quaternion(Quaternion::new(q[0], q[1].neg(), q[2].neg(), q[3].neg()))
    }
}

impl<
    T: Copy + Add<Output = T> + Sub<Output = T> + Mul<Output = T> + Neg<Output = T>,
> Rotation<T> {
    /// The vector `v` rotated: the vector part of `q * [zero, v] * conj(q)`.
    pub fn rotate_vector_with(&self, v: Vector<T, 3>, zero: T) -> (r: Vector<T, 3>)
        requires
            runs(
                ring_total::<T>() && neg_total::<T>(),
                ring_obeys::<T>() && T::obeys_neg_spec(),
                sandwich_defined(self@, zero, v@),
            ),
        ensures
            ring_obeys::<T>() && T::obeys_neg_spec() ==> r@ == sandwich(self@, zero, v@).subrange(
                1,
                4,
            ),
    {
        let p = Quaternion::new(zero, v.data[0], v.data[1], v.data[2]);
        assert(p@ == pure_quaternion(zero, v@));
        let back = self.inverse();
        let turned = self.quat * p;
        let whole = turned * back.quat;
        let r = Vector { data: [whole.data.data[1], whole.data.data[2], whole.data.data[3]] };
        assert(ring_obeys::<T>() && T::obeys_neg_spec() ==> r@ =~= sandwich(
            self@,
            zero,
            v@,
        ).subrange(1, 4));
        r
    }
}

impl<T: Copy + From<u8>> Rotation<T> {
    /// The rotation that turns nothing: the identity quaternion.
    pub fn identity() -> (r: Self)
        ensures
            T::obeys_from_spec() ==> r@ == identity_parts(zero_of::<T>(), one_of::<T>()),
    {
        Self::from_quaternion(Quaternion::identity())
    }
}

impl<
    T: Copy + Add<Output = T> + Sub<Output = T> + Mul<Output = T> + Neg<Output = T> + From<u8>,
> Rotation<T> {
    /// The vector `v` rotated: the vector part of `q * [0, v] * conj(q)`.
    pub fn rotate_vector(&self, v: Vector<T, 3>) -> (r: Vector<T, 3>)
        requires
            runs(
                ring_total::<T>() && neg_total::<T>(),
                ring_obeys::<T>() && T::obeys_neg_spec() && T::obeys_from_spec(),
                sandwich_defined(self@, zero_of::<T>(), v@),
            ),
        ensures
            ring_obeys::<T>() && T::obeys_neg_spec() && T::obeys_from_spec() ==> r@ == sandwich(
                self@,
                zero_of::<T>(),
                v@,
            ).subrange(1, 4),
    {
        self.rotate_vector_with(v, scalar_of::<T>(0))
    }
}

impl<
    T: Float + Copy + PartialOrd + PartialEq + Add<Output = T> + Sub<Output = T> + Mul<
        Output = T,
    > + Div<Output = T> + Neg<Output = T> + From<u8>,
> Rotation<T> {
    /// The rotation after the time `dt` at the body-frame angular velocity
    /// `omega_b`, to first order: the increment that `omega_b` and `dt` give,
    /// times the present quaternion.
    pub fn integrate(&self, omega_b: Vector<T, 3>, dt: T) -> (r: Self)
        requires
            field_total::<T>(),
        ensures
            field_obeys::<T>() && T::obeys_eq_spec() && T::obeys_from_spec() ==> is_integrated(
                r@,
                self@,
                omega_b@,
                dt,
            ),
    {
        let delta_q = Quaternion::from_angular_velocity(omega_b, dt);
        let r = Self::from_quaternion(delta_q * self.quat);
        assert(field_obeys::<T>() && T::obeys_eq_spec() && T::obeys_from_spec()
            ==> is_angular_velocity_quaternion(delta_q@, omega_b@, dt) && hamilton_defined(
            delta_q@,
            self@,
        ) && r@ == hamilton(delta_q@, self@));
        r
    }

    /// The rotation of the matrix `dcm`, by Shepperd's method, or
    /// `NoValidQuaternion` where the matrix is no rotation.
    pub fn try_from_dcm(dcm: &DirectionCosineMatrix<T>) -> (r: Result<Self, AttitudeError>)
        requires
            field_total::<T>(),
        ensures
            field_obeys::<T>() && T::obeys_partial_cmp_spec() && T::obeys_from_spec()
                ==> is_shepperd_rotation(r, dcm@, one_of::<T>()),
    {
        let found = Quaternion::try_from_dcm(dcm);
        let r = match found {
            Ok(q) => Ok(Self { quat: q }),
            Err(e) => Err(e),
        };
        r
    }
}

impl<T: core::fmt::Display> Rotation<T> {
    /// The rotation as text: the word `Rotation`, a colon and a space, then
    /// the quaternion as text.
    pub fn to_text(&self) -> (r: String)
        ensures
            exists|cells: Seq<String>|
                are_shown(self@, cells) && r@ == "Rotation: "@ + (#[trigger] vector_text(
                    texts(cells),
                )) + seq!['\n'],
    {
        let q = self.quat.to_text();
        let mut r = String::from_str("Rotation: ");
        r.append(q.as_str());
        proof {
            let cells = choose|cells: Seq<String>|
                are_shown(self.quat@, cells) && q@ == #[trigger] vector_text(texts(cells)) + seq![
                    '\n',
                ];
            assert(r@ =~= "Rotation: "@ + vector_text(texts(cells)) + seq!['\n']);
        }
        r
    }
}

} // verus!
