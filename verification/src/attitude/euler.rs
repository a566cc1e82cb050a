//! Euler angles `[roll, pitch, yaw]` in radians, in the yaw-pitch-roll (ZYX) convention.
use crate::math::vector::{
    are_shown, seq_divided, seq_filled, seq_minus, seq_negated, seq_plus, seq_scaled, Vector,
};
use crate::attitude::dcm::{is_euler_matrix, DirectionCosineMatrix};
use crate::attitude::quaternion::{is_half_angle_quaternion, Quaternion};
use crate::math::matrix::Matrix;
use crate::utils::angle_conversion::{is_in_degrees, is_in_radians};
use crate::utils::parse::{texts, vector_text};
use crate::scalar::{
    add_total, div_total, field_obeys, field_total, float_abs, float_asin, float_atan,
    float_atan2, float_frac_pi_2, float_signum, is_abs, is_asin, is_atan, is_atan2, is_frac_pi_2,
    is_signum, minus, mul_total, neg_total, one_of, plus, product, quotient, ring_obeys,
    ring_total, runs, scalar_of, sum, times,
};
use core::ops::{Add, Div, Mul, Neg, Sub};
use num_traits::{Float, FloatConst};
use vstd::prelude::*;
use vstd::std_specs::cmp::{PartialOrdIs, PartialOrdSpec};
use vstd::std_specs::convert::FromSpec;
use vstd::std_specs::ops::{AddSpec, DivSpec, MulSpec, NegSpec, SubSpec};

verus! {

/// Roll, pitch and yaw, in that order. Any three values are accepted: nothing
/// here wraps an angle into a range.
#[derive(Debug, Clone, Copy, PartialEq)]
pub struct Euler<T> {
    pub data: Vector<T, 3>,
}

impl<T> View for Euler<T> {
    type V = Seq<T>;

    open spec fn view(&self) -> Seq<T> {
        self.data@
    }
}

impl<T> Euler<T> {
    /// The angles `s`.
    pub open spec fn of_view(s: Seq<T>) -> Self {
        Euler { data: Vector::of_view(s) }
    }

    /// `of_view` gives back the angles from their own values.
    pub proof fn lemma_of_view(a: Self)
        ensures
            Self::of_view(a@) == a,
    {
        Vector::lemma_of_view(a.data);
    }
}

impl<T: Default + Copy> Default for Euler<T> {
    /// Every angle is the scalar type's default value.
    fn default() -> (r: Self)
        ensures
            exists|d: T| call_ensures(T::default, (), d) && r@ == #[trigger] seq_filled(3, d),
    {
        let d = T::default();
        let r = Self { data: Vector::filled(d) };
        assert(call_ensures(T::default, (), d) && r@ == seq_filled(3, d));
        r
    }
}

impl<T: Copy> Euler<T> {
    /// The angles `roll`, `pitch` and `yaw`.
    pub fn new(roll: T, pitch: T, yaw: T) -> (r: Self)
        ensures
            r@ == seq![roll, pitch, yaw],
    {
        let r = Self { data: Vector { data: [roll, pitch, yaw] } };
        assert(r@ =~= seq![roll, pitch, yaw]);
        r
    }

    /// The rotation about the first axis.
    pub fn roll(&self) -> (r: T)
        ensures
            r == self@[0],
    {
        self.data.data[0]
    }

    /// The rotation about the second axis.
    pub fn pitch(&self) -> (r: T)
        ensures
            r == self@[1],
    {
        self.data.data[1]
    }

    /// The rotation about the third axis.
    pub fn yaw(&self) -> (r: T)
        ensures
            r == self@[2],
    {
        self.data.data[2]
    }
}

// ----- arithmetic angle by angle -----

impl<T: Add<Output = T> + Copy> vstd::std_specs::ops::AddSpecImpl for Euler<T> {
    open spec fn obeys_add_spec() -> bool {
        T::obeys_add_spec()
    }

    open spec fn add_req(self, rhs: Self) -> bool {
        forall|i: int| 0 <= i < 3 ==> #[trigger] self@[i].add_req(rhs@[i])
    }

    open spec fn add_spec(self, rhs: Self) -> Self {
        Self::of_view(seq_plus(self@, rhs@))
    }
}

impl<T: Add<Output = T> + Copy> Add for Euler<T> {
    type Output = Self;

    /// The sum, angle by angle.
    fn add(self, rhs: Self) -> (r: Self)
        ensures
            T::obeys_add_spec() ==> r@ == seq_plus(self@, rhs@),
    {
        assert forall|i: int| 0 <= i < 3 implies #[trigger] self.data@[i].add_req(rhs.data@[i]) by {
            assert(self@[i].add_req(rhs@[i]));
        }
        let r = Self { data: self.data + rhs.data };
        proof {
            Self::lemma_of_view(r);
        }
        r
    }
}

impl<T: Sub<Output = T> + Copy> vstd::std_specs::ops::SubSpecImpl for Euler<T> {
    open spec fn obeys_sub_spec() -> bool {
        T::obeys_sub_spec()
    }

    open spec fn sub_req(self, rhs: Self) -> bool {
        forall|i: int| 0 <= i < 3 ==> #[trigger] self@[i].sub_req(rhs@[i])
    }

    open spec fn sub_spec(self, rhs: Self) -> Self {
        Self::of_view(seq_minus(self@, rhs@))
    }
}

impl<T: Sub<Output = T> + Copy> Sub for Euler<T> {
    type Output = Self;

    /// The difference, angle by angle.
    fn sub(self, rhs: Self) -> (r: Self)
        ensures
            T::obeys_sub_spec() ==> r@ == seq_minus(self@, rhs@),
    {
        assert forall|i: int| 0 <= i < 3 implies #[trigger] self.data@[i].sub_req(rhs.data@[i]) by {
            assert(self@[i].sub_req(rhs@[i]));
        }
        let r = Self { data: self.data - rhs.data };
        proof {
            Self::lemma_of_view(r);
        }
        r
    }
}

impl<T: Neg<Output = T> + Copy> vstd::std_specs::ops::NegSpecImpl for Euler<T> {
    open spec fn obeys_neg_spec() -> bool {
        T::obeys_neg_spec()
    }

    open spec fn neg_req(self) -> bool {
        forall|i: int| 0 <= i < 3 ==> #[trigger] self@[i].neg_req()
    }

    open spec fn neg_spec(self) -> Self {
        Self::of_view(seq_negated(self@))
    }
}

impl<T: Neg<Output = T> + Copy> Neg for Euler<T> {
    type Output = Self;

    /// Every angle negated.
    fn neg(self) -> (r: Self)
        ensures
            T::obeys_neg_spec() ==> r@ == seq_negated(self@),
    {
        assert forall|i: int| 0 <= i < 3 implies #[trigger] self.data@[i].neg_req() by {
            assert(self@[i].neg_req());
        }
        let r = Self { data: self.data.neg() };
        proof {
            Self::lemma_of_view(r);
        }
        r
    }
}

impl<T: Mul<Output = T> + Copy> vstd::std_specs::ops::MulSpecImpl<T> for Euler<T> {
    open spec fn obeys_mul_spec() -> bool {
        T::obeys_mul_spec()
    }

    open spec fn mul_req(self, rhs: T) -> bool {
        forall|i: int| 0 <= i < 3 ==> #[trigger] self@[i].mul_req(rhs)
    }

    open spec fn mul_spec(self, rhs: T) -> Self {
        Self::of_view(seq_scaled(self@, rhs))
    }
}

impl<T: Mul<Output = T> + Copy> Mul<T> for Euler<T> {
    type Output = Self;

    /// Every angle times `rhs`.
    fn mul(self, rhs: T) -> (r: Self)
        ensures
            T::obeys_mul_spec() ==> r@ == seq_scaled(self@, rhs),
    {
        assert forall|i: int| 0 <= i < 3 implies #[trigger] self.data@[i].mul_req(rhs) by {
            assert(self@[i].mul_req(rhs));
        }
        let r = Self { data: self.data * rhs };
        proof {
            Self::lemma_of_view(r);
        }
        r
    }
}

impl<T: Div<Output = T> + Copy> vstd::std_specs::ops::DivSpecImpl<T> for Euler<T> {
    open spec fn obeys_div_spec() -> bool {
        T::obeys_div_spec()
    }

    open spec fn div_req(self, rhs: T) -> bool {
        forall|i: int| 0 <= i < 3 ==> #[trigger] self@[i].div_req(rhs)
    }

    open spec fn div_spec(self, rhs: T) -> Self {
        Self::of_view(seq_divided(self@, rhs))
    }
}

impl<T: Div<Output = T> + Copy> Div<T> for Euler<T> {
    type Output = Self;

    /// Every angle divided by `rhs`.
    fn div(self, rhs: T) -> (r: Self)
        ensures
            T::obeys_div_spec() ==> r@ == seq_divided(self@, rhs),
    {
        assert forall|i: int| 0 <= i < 3 implies #[trigger] self.data@[i].div_req(rhs) by {
            assert(self@[i].div_req(rhs));
        }
        let r = Self { data: self.data / rhs };
        proof {
            Self::lemma_of_view(r);
        }
        r
    }
}

// ----- conversions -----

/// `two * (a * b + c * d)`, with `two` possibly without a value.
pub open spec fn twice_sum<T: Add<Output = T> + Mul<Output = T>>(
    two: Option<T>,
    a: T,
    b: T,
    c: T,
    d: T,
) -> Option<T> {
    times(two, plus(product(a, b), product(c, d)))
}

/// What the inverse trigonometric functions are applied to when a quaternion
/// `q = [w, x, y, z]` is turned into angles, in this order:
/// `2 (w x + y z)` and `1 - 2 (x x + y y)` for roll, `2 (w y - z x)` for
/// pitch, `2 (w z + x y)` and `1 - 2 (y y + z z)` for yaw.
pub open spec fn angle_arguments<T: Add<Output = T> + Sub<Output = T> + Mul<Output = T>>(
    q: Seq<T>,
    one: T,
) -> Seq<Option<T>> {
    let two = sum(one, one);
    let (w, x, y, z) = (q[0], q[1], q[2], q[3]);
    seq![
        twice_sum(two, w, x, y, z),
        minus(Some(one), twice_sum(two, x, x, y, y)),
        times(two, minus(product(w, y), product(z, x))),
        twice_sum(two, w, z, x, y),
        minus(Some(one), twice_sum(two, y, y, z, z)),
    ]
}

/// The pitch: a quarter turn with the sign of the sine where the sine's
/// magnitude reaches one (gimbal lock), else the arc sine `inside`.
pub open spec fn pitch_choice<T: PartialOrd + Mul<Output = T>>(
    magnitude: T,
    one: T,
    quarter_turn: T,
    sign: T,
    inside: T,
) -> T {
    if magnitude.is_ge(&one) {
        quarter_turn.mul_spec(sign)
    } else {
        inside
    }
}

/// The two ratios whose arc tangents are yaw and roll of a rotation matrix:
/// `m[0][1] / m[0][0]` and `m[1][2] / m[2][2]`.
pub open spec fn tangent_ratios<T: Div<Output = T>>(m: Seq<Seq<T>>) -> Seq<Option<T>> {
    seq![quotient(m[0][1], m[0][0]), quotient(m[1][2], m[2][2])]
}

/// `pitch` is the pitch for the sine `sinp`: the pitch choice against one of
/// the absolute value, the sign and the arc sine of `sinp` and of the quarter
/// turn, each as the scalar type takes it.
pub open spec fn is_pitch_of<T: Float + FloatConst + PartialOrd + Mul<Output = T> + From<u8>>(
    pitch: T,
    sinp: T,
) -> bool {
    exists|magnitude: T, quarter_turn: T, sign: T, inside: T|
        {
            &&& is_abs(sinp, magnitude)
            &&& is_frac_pi_2(quarter_turn)
            &&& is_signum(sinp, sign)
            &&& is_asin(sinp, inside)
            &&& pitch == #[trigger] pitch_choice(
                magnitude,
                one_of::<T>(),
                quarter_turn,
                sign,
                inside,
            )
        }
}

/// `e` holds the angles of the quaternion `q`: with the five arguments of
/// `angle_arguments`, the roll is the arc tangent by quadrant of the first
/// over the second, the pitch is the pitch for the third, and the yaw is the
/// arc tangent by quadrant of the fourth over the fifth.
pub open spec fn is_euler_of_quaternion<
    T: Float + FloatConst + PartialOrd + Add<Output = T> + Sub<Output = T> + Mul<
        Output = T,
    > + From<u8>,
>(e: Seq<T>, q: Seq<T>) -> bool {
    let a = angle_arguments(q, one_of::<T>());
    &&& a[0] is Some && a[1] is Some && a[2] is Some && a[3] is Some && a[4] is Some
    &&& is_atan2(a[0].unwrap(), a[1].unwrap(), e[0])
    &&& is_pitch_of(e[1], a[2].unwrap())
    &&& is_atan2(a[3].unwrap(), a[4].unwrap(), e[2])
}

/// `e` holds the angles of the rotation matrix `m`: the yaw is the arc tangent
/// of `m[0][1] / m[0][0]`, the roll that of `m[1][2] / m[2][2]`, and the pitch
/// is the negation of the arc sine of `m[0][2]`.
pub open spec fn is_euler_of_matrix<T: Float + Div<Output = T> + Neg<Output = T>>(
    e: Seq<T>,
    m: Seq<Seq<T>>,
) -> bool {
    let t = tangent_ratios(m);
    &&& t[0] is Some && t[1] is Some
    &&& is_atan(t[1].unwrap(), e[0])
    &&& exists|arc: T| is_asin(m[0][2], arc) && e[1] == #[trigger] arc.neg_spec()
    &&& is_atan(t[0].unwrap(), e[2])
}

impl<T: Copy + Add<Output = T> + Sub<Output = T> + Mul<Output = T>> Euler<T> {
    /// The five arguments of the inverse trigonometric functions for the
    /// quaternion `q`.
    pub fn arguments_of(q: &Quaternion<T>, one: T) -> (r: [T; 5])
        requires
            runs(
                ring_total::<T>(),
                ring_obeys::<T>(),
                forall|i: int| 0 <= i < 5 ==> (#[trigger] angle_arguments(q@, one)[i]) is Some,
            ),
        ensures
            ring_obeys::<T>() ==> forall|i: int|
                0 <= i < 5 ==> (#[trigger] angle_arguments(q@, one)[i]) == Some(r@[i]),
    {
        let w = q.data.data[0];
        let x = q.data.data[1];
        let y = q.data.data[2];
        let z = q.data.data[3];
        proof {
            let a = angle_arguments(q@, one);
            if !ring_total::<T>() {
                assert(a[0] is Some && a[1] is Some && a[2] is Some && a[3] is Some && a[4] is Some);
            }
        }
        let two = one + one;
        let sinr_cosp = two * (w * x + y * z);
        let cosr_cosp = one - two * (x * x + y * y);
        let sinp = two * (w * y - z * x);
        let siny_cosp = two * (w * z + x * y);
        let cosy_cosp = one - two * (y * y + z * z);
        [sinr_cosp, cosr_cosp, sinp, siny_cosp, cosy_cosp]
    }
}

impl<T: Copy + PartialOrd + Mul<Output = T>> Euler<T> {
    /// The pitch for a sine of the given `magnitude`: `quarter_turn * sign`
    /// where the magnitude is at least `one`, else `inside`.
    pub fn choose_pitch(magnitude: T, one: T, quarter_turn: T, sign: T, inside: T) -> (r: T)
        requires
            quarter_turn.mul_req(sign),
        ensures
            T::obeys_partial_cmp_spec() && T::obeys_mul_spec() ==> r == pitch_choice(
                magnitude,
                one,
                quarter_turn,
                sign,
                inside,
            ),
    {
        if magnitude >= one {
            quarter_turn * sign
        } else {
            inside
        }
    }
}

impl<T: Copy + Div<Output = T>> Euler<T> {
    /// The two ratios whose arc tangents are yaw and roll of the matrix `m`.
    pub fn ratios_of(m: &Matrix<T, 3, 3>) -> (r: [T; 2])
        requires
            m@[0][1].div_req(m@[0][0]),
            m@[1][2].div_req(m@[2][2]),
        ensures
            T::obeys_div_spec() ==> tangent_ratios(m@)[0] == Some(r@[0]) && tangent_ratios(m@)[1]
                == Some(r@[1]),
    {
        [m.data[0][1] / m.data[0][0], m.data[1][2] / m.data[2][2]]
    }
}

impl<
    T: Float + FloatConst + Copy + PartialOrd + Add<Output = T> + Sub<Output = T> + Mul<
        Output = T,
    > + Div<Output = T> + Neg<Output = T> + From<u8>,
> Euler<T> {
    /// The angles of the quaternion `q`, assumed of norm one:
    /// `roll = atan2(2 (w x + y z), 1 - 2 (x x + y y))`,
    /// `pitch = asin(2 (w y - z x))`, held at a quarter turn at gimbal lock,
    /// `yaw = atan2(2 (w z + x y), 1 - 2 (y y + z z))`.
    /// The inverse trigonometric functions are as the scalar type takes them.
    pub fn from_quaternion(q: &Quaternion<T>) -> (r: Self)
        requires
            ring_total::<T>(),
        ensures
            ring_obeys::<T>() && T::obeys_partial_cmp_spec() && T::obeys_from_spec()
                ==> is_euler_of_quaternion(r@, q@),
    {
        let one = scalar_of::<T>(1);
        let a = Self::arguments_of(q, one);
        let roll = float_atan2(a[0], a[1]);
        let sinp = a[2];
        let quarter_turn = float_frac_pi_2::<T>();
        let magnitude = float_abs(sinp);
        let sign = float_signum(sinp);
        let inside = float_asin(sinp);
        let pitch = Self::choose_pitch(magnitude, one, quarter_turn, sign, inside);
        let yaw = float_atan2(a[3], a[4]);
        let r = Self::new(roll, pitch, yaw);
        proof {
            if ring_obeys::<T>() && T::obeys_partial_cmp_spec() && T::obeys_from_spec() {
                let s = angle_arguments(q@, one_of::<T>());
                assert(s[0] == Some(a@[0]) && s[1] == Some(a@[1]) && s[2] == Some(a@[2]));
                assert(s[3] == Some(a@[3]) && s[4] == Some(a@[4]));
                assert(pitch == pitch_choice(magnitude, one_of::<T>(), quarter_turn, sign, inside));
                assert(is_pitch_of(pitch, sinp));
            }
        }
        r
    }

    /// The angles of the rotation matrix `dcm`: `yaw = atan(m01 / m00)`,
    /// `pitch = -asin(m02)`, `roll = atan(m12 / m22)`. The arc tangent of a
    /// ratio does not tell the quadrant: yaw and roll come out in
    /// `(-π/2, π/2)`. The inverse trigonometric functions are as the scalar
    /// type takes them.
    pub fn from_dcm(dcm: &DirectionCosineMatrix<T>) -> (r: Self)
        requires
            div_total::<T>() && neg_total::<T>(),
        ensures
            T::obeys_div_spec() && T::obeys_neg_spec() ==> is_euler_of_matrix(r@, dcm@),
    {
        let m = dcm.as_matrix();
        let ratios = Self::ratios_of(m);
        let yaw = float_atan(ratios[0]);
        let arc = float_asin(m.data[0][2]);
        let pitch = arc.neg();
        let roll = float_atan(ratios[1]);
        let r = Self::new(roll, pitch, yaw);
        proof {
            if T::obeys_div_spec() && T::obeys_neg_spec() {
                let t = tangent_ratios(dcm@);
                assert(t[0] == Some(ratios@[0]) && t[1] == Some(ratios@[1]));
                assert(is_asin(dcm@[0][2], arc) && r@[1] == arc.neg_spec());
            }
        }
        r
    }
}

impl<T: Float + FloatConst + Copy + Mul<Output = T> + Div<Output = T> + From<u8>> Euler<T> {
    /// The angles given in degrees by `deg`, kept in radians.
    pub fn from_degrees_vec(deg: Vector<T, 3>) -> (r: Self)
        requires
            mul_total::<T>() && div_total::<T>(),
        ensures
            T::obeys_mul_spec() && T::obeys_div_spec() && T::obeys_from_spec() ==> forall|i: int|
                0 <= i < 3 ==> is_in_radians(#[trigger] r@[i], deg@[i]),
    {
        Self { data: deg.in_radians() }
    }

    /// The angles in degrees.
    pub fn to_degrees_vec(&self) -> (r: Vector<T, 3>)
        requires
            mul_total::<T>() && div_total::<T>(),
        ensures
            T::obeys_mul_spec() && T::obeys_div_spec() && T::obeys_from_spec() ==> forall|i: int|
                0 <= i < 3 ==> is_in_degrees(#[trigger] r@[i], self@[i]),
    {
        self.data.in_degrees()
    }
}

// ----- the other representations, and text -----

impl<
    T: Float + Copy + Default + PartialOrd + PartialEq + Add<Output = T> + Sub<Output = T> + Mul<
        Output = T,
    > + Div<Output = T> + Neg<Output = T> + From<u8>,
> Euler<T> {
    /// The quaternion of the angles: `Quaternion::from_euler`.
    pub fn to_quaternion(&self) -> (r: Quaternion<T>)
        requires
            field_total::<T>(),
        ensures
            field_obeys::<T>() && T::obeys_from_spec() ==> is_half_angle_quaternion(r@, self@),
    {
        Quaternion::from_euler(self)
    }

    /// The rotation matrix of the angles: `DirectionCosineMatrix::from_euler`.
    pub fn to_direction_cosine_matrix(&self) -> (r: DirectionCosineMatrix<T>)
        requires
            add_total::<T>() && mul_total::<T>() && neg_total::<T>(),
        ensures
            T::obeys_add_spec() && T::obeys_mul_spec() && T::obeys_neg_spec()
                && T::obeys_from_spec() ==> is_euler_matrix(r@, self@),
    {
        DirectionCosineMatrix::from_euler(*self)
    }
}

impl<T: core::fmt::Display> Euler<T> {
    /// The angles as text, as a vector.
    pub fn to_text(&self) -> (r: String)
        ensures
            exists|cells: Seq<String>| are_shown(self@, cells) && r@ == #[trigger] vector_text(texts(cells)),
    {
        self.data.to_text()
    }
}

} // verus!
