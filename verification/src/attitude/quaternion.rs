//! Quaternions `[w, x, y, z]`, scalar part first, with the Hamilton product.
use crate::attitude::dcm::{is_quaternion_matrix, DirectionCosineMatrix};
use crate::attitude::euler::{is_euler_of_quaternion, Euler};
use crate::math::matrix::Matrix;
use crate::math::vector::{
    are_shown, is_norm, seq_divided, seq_minus, seq_negated, seq_plus, seq_scaled, Vector,
};
use crate::utils::parse::{format_vector, texts, vector_text};
use crate::scalar::{
    add_total, difference, div_total, field_obeys, field_total, float_abs, float_cos, float_sin,
    float_sqrt, is_abs, is_cos, is_sin, is_sqrt, minus, mul_total, one_of, over, plus, product,
    ring_obeys, ring_total, runs, scalar_of, sum, times, zero_of,
};
use core::ops::{Add, Div, Mul, Neg, Sub};
use num_traits::{Float, FloatConst};
use vstd::prelude::*;
use vstd::std_specs::cmp::{PartialEqSpec, PartialOrdIs, PartialOrdSpec};
use vstd::std_specs::convert::FromSpec;
use vstd::std_specs::ops::{AddSpec, DivSpec, MulSpec, NegSpec, SubSpec};
use vstd::string::StringExecFns;

verus! {

/// A quaternion `w + x i + y j + z k`, stored as `[w, x, y, z]`. It stands for
/// a rotation when its norm is one; nothing here enforces that.
#[derive(Debug, Clone, Copy, PartialEq)]
pub struct Quaternion<T> {
    pub data: Vector<T, 4>,
}

impl<T> View for Quaternion<T> {
    type V = Seq<T>;

    open spec fn view(&self) -> Seq<T> {
        self.data@
    }
}

/// The scalar part of the Hamilton product `a * b`:
/// `w1 w2 - x1 x2 - y1 y2 - z1 z2`.
pub open spec fn hamilton_w<T: Add<Output = T> + Sub<Output = T> + Mul<Output = T>>(
    a: Seq<T>,
    b: Seq<T>,
) -> Option<T> {
    minus(
        minus(minus(product(a[0], b[0]), product(a[1], b[1])), product(a[2], b[2])),
        product(a[3], b[3]),
    )
}

/// The `i` part of the Hamilton product `a * b`:
/// `w1 x2 + x1 w2 + y1 z2 - z1 y2`.
pub open spec fn hamilton_x<T: Add<Output = T> + Sub<Output = T> + Mul<Output = T>>(
    a: Seq<T>,
    b: Seq<T>,
) -> Option<T> {
    minus(
        plus(plus(product(a[0], b[1]), product(a[1], b[0])), product(a[2], b[3])),
        product(a[3], b[2]),
    )
}

/// The `j` part of the Hamilton product `a * b`:
/// `w1 y2 - x1 z2 + y1 w2 + z1 x2`.
pub open spec fn hamilton_y<T: Add<Output = T> + Sub<Output = T> + Mul<Output = T>>(
    a: Seq<T>,
    b: Seq<T>,
) -> Option<T> {
    plus(
        plus(minus(product(a[0], b[2]), product(a[1], b[3])), product(a[2], b[0])),
        product(a[3], b[1]),
    )
}

/// The `k` part of the Hamilton product `a * b`:
/// `w1 z2 + x1 y2 - y1 x2 + z1 w2`.
pub open spec fn hamilton_z<T: Add<Output = T> + Sub<Output = T> + Mul<Output = T>>(
    a: Seq<T>,
    b: Seq<T>,
) -> Option<T> {
    plus(
        minus(plus(product(a[0], b[3]), product(a[1], b[2])), product(a[2], b[1])),
        product(a[3], b[0]),
    )
}

/// Every part of the Hamilton product `a * b` has a value.
pub open spec fn hamilton_defined<T: Add<Output = T> + Sub<Output = T> + Mul<Output = T>>(
    a: Seq<T>,
    b: Seq<T>,
) -> bool {
    &&& hamilton_w(a, b) is Some
    &&& hamilton_x(a, b) is Some
    &&& hamilton_y(a, b) is Some
    &&& hamilton_z(a, b) is Some
}

/// The Hamilton product `a * b`, where every part of it has a value.
pub open spec fn hamilton<T: Add<Output = T> + Sub<Output = T> + Mul<Output = T>>(
    a: Seq<T>,
    b: Seq<T>,
) -> Seq<T> {
    seq![
        hamilton_w(a, b).unwrap(),
        hamilton_x(a, b).unwrap(),
        hamilton_y(a, b).unwrap(),
        hamilton_z(a, b).unwrap(),
    ]
}

impl<T> Quaternion<T> {
    /// The quaternion whose parts are `s`.
    pub open spec fn of_view(s: Seq<T>) -> Self {
        Quaternion { data: Vector::of_view(s) }
    }

    /// `of_view` gives back a quaternion from its own parts.
    pub proof fn lemma_of_view(a: Self)
        ensures
            Self::of_view(a@) == a,
    {
        Vector::lemma_of_view(a.data);
    }
}

impl<T: Copy> Quaternion<T> {
    /// The quaternion `w + x i + y j + z k`.
    pub fn new(w: T, x: T, y: T, z: T) -> (r: Self)
        ensures
            r@ == seq![w, x, y, z],
    {
        let r = Self { data: Vector { data: [w, x, y, z] } };
        assert(r@ =~= seq![w, x, y, z]);
        r
    }
}

// ----- the Hamilton product -----

impl<T: Copy + Add<Output = T> + Sub<Output = T> + Mul<Output = T>> vstd::std_specs::ops::MulSpecImpl for Quaternion<T> {
    open spec fn obeys_mul_spec() -> bool {
        ring_obeys::<T>()
    }

    open spec fn mul_req(self, rhs: Self) -> bool {
        runs(ring_total::<T>(), ring_obeys::<T>(), hamilton_defined(self@, rhs@))
    }

    open spec fn mul_spec(self, rhs: Self) -> Self {
        Self::of_view(hamilton(self@, rhs@))
    }
}

impl<T: Copy + Add<Output = T> + Sub<Output = T> + Mul<Output = T>> Mul for Quaternion<T> {
    type Output = Self;

    /// The Hamilton product `self * rhs`.
    fn mul(self, rhs: Self) -> (r: Self)
        ensures
            ring_obeys::<T>() ==> hamilton_defined(self@, rhs@) && r@ == hamilton(self@, rhs@),
    {
        let w1 = self.data.data[0];
        let x1 = self.data.data[1];
        let y1 = self.data.data[2];
        let z1 = self.data.data[3];
        let w2 = rhs.data.data[0];
        let x2 = rhs.data.data[1];
        let y2 = rhs.data.data[2];
        let z2 = rhs.data.data[3];

        let w = w1 * w2 - x1 * x2 - y1 * y2 - z1 * z2;
        let x = w1 * x2 + x1 * w2 + y1 * z2 - z1 * y2;
        let y = w1 * y2 - x1 * z2 + y1 * w2 + z1 * x2;
        let z = w1 * z2 + x1 * y2 - y1 * x2 + z1 * w2;

        let r = Self::new(w, x, y, z);
        proof {
            if ring_obeys::<T>() {
                assert(r@ =~= hamilton(self@, rhs@));
                Self::lemma_of_view(r);
            }
        }
        r
    }
}

// ----- arithmetic part by part -----

impl<T: Add<Output = T> + Copy> vstd::std_specs::ops::AddSpecImpl for Quaternion<T> {
    open spec fn obeys_add_spec() -> bool {
        T::obeys_add_spec()
    }

    open spec fn add_req(self, rhs: Self) -> bool {
        forall|i: int| 0 <= i < 4 ==> #[trigger] self@[i].add_req(rhs@[i])
    }

    open spec fn add_spec(self, rhs: Self) -> Self {
        Self::of_view(seq_plus(self@, rhs@))
    }
}

impl<T: Add<Output = T> + Copy> Add for Quaternion<T> {
    type Output = Self;

    /// The sum, part by part.
    fn add(self, rhs: Self) -> (r: Self)
        ensures
            T::obeys_add_spec() ==> r@ == seq_plus(self@, rhs@),
    {
        assert forall|i: int| 0 <= i < 4 implies #[trigger] self.data@[i].add_req(rhs.data@[i]) by {
            assert(self@[i].add_req(rhs@[i]));
        }
        let r = Self { data: self.data + rhs.data };
        proof {
            Self::lemma_of_view(r);
        }
        r
    }
}

impl<T: Sub<Output = T> + Copy> vstd::std_specs::ops::SubSpecImpl for Quaternion<T> {
    open spec fn obeys_sub_spec() -> bool {
        T::obeys_sub_spec()
    }

    open spec fn sub_req(self, rhs: Self) -> bool {
        forall|i: int| 0 <= i < 4 ==> #[trigger] self@[i].sub_req(rhs@[i])
    }

    open spec fn sub_spec(self, rhs: Self) -> Self {
        Self::of_view(seq_minus(self@, rhs@))
    }
}

impl<T: Sub<Output = T> + Copy> Sub for Quaternion<T> {
    type Output = Self;

    /// The difference, part by part.
    fn sub(self, rhs: Self) -> (r: Self)
        ensures
            T::obeys_sub_spec() ==> r@ == seq_minus(self@, rhs@),
    {
        assert forall|i: int| 0 <= i < 4 implies #[trigger] self.data@[i].sub_req(rhs.data@[i]) by {
            assert(self@[i].sub_req(rhs@[i]));
        }
        let r = Self { data: self.data - rhs.data };
        proof {
            Self::lemma_of_view(r);
        }
        r
    }
}

impl<T: Neg<Output = T> + Copy> vstd::std_specs::ops::NegSpecImpl for Quaternion<T> {
    open spec fn obeys_neg_spec() -> bool {
        T::obeys_neg_spec()
    }

    open spec fn neg_req(self) -> bool {
        forall|i: int| 0 <= i < 4 ==> #[trigger] self@[i].neg_req()
    }

    open spec fn neg_spec(self) -> Self {
        Self::of_view(seq_negated(self@))
    }
}

impl<T: Neg<Output = T> + Copy> Neg for Quaternion<T> {
    type Output = Self;

    /// Every part negated.
    fn neg(self) -> (r: Self)
        ensures
            T::obeys_neg_spec() ==> r@ == seq_negated(self@),
    {
        assert forall|i: int| 0 <= i < 4 implies #[trigger] self.data@[i].neg_req() by {
            assert(self@[i].neg_req());
        }
        let r = Self { data: self.data.neg() };
        proof {
            Self::lemma_of_view(r);
        }
        r
    }
}

impl<T: Mul<Output = T> + Copy> vstd::std_specs::ops::MulSpecImpl<T> for Quaternion<T> {
    open spec fn obeys_mul_spec() -> bool {
        T::obeys_mul_spec()
    }

    open spec fn mul_req(self, rhs: T) -> bool {
        forall|i: int| 0 <= i < 4 ==> #[trigger] self@[i].mul_req(rhs)
    }

    open spec fn mul_spec(self, rhs: T) -> Self {
        Self::of_view(seq_scaled(self@, rhs))
    }
}

impl<T: Mul<Output = T> + Copy> Mul<T> for Quaternion<T> {
    type Output = Self;

    /// Every part times `rhs`.
    fn mul(self, rhs: T) -> (r: Self)
        ensures
            T::obeys_mul_spec() ==> r@ == seq_scaled(self@, rhs),
    {
        assert forall|i: int| 0 <= i < 4 implies #[trigger] self.data@[i].mul_req(rhs) by {
            assert(self@[i].mul_req(rhs));
        }
        let r = Self { data: self.data * rhs };
        proof {
            Self::lemma_of_view(r);
        }
        r
    }
}

impl<T: Div<Output = T> + Copy> vstd::std_specs::ops::DivSpecImpl<T> for Quaternion<T> {
    open spec fn obeys_div_spec() -> bool {
        T::obeys_div_spec()
    }

    open spec fn div_req(self, rhs: T) -> bool {
        forall|i: int| 0 <= i < 4 ==> #[trigger] self@[i].div_req(rhs)
    }

    open spec fn div_spec(self, rhs: T) -> Self {
        Self::of_view(seq_divided(self@, rhs))
    }
}

impl<T: Div<Output = T> + Copy> Div<T> for Quaternion<T> {
    type Output = Self;

    /// Every part divided by `rhs`.
    fn div(self, rhs: T) -> (r: Self)
        ensures
            T::obeys_div_spec() ==> r@ == seq_divided(self@, rhs),
    {
        assert forall|i: int| 0 <= i < 4 implies #[trigger] self.data@[i].div_req(rhs) by {
            assert(self@[i].div_req(rhs));
        }
        let r = Self { data: self.data / rhs };
        proof {
            Self::lemma_of_view(r);
        }
        r
    }
}

// ----- what needs the scalar type's constants and square root -----

/// `distance` is less than or equal to `tolerance`, as the scalar type orders
/// them.
pub open spec fn is_at_most<T: PartialOrd>(distance: T, tolerance: T) -> bool {
    distance.is_le(&tolerance)
}

/// The parts of the identity quaternion, given zero and one.
pub open spec fn identity_parts<T>(zero: T, one: T) -> Seq<T> {
    seq![one, zero, zero, zero]
}

impl<T: Copy + From<u8>> Quaternion<T> {
    /// The identity quaternion `[1, 0, 0, 0]`.
    pub fn identity() -> (r: Self)
        ensures
            T::obeys_from_spec() ==> r@ == identity_parts(zero_of::<T>(), one_of::<T>()),
    {
        let one = scalar_of::<T>(1);
        let zero = scalar_of::<T>(0);
        Self::new(one, zero, zero, zero)
    }
}

impl<
    T: Float + Copy + PartialOrd + Add<Output = T> + Sub<Output = T> + Mul<Output = T> + Div<
        Output = T,
    > + Neg<Output = T> + From<u8>,
> Quaternion<T> {
    /// The norm: the square root of `w w + x x + y y + z z`, the root as the
    /// scalar type takes it.
    pub fn norm(&self) -> (r: T)
        requires
            add_total::<T>() && mul_total::<T>(),
        ensures
            T::obeys_add_spec() && T::obeys_mul_spec() && T::obeys_from_spec() ==> is_norm(
                r,
                self@,
            ),
    {
        self.data.norm()
    }

    /// Whether the norm differs from one by no more than `tolerance`: a check
    /// for callers that hand a quaternion on as a rotation.
    pub fn is_unit_within(&self, tolerance: T) -> (r: bool)
        requires
            ring_total::<T>(),
        ensures
            ring_obeys::<T>() && T::obeys_partial_cmp_spec() && T::obeys_from_spec()
                ==> is_unit_check(r, self@, tolerance),
    {
        let norm = self.norm();
        let distance = float_abs(norm - scalar_of::<T>(1));
        let r = distance <= tolerance;
        assert(ring_obeys::<T>() && T::obeys_partial_cmp_spec() && T::obeys_from_spec()
            ==> is_norm(norm, self@) && is_abs(norm.sub_spec(one_of::<T>()), distance) && r
            == is_at_most(distance, tolerance));
        r
    }

    /// Every part divided by the norm. A quaternion of norm zero is divided by
    /// zero, with whatever the scalar type makes of that.
    pub fn normalized(self) -> (r: Self)
        requires
            add_total::<T>() && mul_total::<T>(),
            forall|n: T, i: int| 0 <= i < 4 ==> #[trigger] self@[i].div_req(n),
        ensures
            T::obeys_add_spec() && T::obeys_mul_spec() && T::obeys_div_spec()
                && T::obeys_from_spec() ==> is_normalized(r@, self@),
    {
        let norm = self.norm();
        let r = self / norm;
        assert(T::obeys_add_spec() && T::obeys_mul_spec() && T::obeys_div_spec()
            && T::obeys_from_spec() ==> is_norm(norm, self@) && r@ == seq_divided(self@, norm));
        r
    }
}

// ----- from a direction cosine matrix: Shepperd's method -----

/// The part of the quaternion that Shepperd's method takes the square root for
/// and divides the others by.
#[derive(Debug, Clone, Copy, PartialEq, Eq)]
pub enum Pivot {
    /// The scalar part `w`.
    Scalar,
    /// The part `x`.
    I,
    /// The part `y`.
    J,
    /// The part `z`.
    K,
}

/// Why a conversion between attitude representations gave no result.
#[derive(Debug, Clone, Copy, PartialEq, Eq)]
pub enum AttitudeError {
    /// None of the four guards of Shepperd's method exceeds one quarter: the
    /// matrix is no rotation.
    NoValidQuaternion,
}

/// The constant four, as `(one + one) + (one + one)`.
pub open spec fn four_of<T: Add<Output = T>>(one: T) -> Option<T> {
    plus(sum(one, one), sum(one, one))
}

/// The threshold one quarter, as `one / four`.
pub open spec fn quarter_of<T: Add<Output = T> + Div<Output = T>>(one: T) -> Option<T> {
    over(Some(one), four_of(one))
}

/// The guard of a pivot: `1 + m00 ± m11 ± m22`, with the signs `+ +` for the
/// scalar part, `- -` for `I`, `+ -` for `J` and `- +` for `K`.
pub open spec fn shepperd_guard<T: Add<Output = T> + Sub<Output = T>>(
    m: Seq<Seq<T>>,
    one: T,
    pivot: Pivot,
) -> Option<T> {
    let head = sum(one, m[0][0]);
    match pivot {
        Pivot::Scalar => plus(plus(head, Some(m[1][1])), Some(m[2][2])),
        Pivot::I => minus(minus(head, Some(m[1][1])), Some(m[2][2])),
        Pivot::J => minus(plus(head, Some(m[1][1])), Some(m[2][2])),
        Pivot::K => plus(minus(head, Some(m[1][1])), Some(m[2][2])),
    }
}

/// The guard of `pivot` has a value and exceeds one quarter.
pub open spec fn guard_passes<
    T: PartialOrd + Add<Output = T> + Sub<Output = T> + Div<Output = T>,
>(m: Seq<Seq<T>>, one: T, pivot: Pivot) -> bool {
    match (shepperd_guard(m, one, pivot), quarter_of(one)) {
        (Some(c), Some(k)) => c.is_gt(&k),
        _ => false,
    }
}

/// The pivot that Shepperd's method selects: the first of scalar, `I`, `J`,
/// `K` whose guard exceeds one quarter, if there is one.
pub open spec fn shepperd_pivot<
    T: PartialOrd + Add<Output = T> + Sub<Output = T> + Div<Output = T>,
>(m: Seq<Seq<T>>, one: T) -> Option<Pivot> {
    if guard_passes(m, one, Pivot::Scalar) {
        Some(Pivot::Scalar)
    } else if guard_passes(m, one, Pivot::I) {
        Some(Pivot::I)
    } else if guard_passes(m, one, Pivot::J) {
        Some(Pivot::J)
    } else if guard_passes(m, one, Pivot::K) {
        Some(Pivot::K)
    } else {
        None
    }
}

/// What the square root is taken of: the guard of the pivot over four.
pub open spec fn shepperd_radicand<
    T: Add<Output = T> + Sub<Output = T> + Div<Output = T>,
>(m: Seq<Seq<T>>, one: T, pivot: Pivot) -> Option<T> {
    over(shepperd_guard(m, one, pivot), four_of(one))
}

/// The threshold and the four guards have values, and so has each radicand.
pub open spec fn shepperd_guards_defined<
    T: Add<Output = T> + Sub<Output = T> + Div<Output = T>,
>(m: Seq<Seq<T>>, one: T) -> bool {
    &&& quarter_of(one) is Some
    &&& shepperd_radicand(m, one, Pivot::Scalar) is Some
    &&& shepperd_radicand(m, one, Pivot::I) is Some
    &&& shepperd_radicand(m, one, Pivot::J) is Some
    &&& shepperd_radicand(m, one, Pivot::K) is Some
}

/// `(m[a][b] - m[c][d]) / den`.
pub open spec fn difference_over<T: Sub<Output = T> + Div<Output = T>>(
    m: Seq<Seq<T>>,
    a: int,
    b: int,
    c: int,
    d: int,
    den: Option<T>,
) -> Option<T> {
    over(difference(m[a][b], m[c][d]), den)
}

/// `(m[a][b] + m[c][d]) / den`.
pub open spec fn sum_over<T: Add<Output = T> + Div<Output = T>>(
    m: Seq<Seq<T>>,
    a: int,
    b: int,
    c: int,
    d: int,
    den: Option<T>,
) -> Option<T> {
    over(sum(m[a][b], m[c][d]), den)
}

/// The four parts `[w, x, y, z]` that Shepperd's method gives for a pivot and
/// the square root `root` taken for it: the pivot's part is `root`, the others
/// are sums or differences of two off-diagonal entries over `4 root`.
pub open spec fn shepperd_parts<
    T: Add<Output = T> + Sub<Output = T> + Mul<Output = T> + Div<Output = T>,
>(m: Seq<Seq<T>>, one: T, pivot: Pivot, root: T) -> Seq<Option<T>> {
    let den = times(Some(root), four_of(one));
    match pivot {
        Pivot::Scalar => seq![
            Some(root),
            difference_over(m, 1, 2, 2, 1, den),
            difference_over(m, 2, 0, 0, 2, den),
            difference_over(m, 0, 1, 1, 0, den),
        ],
        Pivot::I => seq![
            difference_over(m, 1, 2, 2, 1, den),
            Some(root),
            sum_over(m, 0, 1, 1, 0, den),
            sum_over(m, 2, 0, 0, 2, den),
        ],
        Pivot::J => seq![
            difference_over(m, 2, 0, 0, 2, den),
            sum_over(m, 0, 1, 1, 0, den),
            Some(root),
            sum_over(m, 1, 2, 2, 1, den),
        ],
        Pivot::K => seq![
            difference_over(m, 0, 1, 1, 0, den),
            sum_over(m, 2, 0, 0, 2, den),
            sum_over(m, 1, 2, 2, 1, den),
            Some(root),
        ],
    }
}

/// Each of four optional parts has a value.
pub open spec fn parts_defined<T>(p: Seq<Option<T>>) -> bool {
    p[0] is Some && p[1] is Some && p[2] is Some && p[3] is Some
}

/// The quaternion parts `q` are the values of `p`.
pub open spec fn parts_hold<T>(q: Seq<T>, p: Seq<Option<T>>) -> bool {
    p[0] == Some(q[0]) && p[1] == Some(q[1]) && p[2] == Some(q[2]) && p[3] == Some(q[3])
}

/// `q` holds the parts that Shepperd's method gives for `pivot`, with the
/// root the square root, as the scalar type takes it, of the radicand of that
/// pivot.
pub open spec fn is_shepperd_quaternion<
    T: Float + Add<Output = T> + Sub<Output = T> + Mul<Output = T> + Div<Output = T>,
>(q: Seq<T>, m: Seq<Seq<T>>, one: T, pivot: Pivot) -> bool {
    shepperd_radicand(m, one, pivot) is Some && exists|root: T|
        is_sqrt(shepperd_radicand(m, one, pivot).unwrap(), root) && parts_hold(
            q,
            #[trigger] shepperd_parts(m, one, pivot, root),
        )
}

/// What Shepperd's method returns for the matrix `m`, given the scalar `one`:
/// an error where no guard passes, else the parts for the selected pivot and
/// the square root of its radicand.
pub open spec fn is_shepperd_result<
    T: Float + PartialOrd + Add<Output = T> + Sub<Output = T> + Mul<Output = T> + Div<Output = T>,
>(r: Result<Quaternion<T>, AttitudeError>, m: Seq<Seq<T>>, one: T) -> bool {
    match shepperd_pivot(m, one) {
        None => r == Err::<Quaternion<T>, AttitudeError>(AttitudeError::NoValidQuaternion),
        Some(pivot) => match r {
            Ok(q) => is_shepperd_quaternion(q@, m, one, pivot),
            Err(_) => false,
        },
    }
}

impl<
    T: Copy + PartialOrd + Add<Output = T> + Sub<Output = T> + Mul<Output = T> + Div<Output = T>,
> Quaternion<T> {
    /// The first step of Shepperd's method: which pivot is selected, and what
    /// the square root is to be taken of. `None` where no guard exceeds one
    /// quarter.
    pub fn shepperd_select(m: &Matrix<T, 3, 3>, one: T) -> (r: Option<(Pivot, T)>)
        requires
            runs(field_total::<T>(), field_obeys::<T>(), shepperd_guards_defined(m@, one)),
        ensures
            field_obeys::<T>() && T::obeys_partial_cmp_spec() ==> match shepperd_pivot(m@, one) {
                None => r is None,
                Some(pivot) => r == Some((pivot, shepperd_radicand(m@, one, pivot).unwrap())),
            },
    {
        let two = one + one;
        let four = two + two;
        let k = one / four;
        let m00 = m.data[0][0];
        let m11 = m.data[1][1];
        let m22 = m.data[2][2];
        proof {
            if !field_total::<T>() {
                assert(shepperd_radicand(m@, one, Pivot::Scalar) is Some);
                assert(shepperd_radicand(m@, one, Pivot::I) is Some);
                assert(shepperd_radicand(m@, one, Pivot::J) is Some);
                assert(shepperd_radicand(m@, one, Pivot::K) is Some);
            }
        }
        let c1 = one + m00 + m11 + m22;
        let c2 = one + m00 - m11 - m22;
        let c3 = one + m00 + m11 - m22;
        let c4 = one + m00 - m11 + m22;
        if c1 > k {
            Some((Pivot::Scalar, c1 / four))
        } else if c2 > k {
            Some((Pivot::I, c2 / four))
        } else if c3 > k {
            Some((Pivot::J, c3 / four))
        } else if c4 > k {
            Some((Pivot::K, c4 / four))
        } else {
            None
        }
    }

    /// The second step of Shepperd's method: the quaternion for the selected
    /// pivot, given the square root `root` that was taken for it.
    pub fn shepperd_solve(m: &Matrix<T, 3, 3>, one: T, pivot: Pivot, root: T) -> (r: Self)
        requires
            runs(
                field_total::<T>(),
                field_obeys::<T>(),
                parts_defined(shepperd_parts(m@, one, pivot, root)),
            ),
        ensures
            field_obeys::<T>() ==> parts_hold(r@, shepperd_parts(m@, one, pivot, root)),
    {
        let two = one + one;
        let four = two + two;
        let den = root * four;
        let m01 = m.data[0][1];
        let m02 = m.data[0][2];
        let m10 = m.data[1][0];
        let m12 = m.data[1][2];
        let m20 = m.data[2][0];
        let m21 = m.data[2][1];
        match pivot {
            Pivot::Scalar => Self::new(root, (m12 - m21) / den, (m20 - m02) / den, (m01 - m10) / den),
            Pivot::I => Self::new((m12 - m21) / den, root, (m01 + m10) / den, (m20 + m02) / den),
            Pivot::J => Self::new((m20 - m02) / den, (m01 + m10) / den, root, (m12 + m21) / den),
            Pivot::K => Self::new((m01 - m10) / den, (m20 + m02) / den, (m12 + m21) / den, root),
        }
    }
}

// ----- from Euler angles, and from an angular velocity -----

/// `a * b * c`, taken as `(a * b) * c`.
pub open spec fn triple<T: Mul<Output = T>>(a: T, b: T, c: T) -> Option<T> {
    times(product(a, b), Some(c))
}

/// The parts of the quaternion of the angles roll, pitch and yaw, from the
/// cosines `cr, cp, cy` and the sines `sr, sp, sy` of half of each:
/// `w = cr cp cy + sr sp sy`, `x = sr cp cy - cr sp sy`,
/// `y = cr sp cy + sr cp sy`, `z = cr cp sy - sr sp cy`.
pub open spec fn half_angle_parts<T: Add<Output = T> + Sub<Output = T> + Mul<Output = T>>(
    cr: T,
    sr: T,
    cp: T,
    sp: T,
    cy: T,
    sy: T,
) -> Seq<Option<T>> {
    seq![
        plus(triple(cr, cp, cy), triple(sr, sp, sy)),
        minus(triple(sr, cp, cy), triple(cr, sp, sy)),
        plus(triple(cr, sp, cy), triple(sr, cp, sy)),
        minus(triple(cr, cp, sy), triple(sr, sp, cy)),
    ]
}

/// One half, as `one / (one + one)`.
pub open spec fn half_of<T: Add<Output = T> + Div<Output = T>>(one: T) -> Option<T> {
    over(Some(one), sum(one, one))
}

/// Each of three angles times one half.
pub open spec fn halved<T: Add<Output = T> + Mul<Output = T> + Div<Output = T>>(
    angles: Seq<T>,
    one: T,
) -> Seq<Option<T>> {
    seq![
        times(Some(angles[0]), half_of(one)),
        times(Some(angles[1]), half_of(one)),
        times(Some(angles[2]), half_of(one)),
    ]
}

/// Half of the angle turned at the rate `mag` in the time `dt`: `mag * dt * (1 / 2)`.
pub open spec fn half_turn<T: Add<Output = T> + Mul<Output = T> + Div<Output = T>>(
    mag: T,
    dt: T,
    one: T,
) -> Option<T> {
    times(product(mag, dt), half_of(one))
}

/// The parts of the quaternion of a rotation about `axis`, from the cosine and
/// the sine of half the angle: `[cos, axis[0] sin, axis[1] sin, axis[2] sin]`.
pub open spec fn axis_angle_parts<T: Mul<Output = T>>(
    axis: Seq<T>,
    cos_half: T,
    sin_half: T,
) -> Seq<Option<T>> {
    seq![
        Some(cos_half),
        product(axis[0], sin_half),
        product(axis[1], sin_half),
        product(axis[2], sin_half),
    ]
}

/// `q` is the quaternion of the angles `e` by the half-angle formula: the six
/// values that enter it are the cosines and sines, as the scalar type takes
/// them, of half of each angle.
pub open spec fn is_half_angle_quaternion<
    T: Float + Add<Output = T> + Sub<Output = T> + Mul<Output = T> + Div<Output = T> + From<u8>,
>(q: Seq<T>, e: Seq<T>) -> bool {
    let h = halved(e, one_of::<T>());
    &&& h[0] is Some && h[1] is Some && h[2] is Some
    &&& exists|cr: T, sr: T, cp: T, sp: T, cy: T, sy: T|
        {
            &&& is_cos(h[0].unwrap(), cr) && is_sin(h[0].unwrap(), sr)
            &&& is_cos(h[1].unwrap(), cp) && is_sin(h[1].unwrap(), sp)
            &&& is_cos(h[2].unwrap(), cy) && is_sin(h[2].unwrap(), sy)
            &&& parts_hold(q, #[trigger] half_angle_parts(cr, sr, cp, sp, cy, sy))
        }
}

/// `q` is what the angular velocity `omega` gives in the time `dt` where its
/// length is `mag`: the identity where `mag` equals zero, else the rotation
/// about `omega / mag` with the cosine and the sine, as the scalar type takes
/// them, of half of `mag * dt`.
pub open spec fn is_turn<
    T: Float + PartialEq + Add<Output = T> + Mul<Output = T> + Div<Output = T> + From<u8>,
>(q: Seq<T>, omega: Seq<T>, dt: T, mag: T) -> bool {
    if mag.eq_spec(&zero_of::<T>()) {
        q == identity_parts(zero_of::<T>(), one_of::<T>())
    } else {
        half_turn(mag, dt, one_of::<T>()) is Some && exists|cos_half: T, sin_half: T|
            {
                &&& is_cos(half_turn(mag, dt, one_of::<T>()).unwrap(), cos_half)
                &&& is_sin(half_turn(mag, dt, one_of::<T>()).unwrap(), sin_half)
                &&& parts_hold(
                    q,
                    #[trigger] axis_angle_parts(seq_divided(omega, mag), cos_half, sin_half),
                )
            }
    }
}

/// `q` is what the angular velocity `omega` gives in the time `dt`: the turn
/// for the length of `omega`.
pub open spec fn is_angular_velocity_quaternion<
    T: Float + PartialEq + Add<Output = T> + Mul<Output = T> + Div<Output = T> + From<u8>,
>(q: Seq<T>, omega: Seq<T>, dt: T) -> bool {
    exists|mag: T| is_norm(mag, omega) && #[trigger] is_turn(q, omega, dt, mag)
}

/// `r` says whether the norm of `q` differs from one by no more than
/// `tolerance`: the distance is the absolute value, as the scalar type takes
/// it, of the norm less one.
pub open spec fn is_unit_check<
    T: Float + PartialOrd + Add<Output = T> + Sub<Output = T> + Mul<Output = T> + From<u8>,
>(r: bool, q: Seq<T>, tolerance: T) -> bool {
    exists|norm: T, distance: T|
        is_norm(norm, q) && #[trigger] is_abs(norm.sub_spec(one_of::<T>()), distance) && r
            == is_at_most(distance, tolerance)
}

/// `r` is `q` with every part divided by its norm.
pub open spec fn is_normalized<
    T: Float + Add<Output = T> + Mul<Output = T> + Div<Output = T> + From<u8>,
>(r: Seq<T>, q: Seq<T>) -> bool {
    exists|norm: T| is_norm(norm, q) && r == #[trigger] seq_divided(q, norm)
}

impl<T: Copy + Add<Output = T> + Sub<Output = T> + Mul<Output = T>> Quaternion<T> {
    /// The quaternion of the angles roll, pitch and yaw (ZYX convention), from
    /// the cosines and sines of half of each.
    pub fn from_half_angles(cr: T, sr: T, cp: T, sp: T, cy: T, sy: T) -> (r: Self)
        requires
            runs(
                ring_total::<T>(),
                ring_obeys::<T>(),
                parts_defined(half_angle_parts(cr, sr, cp, sp, cy, sy)),
            ),
        ensures
            ring_obeys::<T>() ==> parts_hold(r@, half_angle_parts(cr, sr, cp, sp, cy, sy)),
    {
        let w = cr * cp * cy + sr * sp * sy;
        let x = sr * cp * cy - cr * sp * sy;
        let y = cr * sp * cy + sr * cp * sy;
        let z = cr * cp * sy - sr * sp * cy;
        Self::new(w, x, y, z)
    }
}

impl<T: Copy + Mul<Output = T>> Quaternion<T> {
    /// The quaternion of a rotation about the unit vector `axis`, from the
    /// cosine and the sine of half the angle.
    pub fn from_axis_angle(axis: Vector<T, 3>, cos_half: T, sin_half: T) -> (r: Self)
        requires
            forall|i: int| 0 <= i < 3 ==> #[trigger] axis@[i].mul_req(sin_half),
        ensures
            T::obeys_mul_spec() ==> parts_hold(r@, axis_angle_parts(axis@, cos_half, sin_half)),
    {
        assert(axis@[0].mul_req(sin_half) && axis@[1].mul_req(sin_half) && axis@[2].mul_req(
            sin_half,
        ));
        Self::new(
            cos_half,
            axis.data[0] * sin_half,
            axis.data[1] * sin_half,
            axis.data[2] * sin_half,
        )
    }
}

impl<T: Copy + Add<Output = T> + Mul<Output = T> + Div<Output = T>> Quaternion<T> {
    /// Half of each of the three angles: each times `one / (one + one)`.
    pub fn half_angles(angles: &Vector<T, 3>, one: T) -> (r: Vector<T, 3>)
        requires
            runs(
                add_total::<T>() && mul_total::<T>() && div_total::<T>(),
                T::obeys_add_spec() && T::obeys_mul_spec() && T::obeys_div_spec(),
                halved(angles@, one)[0] is Some && halved(angles@, one)[1] is Some && halved(
                    angles@,
                    one,
                )[2] is Some,
            ),
        ensures
            T::obeys_add_spec() && T::obeys_mul_spec() && T::obeys_div_spec() ==> {
                &&& halved(angles@, one)[0] == Some(r@[0])
                &&& halved(angles@, one)[1] == Some(r@[1])
                &&& halved(angles@, one)[2] == Some(r@[2])
            },
    {
        let half = one / (one + one);
        Vector { data: [angles.data[0] * half, angles.data[1] * half, angles.data[2] * half] }
    }

    /// Half of the angle turned at the rate `mag` in the time `dt`.
    pub fn half_turn_angle(mag: T, dt: T, one: T) -> (r: T)
        requires
            runs(
                add_total::<T>() && mul_total::<T>() && div_total::<T>(),
                T::obeys_add_spec() && T::obeys_mul_spec() && T::obeys_div_spec(),
                half_turn(mag, dt, one) is Some,
            ),
        ensures
            T::obeys_add_spec() && T::obeys_mul_spec() && T::obeys_div_spec() ==> half_turn(
                mag,
                dt,
                one,
            ) == Some(r),
    {
        let angle = mag * dt;
        let half = one / (one + one);
        angle * half
    }
}

impl<
    T: Float + Copy + PartialOrd + PartialEq + Add<Output = T> + Sub<Output = T> + Mul<
        Output = T,
    > + Div<Output = T> + Neg<Output = T> + From<u8>,
> Quaternion<T> {
    /// The quaternion of the rotation matrix `dcm`, by Shepperd's method, or
    /// `NoValidQuaternion` where none of the four guards exceeds one quarter.
    /// The guards are tried in the fixed order scalar, `x`, `y`, `z`. The
    /// square root is as the scalar type takes it.
    pub fn try_from_dcm(dcm: &DirectionCosineMatrix<T>) -> (r: Result<Self, AttitudeError>)
        requires
            field_total::<T>(),
        ensures
            field_obeys::<T>() && T::obeys_partial_cmp_spec() && T::obeys_from_spec()
                ==> is_shepperd_result(r, dcm@, one_of::<T>()),
    {
        let one = scalar_of::<T>(1);
        let m = dcm.as_matrix();
        let selected = Self::shepperd_select(m, one);
        let r = match selected {
            None => Err(AttitudeError::NoValidQuaternion),
            Some((pivot, radicand)) => {
                let root = float_sqrt(radicand);
                let q = Self::shepperd_solve(m, one, pivot, root);
                proof {
                    if field_obeys::<T>() && T::obeys_partial_cmp_spec() {
                        assert(shepperd_pivot(dcm@, one) == Some(pivot));
                        assert(shepperd_radicand(dcm@, one, pivot) == Some(radicand));
                        assert(is_sqrt(radicand, root) && parts_hold(
                            q@,
                            shepperd_parts(dcm@, one, pivot, root),
                        ));
                        assert(is_shepperd_quaternion(q@, dcm@, one, pivot));
                    }
                }
                Ok(q)
            },
        };
        r
    }

    /// The quaternion of the angles `e` (ZYX convention), by the half-angle
    /// formula. Cosines and sines are as the scalar type takes them, of half
    /// of each angle.
    pub fn from_euler(e: &Euler<T>) -> (r: Self)
        requires
            field_total::<T>(),
        ensures
            field_obeys::<T>() && T::obeys_from_spec() ==> is_half_angle_quaternion(r@, e@),
    {
        let h = Self::half_angles(&e.data, scalar_of::<T>(1));
        let cr = float_cos(h.data[0]);
        let sr = float_sin(h.data[0]);
        let cp = float_cos(h.data[1]);
        let sp = float_sin(h.data[1]);
        let cy = float_cos(h.data[2]);
        let sy = float_sin(h.data[2]);
        let r = Self::from_half_angles(cr, sr, cp, sp, cy, sy);
        proof {
            if field_obeys::<T>() && T::obeys_from_spec() {
                let s = halved(e@, one_of::<T>());
                assert(s[0] == Some(h@[0]) && s[1] == Some(h@[1]) && s[2] == Some(h@[2]));
                assert(parts_hold(r@, half_angle_parts(cr, sr, cp, sp, cy, sy)));
            }
        }
        r
    }

    /// The rotation turned in the time `dt` at the angular velocity `omega`:
    /// the identity where the length of `omega` equals zero, else the rotation
    /// about `omega` over its length by the angle length times `dt`. Length,
    /// cosine and sine are as the scalar type takes them.
    pub fn from_angular_velocity(omega: Vector<T, 3>, dt: T) -> (r: Self)
        requires
            field_total::<T>(),
        ensures
            T::obeys_eq_spec() && T::obeys_add_spec() && T::obeys_mul_spec() && T::obeys_div_spec()
                && T::obeys_from_spec() ==> is_angular_velocity_quaternion(r@, omega@, dt),
    {
        let mag = omega.norm();
        let zero = scalar_of::<T>(0);
        let one = scalar_of::<T>(1);
        let ghost known = T::obeys_eq_spec() && T::obeys_add_spec() && T::obeys_mul_spec()
            && T::obeys_div_spec() && T::obeys_from_spec();
        if mag == zero {
            let r = Self::new(one, zero, zero, zero);
            assert(known ==> is_norm(mag, omega@) && is_turn(r@, omega@, dt, mag));
            r
        } else {
            let axis = omega / mag;
            let half_angle = Self::half_turn_angle(mag, dt, one);
            let cos_half = float_cos(half_angle);
            let sin_half = float_sin(half_angle);
            let r = Self::from_axis_angle(axis, cos_half, sin_half);
            proof {
                if known {
                    assert(half_turn(mag, dt, one_of::<T>()) == Some(half_angle));
                    assert(parts_hold(
                        r@,
                        axis_angle_parts(seq_divided(omega@, mag), cos_half, sin_half),
                    ));
                    assert(is_norm(mag, omega@) && is_turn(r@, omega@, dt, mag));
                }
            }
            r
        }
    }
}

// ----- the other representations, and text -----

impl<
    T: Float + FloatConst + Copy + Default + PartialOrd + PartialEq + Add<Output = T> + Sub<
        Output = T,
    > + Mul<Output = T> + Div<Output = T> + Neg<Output = T> + From<u8>,
> Quaternion<T> {
    /// The Euler angles of the quaternion: `Euler::from_quaternion`.
    pub fn to_euler(&self) -> (r: Euler<T>)
        requires
            ring_total::<T>(),
        ensures
            ring_obeys::<T>() && T::obeys_partial_cmp_spec() && T::obeys_from_spec()
                ==> is_euler_of_quaternion(r@, self@),
    {
        Euler::from_quaternion(self)
    }

    /// The rotation matrix of the quaternion:
    /// `DirectionCosineMatrix::from_quaternion`.
    pub fn to_direction_cosine_matrix(&self) -> (r: DirectionCosineMatrix<T>)
        requires
            ring_total::<T>(),
        ensures
            ring_obeys::<T>() && T::obeys_from_spec() ==> is_quaternion_matrix(r@, self@),
    {
        DirectionCosineMatrix::from_quaternion(*self)
    }
}

impl<T: core::fmt::Display> Quaternion<T> {
    /// The quaternion as text: its parts as a vector, then a line feed.
    pub fn to_text(&self) -> (r: String)
        ensures
            exists|cells: Seq<String>|
                are_shown(self@, cells) && r@ == #[trigger] vector_text(texts(cells)) + seq!['\n'],
    {
        proof {
            reveal_strlit("\n");
            assert("\n"@ =~= seq!['\n']);
        }
        let cells = self.data.shown();
        let mut r = format_vector(&cells);
        r.append("\n");
        assert(are_shown(self@, cells@) && r@ == vector_text(texts(cells@)) + seq!['\n']);
        r
    }
}

} // verus!
