//! Direction cosine matrices: three-by-three rotation matrices.
use crate::attitude::euler::{is_euler_of_matrix, Euler};
use crate::attitude::quaternion::{is_shepperd_result, AttitudeError, Quaternion};
use crate::math::matrix::{grid_scaled, is_default_product, is_shown_grid, product_runs, Matrix};
use crate::utils::parse::{matrix_text, texts};
use crate::scalar::{
    add_total, difference, div_total, field_obeys, field_total, float_cos, float_powf, float_sin,
    is_cos, is_powf, is_sin, minus, mul_total, neg_total, one_of, plus, product, ring_obeys, ring_total, runs, scalar_of,
    sum, times, zero_of,
};
use core::ops::{Add, Div, Mul, Neg, Sub};
use num_traits::{Float, FloatConst};
use vstd::prelude::*;
use vstd::std_specs::cmp::PartialOrdSpec;
use vstd::std_specs::convert::FromSpec;
use vstd::std_specs::ops::{AddSpec, DivSpec, MulSpec, NegSpec};

verus! {

/// A three-by-three matrix that stands for a rotation when it is orthonormal
/// with determinant one. Nothing here checks that: the elementary rotations
/// and the conversion from a unit quaternion produce such matrices.
#[derive(Debug, Clone, Copy)]
pub struct DirectionCosineMatrix<T> {
    data: Matrix<T, 3, 3>,
}

impl<T> View for DirectionCosineMatrix<T> {
    type V = Seq<Seq<T>>;

    closed spec fn view(&self) -> Seq<Seq<T>> {
        self.data@
    }
}

/// The rotation about the first axis, from the cosine `c`, the sine `s` and
/// its negation `ms`.
pub open spec fn rotation_x_grid<T>(zero: T, one: T, c: T, s: T, ms: T) -> Seq<Seq<T>> {
    seq![seq![one, zero, zero], seq![zero, c, s], seq![zero, ms, c]]
}

/// The rotation about the second axis, from the cosine `c`, the sine `s` and
/// its negation `ms`.
pub open spec fn rotation_y_grid<T>(zero: T, one: T, c: T, s: T, ms: T) -> Seq<Seq<T>> {
    seq![seq![c, zero, ms], seq![zero, one, zero], seq![s, zero, c]]
}

/// The rotation about the third axis, from the cosine `c`, the sine `s` and
/// its negation `ms`.
pub open spec fn rotation_z_grid<T>(zero: T, one: T, c: T, s: T, ms: T) -> Seq<Seq<T>> {
    seq![seq![c, s, zero], seq![ms, c, zero], seq![zero, zero, one]]
}

/// `two * (a * b + c * d)`.
pub open spec fn doubled_sum<T: Add<Output = T> + Mul<Output = T>>(
    two: T,
    a: T,
    b: T,
    c: T,
    d: T,
) -> Option<T> {
    times(Some(two), plus(product(a, b), product(c, d)))
}

/// `two * (a * b - c * d)`.
pub open spec fn doubled_difference<T: Sub<Output = T> + Mul<Output = T>>(
    two: T,
    a: T,
    b: T,
    c: T,
    d: T,
) -> Option<T> {
    times(Some(two), minus(product(a, b), product(c, d)))
}

/// The matrix of the quaternion `q = [s, i, j, k]`, entry by entry, from the
/// constant `two` and the four squares `sq = [s², i², j², k²]`.
pub open spec fn quaternion_grid<T: Add<Output = T> + Sub<Output = T> + Mul<Output = T>>(
    q: Seq<T>,
    two: T,
    sq: Seq<T>,
) -> Seq<Seq<Option<T>>> {
    let (s, i, j, k) = (q[0], q[1], q[2], q[3]);
    seq![
        seq![
            minus(minus(sum(sq[0], sq[1]), Some(sq[2])), Some(sq[3])),
            doubled_sum(two, i, j, s, k),
            doubled_difference(two, i, k, s, j),
        ],
        seq![
            doubled_difference(two, i, j, s, k),
            minus(plus(difference(sq[0], sq[1]), Some(sq[2])), Some(sq[3])),
            doubled_sum(two, j, k, s, i),
        ],
        seq![
            doubled_sum(two, i, k, s, j),
            doubled_difference(two, j, k, s, i),
            plus(minus(difference(sq[0], sq[1]), Some(sq[2])), Some(sq[3])),
        ],
    ]
}

/// Every entry of a three-by-three grid of optional values has a value.
pub open spec fn grid_defined<T>(g: Seq<Seq<Option<T>>>) -> bool {
    forall|i: int, j: int| 0 <= i < 3 && 0 <= j < 3 ==> (#[trigger] g[i][j]) is Some
}

/// The three-by-three grid `m` holds the values of `g`.
pub open spec fn grid_holds<T>(m: Seq<Seq<T>>, g: Seq<Seq<Option<T>>>) -> bool {
    forall|i: int, j: int| 0 <= i < 3 && 0 <= j < 3 ==> (#[trigger] g[i][j]) == Some(m[i][j])
}

/// `r` is the product `z * y * x` of three grids, taken as `(z * y) * x`,
/// every entry accumulated onto a default value of the scalar type.
pub open spec fn is_zyx_product<T: Add<Output = T> + Mul<Output = T> + Default>(
    r: Seq<Seq<T>>,
    z: Seq<Seq<T>>,
    y: Seq<Seq<T>>,
    x: Seq<Seq<T>>,
) -> bool {
    exists|zy: Matrix<T, 3, 3>| #[trigger]
        is_default_product(zy@, z, y, 3, 3) && is_default_product(r, zy@, x, 3, 3)
}

/// The product `(z * y) * x` can be computed: the first product can, and so
/// can the second whatever the first came to.
pub open spec fn zyx_product_runs<T: Add<Output = T> + Mul<Output = T> + Default>(
    z: Seq<Seq<T>>,
    y: Seq<Seq<T>>,
    x: Seq<Seq<T>>,
) -> bool {
    &&& product_runs(z, y, 3, 3)
    &&& forall|zy: Matrix<T, 3, 3>| #[trigger]
        is_default_product(zy@, z, y, 3, 3) ==> product_runs(zy@, x, 3, 3)
}

impl<T> DirectionCosineMatrix<T> {
    /// The matrix whose rows are `s`.
    pub closed spec fn of_view(s: Seq<Seq<T>>) -> Self {
        DirectionCosineMatrix { data: Matrix::of_view(s) }
    }

    /// `of_view` gives back a matrix from its own entries.
    pub proof fn lemma_of_view(a: Self)
        ensures
            Self::of_view(a@) == a,
    {
        Matrix::lemma_of_view(a.data);
    }
}

impl<T: Copy> DirectionCosineMatrix<T> {
    /// The matrix with the given entries, row by row.
    pub fn new(m11: T, m12: T, m13: T, m21: T, m22: T, m23: T, m31: T, m32: T, m33: T) -> (r: Self)
        ensures
            r@ == seq![seq![m11, m12, m13], seq![m21, m22, m23], seq![m31, m32, m33]],
    {
        let r = Self { data: Matrix { data: [[m11, m12, m13], [m21, m22, m23], [m31, m32, m33]] } };
        proof {
            let g = seq![seq![m11, m12, m13], seq![m21, m22, m23], seq![m31, m32, m33]];
            assert(r@[0] =~= g[0]);
            assert(r@[1] =~= g[1]);
            assert(r@[2] =~= g[2]);
            assert(r@ =~= g);
        }
        r
    }

    /// The matrix `mat3`, taken as it is.
    pub fn from_matrix(mat3: Matrix<T, 3, 3>) -> (r: Self)
        ensures
            r@ == mat3@,
    {
        Self { data: mat3 }
    }

    /// The entries as a plain matrix.
    pub fn as_matrix(&self) -> (r: &Matrix<T, 3, 3>)
        ensures
            r@ == self@,
    {
        &self.data
    }
}

impl<T: Copy + Neg<Output = T>> DirectionCosineMatrix<T> {
    /// The rotation about the first axis from the cosine `c` and the sine `s`
    /// of the angle: `s` stands at `[1][2]`, `-s` at `[2][1]`.
    pub fn rotation_x_with(zero: T, one: T, c: T, s: T) -> (r: Self)
        requires
            s.neg_req(),
        ensures
            T::obeys_neg_spec() ==> r@ == rotation_x_grid(zero, one, c, s, s.neg_spec()),
    {
        Self::new(one, zero, zero, zero, c, s, zero, s.neg(), c)
    }

    /// The rotation about the second axis from the cosine `c` and the sine `s`
    /// of the angle: `-s` stands at `[0][2]`, `s` at `[2][0]`.
    pub fn rotation_y_with(zero: T, one: T, c: T, s: T) -> (r: Self)
        requires
            s.neg_req(),
        ensures
            T::obeys_neg_spec() ==> r@ == rotation_y_grid(zero, one, c, s, s.neg_spec()),
    {
        Self::new(c, zero, s.neg(), zero, one, zero, s, zero, c)
    }

    /// The rotation about the third axis from the cosine `c` and the sine `s`
    /// of the angle: `s` stands at `[0][1]`, `-s` at `[1][0]`.
    pub fn rotation_z_with(zero: T, one: T, c: T, s: T) -> (r: Self)
        requires
            s.neg_req(),
        ensures
            T::obeys_neg_spec() ==> r@ == rotation_z_grid(zero, one, c, s, s.neg_spec()),
    {
        Self::new(c, s, zero, s.neg(), c, zero, zero, zero, one)
    }
}

impl<T: Copy + Add<Output = T> + Sub<Output = T> + Mul<Output = T>> DirectionCosineMatrix<T> {
    /// The matrix of the quaternion `q = [s, i, j, k]`, from the constant
    /// `two` and the squares of the four parts.
    pub fn from_quaternion_with(q: Quaternion<T>, two: T, sp2: T, ip2: T, jp2: T, kp2: T) -> (r:
        Self)
        requires
            runs(
                ring_total::<T>(),
                ring_obeys::<T>(),
                grid_defined(quaternion_grid(q@, two, seq![sp2, ip2, jp2, kp2])),
            ),
        ensures
            ring_obeys::<T>() ==> grid_holds(
                r@,
                quaternion_grid(q@, two, seq![sp2, ip2, jp2, kp2]),
            ),
    {
        let s = q.data.data[0];
        let i = q.data.data[1];
        let j = q.data.data[2];
        let k = q.data.data[3];
        proof {
            let g = quaternion_grid(q@, two, seq![sp2, ip2, jp2, kp2]);
            if !ring_total::<T>() {
                assert(g[0][0] is Some && g[0][1] is Some && g[0][2] is Some);
                assert(g[1][0] is Some && g[1][1] is Some && g[1][2] is Some);
                assert(g[2][0] is Some && g[2][1] is Some && g[2][2] is Some);
            }
        }
        Self::new(
            sp2 + ip2 - jp2 - kp2,
            two * (i * j + s * k),
            two * (i * k - s * j),
            two * (i * j - s * k),
            sp2 - ip2 + jp2 - kp2,
            two * (j * k + s * i),
            two * (i * k + s * j),
            two * (j * k - s * i),
            sp2 - ip2 - jp2 + kp2,
        )
    }
}

// ----- products -----

impl<T: Mul<Output = T> + Copy> vstd::std_specs::ops::MulSpecImpl<T> for DirectionCosineMatrix<T> {
    open spec fn obeys_mul_spec() -> bool {
        T::obeys_mul_spec()
    }

    open spec fn mul_req(self, rhs: T) -> bool {
        forall|i: int, j: int| 0 <= i < 3 && 0 <= j < 3 ==> #[trigger] self@[i][j].mul_req(rhs)
    }

    open spec fn mul_spec(self, rhs: T) -> Self {
        Self::of_view(grid_scaled(self@, rhs))
    }
}

impl<T: Mul<Output = T> + Copy> Mul<T> for DirectionCosineMatrix<T> {
    type Output = Self;

    /// Every entry times `rhs`.
    fn mul(self, rhs: T) -> (r: Self)
        ensures
            T::obeys_mul_spec() ==> r@ == grid_scaled(self@, rhs),
    {
        assert forall|i: int, j: int| 0 <= i < 3 && 0 <= j < 3 implies #[trigger] self.data@[i][j].mul_req(
            rhs,
        ) by {
            assert(self@[i][j].mul_req(rhs));
        }
        let r = Self { data: self.data * rhs };
        proof {
            Self::lemma_of_view(r);
        }
        r
    }
}

impl<T: Mul<Output = T> + Add<Output = T> + Copy + Default> vstd::std_specs::ops::MulSpecImpl for DirectionCosineMatrix<T> {
    /// The sums start from the scalar type's default value, which the type
    /// supplies at run time: the product is not a function of the two
    /// factors alone.
    open spec fn obeys_mul_spec() -> bool {
        false
    }

    open spec fn mul_req(self, rhs: Self) -> bool {
        product_runs(self@, rhs@, 3, 3)
    }

    open spec fn mul_spec(self, rhs: Self) -> Self {
        choose|r: Self| #[trigger] is_default_product(r@, self@, rhs@, 3, 3)
    }
}

impl<T: Mul<Output = T> + Add<Output = T> + Copy + Default> Mul for DirectionCosineMatrix<T> {
    type Output = Self;

    /// The matrix product `self * rhs`: the rotation `rhs` followed by the
    /// rotation `self`.
    fn mul(self, rhs: Self) -> (r: Self)
        ensures
            T::obeys_add_spec() && T::obeys_mul_spec() ==> is_default_product(
                r@,
                self@,
                rhs@,
                3,
                3,
            ),
    {
        Self { data: self.data * rhs.data }
    }
}

impl<T: Mul<Output = T> + Add<Output = T> + Copy + Default> DirectionCosineMatrix<T> {
    /// The product `z * y * x`, taken as `(z * y) * x`.
    pub fn compose_zyx(z: Self, y: Self, x: Self) -> (r: Self)
        requires
            zyx_product_runs(z@, y@, x@),
        ensures
            T::obeys_add_spec() && T::obeys_mul_spec() ==> is_zyx_product(r@, z@, y@, x@),
    {
        let zy = z * y;
        proof {
            if T::obeys_add_spec() && T::obeys_mul_spec() {
                assert(is_default_product(zy.data@, z@, y@, 3, 3));
            } else {
                assert(add_total::<T>() && mul_total::<T>());
            }
        }
        let r = zy * x;
        proof {
            if T::obeys_add_spec() && T::obeys_mul_spec() {
                assert(is_default_product(zy.data@, z@, y@, 3, 3) && is_default_product(
                    r@,
                    zy.data@,
                    x@,
                    3,
                    3,
                ));
            }
        }
        r
    }
}

// ----- conversions -----

impl<'a, T: Copy> vstd::std_specs::convert::FromSpecImpl<&'a Matrix<T, 3, 3>> for DirectionCosineMatrix<T> {
    open spec fn obeys_from_spec() -> bool {
        true
    }

    open spec fn from_spec(m: &'a Matrix<T, 3, 3>) -> Self {
        Self::of_view(m@)
    }
}

impl<'a, T: Copy> From<&'a Matrix<T, 3, 3>> for DirectionCosineMatrix<T> {
    /// The matrix `m`, taken as it is.
    fn from(m: &'a Matrix<T, 3, 3>) -> (r: Self)
        ensures
            r@ == m@,
    {
        let r = Self { data: *m };
        proof {
            Self::lemma_of_view(r);
        }
        r
    }
}

/// `m` is the rotation by `angle` about the first axis, with the cosine and
/// the sine of `angle` as the scalar type takes them.
pub open spec fn is_rotation_x<T: Float + Neg<Output = T> + From<u8>>(
    m: Seq<Seq<T>>,
    angle: T,
) -> bool {
    exists|c: T, s: T|
        is_cos(angle, c) && is_sin(angle, s) && m == #[trigger] rotation_x_grid(
            zero_of::<T>(),
            one_of::<T>(),
            c,
            s,
            s.neg_spec(),
        )
}

/// `m` is the rotation by `angle` about the second axis, with the cosine and
/// the sine of `angle` as the scalar type takes them.
pub open spec fn is_rotation_y<T: Float + Neg<Output = T> + From<u8>>(
    m: Seq<Seq<T>>,
    angle: T,
) -> bool {
    exists|c: T, s: T|
        is_cos(angle, c) && is_sin(angle, s) && m == #[trigger] rotation_y_grid(
            zero_of::<T>(),
            one_of::<T>(),
            c,
            s,
            s.neg_spec(),
        )
}

/// `m` is the rotation by `angle` about the third axis, with the cosine and
/// the sine of `angle` as the scalar type takes them.
pub open spec fn is_rotation_z<T: Float + Neg<Output = T> + From<u8>>(
    m: Seq<Seq<T>>,
    angle: T,
) -> bool {
    exists|c: T, s: T|
        is_cos(angle, c) && is_sin(angle, s) && m == #[trigger] rotation_z_grid(
            zero_of::<T>(),
            one_of::<T>(),
            c,
            s,
            s.neg_spec(),
        )
}

/// `m` is the matrix of the quaternion `q`, with two made as one plus one and
/// each square the power two, as the scalar type takes it, of a part.
pub open spec fn is_quaternion_matrix<
    T: Float + Add<Output = T> + Sub<Output = T> + Mul<Output = T> + From<u8>,
>(m: Seq<Seq<T>>, q: Seq<T>) -> bool {
    let two = one_of::<T>().add_spec(one_of::<T>());
    exists|sq: Seq<T>|
        {
            &&& sq.len() == 4
            &&& is_powf(q[0], two, sq[0]) && is_powf(q[1], two, sq[1])
            &&& is_powf(q[2], two, sq[2]) && is_powf(q[3], two, sq[3])
            &&& grid_holds(m, #[trigger] quaternion_grid(q, two, sq))
        }
}

/// `m` is the matrix of the angles `e = [roll, pitch, yaw]`:
/// `Rz(yaw) * Ry(pitch) * Rx(roll)`.
pub open spec fn is_euler_matrix<
    T: Float + Add<Output = T> + Mul<Output = T> + Neg<Output = T> + Default + From<u8>,
>(m: Seq<Seq<T>>, e: Seq<T>) -> bool {
    exists|z: Seq<Seq<T>>, y: Seq<Seq<T>>, x: Seq<Seq<T>>|
        is_rotation_z(z, e[2]) && is_rotation_y(y, e[1]) && is_rotation_x(x, e[0])
            && #[trigger] is_zyx_product(
            m,
            z,
            y,
            x,
        )
}

impl<
    T: Float + Copy + Default + PartialOrd + Add<Output = T> + Sub<Output = T> + Mul<
        Output = T,
    > + Div<Output = T> + Neg<Output = T> + From<u8>,
> DirectionCosineMatrix<T> {
    /// The rotation by `angle` about the first axis. Cosine and sine are as
    /// the scalar type takes them.
    pub fn rotate_x(angle: T) -> (r: Self)
        requires
            neg_total::<T>(),
        ensures
            T::obeys_neg_spec() && T::obeys_from_spec() ==> is_rotation_x(r@, angle),
    {
        let c = float_cos(angle);
        let s = float_sin(angle);
        let zero = scalar_of::<T>(0);
        let one = scalar_of::<T>(1);
        let r = Self::rotation_x_with(zero, one, c, s);
        assert(T::obeys_neg_spec() && T::obeys_from_spec() ==> is_cos(angle, c) && is_sin(
            angle,
            s,
        ) && r@ == rotation_x_grid(
            zero_of::<T>(),
            one_of::<T>(),
            c,
            s,
            s.neg_spec(),
        ));
        r
    }

    /// The rotation by `angle` about the second axis. Cosine and sine are
    /// as the scalar type takes them.
    pub fn rotate_y(angle: T) -> (r: Self)
        requires
            neg_total::<T>(),
        ensures
            T::obeys_neg_spec() && T::obeys_from_spec() ==> is_rotation_y(r@, angle),
    {
        let c = float_cos(angle);
        let s = float_sin(angle);
        let zero = scalar_of::<T>(0);
        let one = scalar_of::<T>(1);
        let r = Self::rotation_y_with(zero, one, c, s);
        assert(T::obeys_neg_spec() && T::obeys_from_spec() ==> is_cos(angle, c) && is_sin(
            angle,
            s,
        ) && r@ == rotation_y_grid(
            zero_of::<T>(),
            one_of::<T>(),
            c,
            s,
            s.neg_spec(),
        ));
        r
    }

    /// The rotation by `angle` about the third axis. Cosine and sine are as
    /// the scalar type takes them.
    pub fn rotate_z(angle: T) -> (r: Self)
        requires
            neg_total::<T>(),
        ensures
            T::obeys_neg_spec() && T::obeys_from_spec() ==> is_rotation_z(r@, angle),
    {
        let c = float_cos(angle);
        let s = float_sin(angle);
        let zero = scalar_of::<T>(0);
        let one = scalar_of::<T>(1);
        let r = Self::rotation_z_with(zero, one, c, s);
        assert(T::obeys_neg_spec() && T::obeys_from_spec() ==> is_cos(angle, c) && is_sin(
            angle,
            s,
        ) && r@ == rotation_z_grid(
            zero_of::<T>(),
            one_of::<T>(),
            c,
            s,
            s.neg_spec(),
        ));
        r
    }

    /// The matrix of the angles `euler`: `Rz(yaw) * Ry(pitch) * Rx(roll)`.
    pub fn from_euler(euler: Euler<T>) -> (r: Self)
        requires
            add_total::<T>() && mul_total::<T>() && neg_total::<T>(),
        ensures
            T::obeys_add_spec() && T::obeys_mul_spec() && T::obeys_neg_spec()
                && T::obeys_from_spec() ==> is_euler_matrix(r@, euler@),
    {
        let rx = Self::rotate_x(euler.roll());
        let ry = Self::rotate_y(euler.pitch());
        let rz = Self::rotate_z(euler.yaw());
        let r = Self::compose_zyx(rz, ry, rx);
        assert(T::obeys_add_spec() && T::obeys_mul_spec() && T::obeys_neg_spec()
            && T::obeys_from_spec() ==> is_rotation_z(rz@, euler@[2]) && is_rotation_y(
            ry@,
            euler@[1],
        ) && is_rotation_x(rx@, euler@[0]) && is_zyx_product(
            r@,
            rz@,
            ry@,
            rx@,
        ));
        r
    }

    /// The matrix of the quaternion `q = [s, i, j, k]`. The squares are the
    /// powers two as the scalar type takes them.
    pub fn from_quaternion(q: Quaternion<T>) -> (r: Self)
        requires
            ring_total::<T>(),
        ensures
            ring_obeys::<T>() && T::obeys_from_spec() ==> is_quaternion_matrix(r@, q@),
    {
        let s = q.data.data[0];
        let i = q.data.data[1];
        let j = q.data.data[2];
        let k = q.data.data[3];
        let one = scalar_of::<T>(1);
        let two = one + one;
        let sp2 = float_powf(s, two);
        let ip2 = float_powf(i, two);
        let jp2 = float_powf(j, two);
        let kp2 = float_powf(k, two);
        let r = Self::from_quaternion_with(q, two, sp2, ip2, jp2, kp2);
        proof {
            let sq = seq![sp2, ip2, jp2, kp2];
            let spec_two = one_of::<T>().add_spec(one_of::<T>());
            assert(ring_obeys::<T>() && T::obeys_from_spec() ==> two == spec_two && sq.len() == 4
                && is_powf(q@[0], spec_two, sq[0]) && is_powf(q@[1], spec_two, sq[1]) && is_powf(
                q@[2],
                spec_two,
                sq[2],
            ) && is_powf(q@[3], spec_two, sq[3]) && grid_holds(
                r@,
                quaternion_grid(q@, spec_two, sq),
            ));
        }
        r
    }
}

// ----- the other representations, and text -----

impl<
    T: Float + FloatConst + Copy + Default + PartialOrd + PartialEq + Add<Output = T> + Sub<
        Output = T,
    > + Mul<Output = T> + Div<Output = T> + Neg<Output = T> + From<u8>,
> DirectionCosineMatrix<T> {
    /// The Euler angles of the matrix: `Euler::from_dcm`.
    pub fn to_euler(&self) -> (r: Euler<T>)
        requires
            div_total::<T>() && neg_total::<T>(),
        ensures
            T::obeys_div_spec() && T::obeys_neg_spec() ==> is_euler_of_matrix(r@, self@),
    {
        Euler::from_dcm(self)
    }

    /// The quaternion of the matrix, by Shepperd's method:
    /// `Quaternion::try_from_dcm`.
    pub fn to_quaternion(&self) -> (r: Result<Quaternion<T>, AttitudeError>)
        requires
            field_total::<T>(),
        ensures
            field_obeys::<T>() && T::obeys_partial_cmp_spec() && T::obeys_from_spec()
                ==> is_shepperd_result(r, self@, one_of::<T>()),
    {
        Quaternion::try_from_dcm(self)
    }
}

impl<T: core::fmt::Display + Copy> DirectionCosineMatrix<T> {
    /// The matrix as text, row by row.
    pub fn to_text(&self) -> (r: String)
        ensures
            exists|cells: Seq<String>|
                is_shown_grid(self@, cells, 3, 3) && r@ == #[trigger] matrix_text(
                    3,
                    3,
                    texts(cells),
                ),
    {
        self.data.to_text()
    }
}

} // verus!
