//! Cartesian coordinates `[x, y, z]`, tagged with the frame they are given in.
use crate::coordinate::cylindrical::Cylindrical;
use crate::coordinate::spherical::Spherical;
use crate::math::vector::{seq_divided, seq_minus, seq_negated, seq_plus, seq_scaled, Vector};
use crate::scalar::{float_cos, float_sin, is_cos, is_sin, mul_total, product, runs, times};
use core::marker::PhantomData;
use core::ops::{Add, AddAssign, Div, Mul, Neg, Sub, SubAssign};
use num_traits::Float;
use vstd::prelude::*;
use vstd::std_specs::ops::{AddSpec, DivSpec, MulSpec, NegSpec, SubSpec};

verus! {

/// A point or a vector by its three Cartesian coordinates. The second type
/// parameter names the reference frame and holds no data.
#[derive(Debug, PartialEq)]
pub struct Cartesian<T, ReferenceFrame> {
    pub data: Vector<T, 3>,
    pub _reference_frame: PhantomData<ReferenceFrame>,
}

impl<T: Copy, RF> Clone for Cartesian<T, RF> {
    /// The same coordinates in the same frame.
    fn clone(&self) -> (r: Self)
        ensures
            r == *self,
    {
        Self { data: self.data, _reference_frame: PhantomData }
    }
}

impl<T: Copy, RF> Copy for Cartesian<T, RF> {

}

impl<T, RF> View for Cartesian<T, RF> {
    type V = Seq<T>;

    open spec fn view(&self) -> Seq<T> {
        self.data@
    }
}

impl<T, RF> Cartesian<T, RF> {
    /// The coordinates `s`.
    pub open spec fn of_view(s: Seq<T>) -> Self {
        Cartesian { data: Vector::of_view(s), _reference_frame: PhantomData }
    }

    /// `of_view` gives back the coordinates from their own values.
    pub proof fn lemma_of_view(a: Self)
        ensures
            Self::of_view(a@) == a,
    {
        Vector::lemma_of_view(a.data);
    }
}

impl<T: Copy, RF> Cartesian<T, RF> {
    /// The coordinates `x`, `y` and `z`.
    pub fn new(x: T, y: T, z: T) -> (r: Self)
        ensures
            r@ == seq![x, y, z],
    {
        let r = Self { data: Vector { data: [x, y, z] }, _reference_frame: PhantomData };
        assert(r@ =~= seq![x, y, z]);
        r
    }

    /// The first coordinate.
    pub fn x(&self) -> (r: T)
        ensures
            r == self@[0],
    {
        self.data.data[0]
    }

    /// The second coordinate.
    pub fn y(&self) -> (r: T)
        ensures
            r == self@[1],
    {
        self.data.data[1]
    }

    /// The third coordinate.
    pub fn z(&self) -> (r: T)
        ensures
            r == self@[2],
    {
        self.data.data[2]
    }
}

// ----- arithmetic coordinate by coordinate -----

impl<T: Add<Output = T> + Copy, RF> vstd::std_specs::ops::AddSpecImpl for Cartesian<T, RF> {
    open spec fn obeys_add_spec() -> bool {
        T::obeys_add_spec()
    }

    open spec fn add_req(self, rhs: Self) -> bool {
        forall|i: int| 0 <= i < 3 ==> #[trigger] self@[i].add_req(rhs@[i])
    }

    open spec fn add_spec(self, rhs: Self) -> Self {
        Self::of_view(seq_plus(self@, rhs@))
    }
}

impl<T: Add<Output = T> + Copy, RF> Add for Cartesian<T, RF> {
    type Output = Self;

    /// The sum, coordinate by coordinate.
    fn add(self, rhs: Self) -> (r: Self)
        ensures
            T::obeys_add_spec() ==> r@ == seq_plus(self@, rhs@),
    {
        assert forall|i: int| 0 <= i < 3 implies #[trigger] self.data@[i].add_req(rhs.data@[i]) by {
            assert(self@[i].add_req(rhs@[i]));
        }
        let r = Self { data: self.data + rhs.data, _reference_frame: PhantomData };
        proof {
            Self::lemma_of_view(r);
        }
        r
    }
}

impl<T: Sub<Output = T> + Copy, RF> vstd::std_specs::ops::SubSpecImpl for Cartesian<T, RF> {
    open spec fn obeys_sub_spec() -> bool {
        T::obeys_sub_spec()
    }

    open spec fn sub_req(self, rhs: Self) -> bool {
        forall|i: int| 0 <= i < 3 ==> #[trigger] self@[i].sub_req(rhs@[i])
    }

    open spec fn sub_spec(self, rhs: Self) -> Self {
        Self::of_view(seq_minus(self@, rhs@))
    }
}

impl<T: Sub<Output = T> + Copy, RF> Sub for Cartesian<T, RF> {
    type Output = Self;

    /// The difference, coordinate by coordinate.
    fn sub(self, rhs: Self) -> (r: Self)
        ensures
            T::obeys_sub_spec() ==> r@ == seq_minus(self@, rhs@),
    {
        assert forall|i: int| 0 <= i < 3 implies #[trigger] self.data@[i].sub_req(rhs.data@[i]) by {
            assert(self@[i].sub_req(rhs@[i]));
        }
        let r = Self { data: self.data - rhs.data, _reference_frame: PhantomData };
        proof {
            Self::lemma_of_view(r);
        }
        r
    }
}

impl<T: Neg<Output = T> + Copy, RF> vstd::std_specs::ops::NegSpecImpl for Cartesian<T, RF> {
    open spec fn obeys_neg_spec() -> bool {
        T::obeys_neg_spec()
    }

    open spec fn neg_req(self) -> bool {
        forall|i: int| 0 <= i < 3 ==> #[trigger] self@[i].neg_req()
    }

    open spec fn neg_spec(self) -> Self {
        Self::of_view(seq_negated(self@))
    }
}

impl<T: Neg<Output = T> + Copy, RF> Neg for Cartesian<T, RF> {
    type Output = Self;

    /// Every coordinate negated.
    fn neg(self) -> (r: Self)
        ensures
            T::obeys_neg_spec() ==> r@ == seq_negated(self@),
    {
        assert forall|i: int| 0 <= i < 3 implies #[trigger] self.data@[i].neg_req() by {
            assert(self@[i].neg_req());
        }
        let r = Self { data: self.data.neg(), _reference_frame: PhantomData };
        proof {
            Self::lemma_of_view(r);
        }
        r
    }
}

impl<T: Mul<Output = T> + Copy, RF> vstd::std_specs::ops::MulSpecImpl<T> for Cartesian<T, RF> {
    open spec fn obeys_mul_spec() -> bool {
        T::obeys_mul_spec()
    }

    open spec fn mul_req(self, rhs: T) -> bool {
        forall|i: int| 0 <= i < 3 ==> #[trigger] self@[i].mul_req(rhs)
    }

    open spec fn mul_spec(self, rhs: T) -> Self {
        Self::of_view(seq_scaled(self@, rhs))
    }
}

impl<T: Mul<Output = T> + Copy, RF> Mul<T> for Cartesian<T, RF> {
    type Output = Self;

    /// Every coordinate times `rhs`.
    fn mul(self, rhs: T) -> (r: Self)
        ensures
            T::obeys_mul_spec() ==> r@ == seq_scaled(self@, rhs),
    {
        assert forall|i: int| 0 <= i < 3 implies #[trigger] self.data@[i].mul_req(rhs) by {
            assert(self@[i].mul_req(rhs));
        }
        let r = Self { data: self.data * rhs, _reference_frame: PhantomData };
        proof {
            Self::lemma_of_view(r);
        }
        r
    }
}

impl<T: Div<Output = T> + Copy, RF> vstd::std_specs::ops::DivSpecImpl<T> for Cartesian<T, RF> {
    open spec fn obeys_div_spec() -> bool {
        T::obeys_div_spec()
    }

    open spec fn div_req(self, rhs: T) -> bool {
        forall|i: int| 0 <= i < 3 ==> #[trigger] self@[i].div_req(rhs)
    }

    open spec fn div_spec(self, rhs: T) -> Self {
        Self::of_view(seq_divided(self@, rhs))
    }
}

impl<T: Div<Output = T> + Copy, RF> Div<T> for Cartesian<T, RF> {
    type Output = Self;

    /// Every coordinate divided by `rhs`.
    fn div(self, rhs: T) -> (r: Self)
        ensures
            T::obeys_div_spec() ==> r@ == seq_divided(self@, rhs),
    {
        assert forall|i: int| 0 <= i < 3 implies #[trigger] self.data@[i].div_req(rhs) by {
            assert(self@[i].div_req(rhs));
        }
        let r = Self { data: self.data / rhs, _reference_frame: PhantomData };
        proof {
            Self::lemma_of_view(r);
        }
        r
    }
}

impl<T: Add<Output = T> + Copy, RF> AddAssign for Cartesian<T, RF> {
    /// The sum, coordinate by coordinate, in place.
    fn add_assign(&mut self, rhs: Self)
        requires
            forall|i: int| 0 <= i < 3 ==> #[trigger] old(self)@[i].add_req(rhs@[i]),
        ensures
            T::obeys_add_spec() ==> final(self)@ == seq_plus(old(self)@, rhs@),
    {
        let sum = *self + rhs;
        *self = sum;
    }
}

impl<T: Sub<Output = T> + Copy, RF> SubAssign for Cartesian<T, RF> {
    /// The difference, coordinate by coordinate, in place.
    fn sub_assign(&mut self, rhs: Self)
        requires
            forall|i: int| 0 <= i < 3 ==> #[trigger] old(self)@[i].sub_req(rhs@[i]),
        ensures
            T::obeys_sub_spec() ==> final(self)@ == seq_minus(old(self)@, rhs@),
    {
        let difference = *self - rhs;
        *self = difference;
    }
}

// ----- conversions -----

/// The Cartesian coordinates of a point at the distance `r`, from the sine and
/// cosine of its inclination `theta` and of its azimuth `phi`:
/// `[r sin(theta) cos(phi), r sin(theta) sin(phi), r cos(theta)]`.
pub open spec fn spherical_parts<T: Mul<Output = T>>(
    r: T,
    sin_theta: T,
    cos_theta: T,
    sin_phi: T,
    cos_phi: T,
) -> Seq<Option<T>> {
    seq![
        times(product(r, sin_theta), Some(cos_phi)),
        times(product(r, sin_theta), Some(sin_phi)),
        product(r, cos_theta),
    ]
}

/// The Cartesian coordinates of a point at the distance `r` from the axis and
/// the height `z`, from the cosine and sine of its azimuth:
/// `[r cos(theta), r sin(theta), z]`.
pub open spec fn cylindrical_parts<T: Mul<Output = T>>(
    r: T,
    cos_theta: T,
    sin_theta: T,
    z: T,
) -> Seq<Option<T>> {
    seq![product(r, cos_theta), product(r, sin_theta), Some(z)]
}

/// Each of three optional coordinates has a value.
pub open spec fn triple_defined<T>(p: Seq<Option<T>>) -> bool {
    p[0] is Some && p[1] is Some && p[2] is Some
}

/// The coordinates `c` are the values of `p`.
pub open spec fn triple_holds<T>(c: Seq<T>, p: Seq<Option<T>>) -> bool {
    p[0] == Some(c[0]) && p[1] == Some(c[1]) && p[2] == Some(c[2])
}

/// `c` holds the Cartesian coordinates of the spherical point
/// `s = [r, phi, theta]`, with the sines and cosines of `theta` and `phi` as
/// the scalar type takes them.
pub open spec fn is_from_spherical<T: Float + Mul<Output = T>>(c: Seq<T>, s: Seq<T>) -> bool {
    exists|sin_theta: T, cos_theta: T, sin_phi: T, cos_phi: T|
        {
            &&& is_sin(s[2], sin_theta) && is_cos(s[2], cos_theta)
            &&& is_sin(s[1], sin_phi) && is_cos(s[1], cos_phi)
            &&& triple_holds(
                c,
                #[trigger] spherical_parts(s[0], sin_theta, cos_theta, sin_phi, cos_phi),
            )
        }
}

/// `c` holds the Cartesian coordinates of the cylindrical point
/// `p = [r, theta, z]`, with the cosine and sine of `theta` as the scalar type
/// takes them.
pub open spec fn is_from_cylindrical<T: Float + Mul<Output = T>>(c: Seq<T>, p: Seq<T>) -> bool {
    exists|cos_theta: T, sin_theta: T|
        is_cos(p[1], cos_theta) && is_sin(p[1], sin_theta) && triple_holds(
            c,
            #[trigger] cylindrical_parts(p[0], cos_theta, sin_theta, p[2]),
        )
}

impl<T: Copy + Mul<Output = T>, RF> Cartesian<T, RF> {
    /// The point at the distance `r`, from the sine and cosine of its
    /// inclination and of its azimuth.
    pub fn from_spherical_parts(r: T, sin_theta: T, cos_theta: T, sin_phi: T, cos_phi: T) -> (c:
        Self)
        requires
            runs(
                mul_total::<T>(),
                T::obeys_mul_spec(),
                triple_defined(spherical_parts(r, sin_theta, cos_theta, sin_phi, cos_phi)),
            ),
        ensures
            T::obeys_mul_spec() ==> triple_holds(
                c@,
                spherical_parts(r, sin_theta, cos_theta, sin_phi, cos_phi),
            ),
    {
        let x = r * sin_theta * cos_phi;
        let y = r * sin_theta * sin_phi;
        let z = r * cos_theta;
        Self::new(x, y, z)
    }

    /// The point at the distance `r` from the axis and the height `z`, from
    /// the cosine and sine of its azimuth.
    pub fn from_cylindrical_parts(r: T, cos_theta: T, sin_theta: T, z: T) -> (c: Self)
        requires
            r.mul_req(cos_theta),
            r.mul_req(sin_theta),
        ensures
            T::obeys_mul_spec() ==> triple_holds(c@, cylindrical_parts(r, cos_theta, sin_theta, z)),
    {
        Self::new(r * cos_theta, r * sin_theta, z)
    }
}

impl<T: Float + Copy + Mul<Output = T>, RF> Cartesian<T, RF> {
    /// The Cartesian coordinates of the point `p`. Sines and cosines are as
    /// the scalar type takes them.
    pub fn from_spherical(p: &Spherical<T>) -> (c: Self)
        requires
            mul_total::<T>(),
        ensures
            T::obeys_mul_spec() ==> is_from_spherical(c@, p@),
    {
        let r = p.r();
        let phi = p.phi();
        let theta = p.theta();
        let sin_theta = float_sin(theta);
        let cos_theta = float_cos(theta);
        let sin_phi = float_sin(phi);
        let cos_phi = float_cos(phi);
        let c = Self::from_spherical_parts(r, sin_theta, cos_theta, sin_phi, cos_phi);
        assert(T::obeys_mul_spec() ==> triple_holds(
            c@,
            spherical_parts(p@[0], sin_theta, cos_theta, sin_phi, cos_phi),
        ));
        c
    }

    /// The Cartesian coordinates of the point `c`. Sine and cosine are as the
    /// scalar type takes them.
    pub fn from_cylindrical(c: &Cylindrical<T>) -> (p: Self)
        requires
            mul_total::<T>(),
        ensures
            T::obeys_mul_spec() ==> is_from_cylindrical(p@, c@),
    {
        let cos_theta = float_cos(c.theta());
        let sin_theta = float_sin(c.theta());
        let p = Self::from_cylindrical_parts(c.r(), cos_theta, sin_theta, c.z());
        assert(T::obeys_mul_spec() ==> triple_holds(
            p@,
            cylindrical_parts(c@[0], cos_theta, sin_theta, c@[2]),
        ));
        p
    }
}

} // verus!
