//! Spherical coordinates `[r, phi, theta]`.
use crate::coordinate::cartesian::Cartesian;
use crate::coordinate::cylindrical::{planar_square, Cylindrical};
use crate::math::vector::Vector;
use crate::scalar::{
    add_total, div_total, float_acos, float_atan2, float_sqrt, is_acos, is_atan2, is_sqrt,
    mul_total, plus, scalar_of, zero_of,
    product, runs,
};
use core::ops::{Add, Div, Mul};
use num_traits::Float;
use vstd::prelude::*;
use vstd::std_specs::cmp::PartialEqSpec;
use vstd::std_specs::convert::FromSpec;
use vstd::std_specs::ops::{AddSpec, DivSpec, MulSpec};

verus! {

/// A point by its distance `r` from the origin, its azimuth `phi` (radians,
/// from the first axis in the plane of the first two) and its inclination
/// `theta` (radians, from the third axis).
#[derive(Debug, Clone, Copy, PartialEq)]
pub struct Spherical<T> {
    pub data: Vector<T, 3>,
}

impl<T> View for Spherical<T> {
    type V = Seq<T>;

    open spec fn view(&self) -> Seq<T> {
        self.data@
    }
}

impl<T: Copy> Spherical<T> {
    /// The coordinates `r`, `phi` and `theta`.
    pub fn new(r: T, phi: T, theta: T) -> (s: Self)
        ensures
            s@ == seq![r, phi, theta],
    {
        let s = Self { data: Vector { data: [r, phi, theta] } };
        assert(s@ =~= seq![r, phi, theta]);
        s
    }

    /// The distance from the origin.
    pub fn r(&self) -> (v: T)
        ensures
            v == self@[0],
    {
        self.data.data[0]
    }

    /// The azimuth.
    pub fn phi(&self) -> (v: T)
        ensures
            v == self@[1],
    {
        self.data.data[1]
    }

    /// The inclination.
    pub fn theta(&self) -> (v: T)
        ensures
            v == self@[2],
    {
        self.data.data[2]
    }
}

// ----- conversions -----

/// `a * a + b * b + c * c`, summed from the left.
pub open spec fn square_sum<T: Add<Output = T> + Mul<Output = T>>(a: T, b: T, c: T) -> Option<T> {
    plus(plus(product(a, a), product(b, b)), product(c, c))
}

/// The spherical coordinates `[rho, azimuth, inclination]`, where the
/// inclination is `zero` at the origin (`rho` equal to `zero`) and `arc`
/// elsewhere.
pub open spec fn spherical_choice<T: PartialEq>(rho: T, azimuth: T, zero: T, arc: T) -> Seq<T> {
    seq![rho, azimuth, if rho.eq_spec(&zero) { zero } else { arc }]
}

/// `s` holds the spherical coordinates of a point at the height `z` whose
/// squared distance from the origin is `square`: the distance is the square
/// root of `square`, and the inclination is zero where the distance equals
/// zero, else the arc cosine of `z` over the distance, root and arc cosine as
/// the scalar type takes them.
pub open spec fn is_spherical_for<T: Float + PartialEq + Div<Output = T> + From<u8>>(
    s: Seq<T>,
    square: T,
    z: T,
) -> bool {
    is_sqrt(square, s[0]) && exists|arc: T|
        is_acos(z.div_spec(s[0]), arc) && s == #[trigger] spherical_choice(
            s[0],
            s[1],
            zero_of::<T>(),
            arc,
        )
}

/// `s` holds the spherical coordinates of the Cartesian point `p`, with the
/// azimuth the arc tangent by quadrant of `y` over `x` as the scalar type
/// takes it.
pub open spec fn is_spherical_of_cartesian<
    T: Float + PartialEq + Add<Output = T> + Mul<Output = T> + Div<Output = T> + From<u8>,
>(s: Seq<T>, p: Seq<T>) -> bool {
    &&& square_sum(p[0], p[1], p[2]) is Some
    &&& is_spherical_for(s, square_sum(p[0], p[1], p[2]).unwrap(), p[2])
    &&& is_atan2(p[1], p[0], s[1])
}

/// `s` holds the spherical coordinates of the cylindrical point
/// `c = [r, theta, z]`, with the azimuth kept.
pub open spec fn is_spherical_of_cylindrical<
    T: Float + PartialEq + Add<Output = T> + Mul<Output = T> + Div<Output = T> + From<u8>,
>(s: Seq<T>, c: Seq<T>) -> bool {
    &&& planar_square(c[0], c[2]) is Some
    &&& is_spherical_for(s, planar_square(c[0], c[2]).unwrap(), c[2])
    &&& s[1] == c[1]
}

impl<T: Copy + Add<Output = T> + Mul<Output = T>> Spherical<T> {
    /// The square of the distance of `(a, b, c)` from the origin.
    pub fn square_sum_of(a: T, b: T, c: T) -> (r: T)
        requires
            runs(
                add_total::<T>() && mul_total::<T>(),
                T::obeys_add_spec() && T::obeys_mul_spec(),
                square_sum(a, b, c) is Some,
            ),
        ensures
            T::obeys_add_spec() && T::obeys_mul_spec() ==> square_sum(a, b, c) == Some(r),
    {
        a * a + b * b + c * c
    }
}

impl<T: Copy + PartialEq> Spherical<T> {
    /// The coordinates `[rho, azimuth, inclination]`, with the inclination
    /// `zero` where `rho` equals `zero` and `arc` elsewhere.
    pub fn with_inclination(rho: T, azimuth: T, zero: T, arc: T) -> (s: Self)
        ensures
            T::obeys_eq_spec() ==> s@ == spherical_choice(rho, azimuth, zero, arc),
    {
        let inclination = if rho == zero {
            zero
        } else {
            arc
        };
        Self::new(rho, azimuth, inclination)
    }
}

impl<
    T: Float + Copy + PartialEq + Add<Output = T> + Mul<Output = T> + Div<Output = T> + From<u8>,
> Spherical<T> {
    /// The spherical coordinates of the Cartesian point `cart`:
    /// `rho = sqrt(x x + y y + z z)`, the azimuth `atan2(y, x)`, and the
    /// inclination `acos(z / rho)`, zero at the origin. Root, arc tangent and
    /// arc cosine are as the scalar type takes them.
    pub fn from_cartesian<RF>(cart: &Cartesian<T, RF>) -> (s: Self)
        requires
            add_total::<T>() && mul_total::<T>() && div_total::<T>(),
        ensures
            T::obeys_add_spec() && T::obeys_mul_spec() && T::obeys_div_spec() && T::obeys_eq_spec()
                && T::obeys_from_spec() ==> is_spherical_of_cartesian(s@, cart@),
    {
        let x = cart.x();
        let y = cart.y();
        let z = cart.z();
        let rho = float_sqrt(Self::square_sum_of(x, y, z));
        let azimuth = float_atan2(y, x);
        let zero = scalar_of::<T>(0);
        let arc = float_acos(z / rho);
        let s = Self::with_inclination(rho, azimuth, zero, arc);
        assert(T::obeys_div_spec() && T::obeys_eq_spec() && T::obeys_from_spec() ==> is_acos(
            cart@[2].div_spec(rho),
            arc,
        ) && s@ == spherical_choice(rho, azimuth, zero_of::<T>(), arc));
        s
    }

    /// The spherical coordinates of the cylindrical point `c`:
    /// `rho = sqrt(r r + z z)`, the same azimuth, and the inclination
    /// `acos(z / rho)`, zero at the origin. Root and arc cosine are as the
    /// scalar type takes them.
    pub fn from_cylindrical(c: &Cylindrical<T>) -> (s: Self)
        requires
            add_total::<T>() && mul_total::<T>() && div_total::<T>(),
        ensures
            T::obeys_add_spec() && T::obeys_mul_spec() && T::obeys_div_spec() && T::obeys_eq_spec()
                && T::obeys_from_spec() ==> is_spherical_of_cylindrical(s@, c@),
    {
        let r_cyl = c.r();
        let theta = c.theta();
        let z = c.z();
        let rho = float_sqrt(Cylindrical::planar_square_of(r_cyl, z));
        let zero = scalar_of::<T>(0);
        let arc = float_acos(z / rho);
        let s = Self::with_inclination(rho, theta, zero, arc);
        assert(T::obeys_div_spec() && T::obeys_eq_spec() && T::obeys_from_spec() ==> is_acos(
            c@[2].div_spec(rho),
            arc,
        ) && s@ == spherical_choice(rho, theta, zero_of::<T>(), arc));
        s
    }
}

} // verus!
