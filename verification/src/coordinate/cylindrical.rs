//! Cylindrical coordinates `[r, theta, z]`.
use crate::coordinate::cartesian::Cartesian;
use crate::coordinate::spherical::Spherical;
use crate::math::vector::Vector;
use crate::scalar::{
    add_total, float_atan2, float_cos, float_sin, float_sqrt, is_atan2, is_cos, is_sin, is_sqrt,
    mul_total, plus, product, runs,
};
use core::ops::{Add, Mul};
use num_traits::Float;
use vstd::prelude::*;
use vstd::std_specs::ops::{AddSpec, MulSpec};

verus! {

/// A point by its distance `r` from the axis, its azimuth `theta` in radians
/// and its height `z`.
#[derive(Debug, Clone, Copy, PartialEq)]
pub struct Cylindrical<T> {
    pub data: Vector<T, 3>,
}

impl<T> View for Cylindrical<T> {
    type V = Seq<T>;

    open spec fn view(&self) -> Seq<T> {
        self.data@
    }
}

impl<T: Copy> Cylindrical<T> {
    /// The coordinates `r`, `theta` and `z`.
    pub fn new(r: T, theta: T, z: T) -> (c: Self)
        ensures
            c@ == seq![r, theta, z],
    {
        let c = Self { data: Vector { data: [r, theta, z] } };
        assert(c@ =~= seq![r, theta, z]);
        c
    }

    /// The distance from the axis.
    pub fn r(&self) -> (v: T)
        ensures
            v == self@[0],
    {
        self.data.data[0]
    }

    /// The azimuth.
    pub fn theta(&self) -> (v: T)
        ensures
            v == self@[1],
    {
        self.data.data[1]
    }

    /// The height.
    pub fn z(&self) -> (v: T)
        ensures
            v == self@[2],
    {
        self.data.data[2]
    }
}

// ----- conversions -----

/// `x * x + y * y`.
pub open spec fn planar_square<T: Add<Output = T> + Mul<Output = T>>(x: T, y: T) -> Option<T> {
    plus(product(x, x), product(y, y))
}

/// `c` holds the cylindrical coordinates of the Cartesian point `p`: the
/// distance is the square root of `x x + y y`, the azimuth the arc tangent by
/// quadrant of `y` over `x`, each as the scalar type takes it, and the height
/// is kept.
pub open spec fn is_cylindrical_of_cartesian<T: Float + Add<Output = T> + Mul<Output = T>>(
    c: Seq<T>,
    p: Seq<T>,
) -> bool {
    &&& c.len() == 3
    &&& planar_square(p[0], p[1]) is Some
    &&& is_sqrt(planar_square(p[0], p[1]).unwrap(), c[0])
    &&& is_atan2(p[1], p[0], c[1])
    &&& c[2] == p[2]
}

/// `c` holds the cylindrical coordinates of the spherical point
/// `s = [r, phi, theta]`: distance and height are `r` times the sine and the
/// cosine of `theta` as the scalar type takes them, the azimuth is kept.
pub open spec fn is_cylindrical_of_spherical<T: Float + Mul<Output = T>>(
    c: Seq<T>,
    s: Seq<T>,
) -> bool {
    exists|sin_theta: T, cos_theta: T|
        is_sin(s[2], sin_theta) && is_cos(s[2], cos_theta) && c
            == #[trigger] cylindrical_of_spherical(s, sin_theta, cos_theta)
}

/// `[r sin(theta), phi, r cos(theta)]` for the spherical point `s = [r, phi, theta]`.
pub open spec fn cylindrical_of_spherical<T: Mul<Output = T>>(
    s: Seq<T>,
    sin_theta: T,
    cos_theta: T,
) -> Seq<T> {
    seq![s[0].mul_spec(sin_theta), s[1], s[0].mul_spec(cos_theta)]
}

impl<T: Copy + Add<Output = T> + Mul<Output = T>> Cylindrical<T> {
    /// The square of the distance of `(x, y)` from the origin of the plane.
    pub fn planar_square_of(x: T, y: T) -> (r: T)
        requires
            runs(
                add_total::<T>() && mul_total::<T>(),
                T::obeys_add_spec() && T::obeys_mul_spec(),
                planar_square(x, y) is Some,
            ),
        ensures
            T::obeys_add_spec() && T::obeys_mul_spec() ==> planar_square(x, y) == Some(r),
    {
        x * x + y * y
    }
}

impl<T: Float + Copy + Add<Output = T> + Mul<Output = T>> Cylindrical<T> {
    /// The cylindrical coordinates of the Cartesian point `cart`:
    /// `r = sqrt(x x + y y)`, `theta = atan2(y, x)`, and the same `z`. Root
    /// and arc tangent are as the scalar type takes them.
    pub fn from_cartesian<RF>(cart: &Cartesian<T, RF>) -> (c: Self)
        requires
            add_total::<T>() && mul_total::<T>(),
        ensures
            T::obeys_add_spec() && T::obeys_mul_spec() ==> is_cylindrical_of_cartesian(c@, cart@),
    {
        let x = cart.x();
        let y = cart.y();
        let z = cart.z();
        let r = float_sqrt(Self::planar_square_of(x, y));
        let theta = float_atan2(y, x);
        Self::new(r, theta, z)
    }

    /// The cylindrical coordinates of the spherical point `s`:
    /// `r = s.r sin(theta)`, `z = s.r cos(theta)`, and the azimuth of `s`.
    /// Sine and cosine are as the scalar type takes them.
    pub fn from_spherical(s: &Spherical<T>) -> (c: Self)
        requires
            mul_total::<T>(),
        ensures
            T::obeys_mul_spec() ==> is_cylindrical_of_spherical(c@, s@),
    {
        let sin_theta = float_sin(s.theta());
        let cos_theta = float_cos(s.theta());
        let r = s.r() * sin_theta;
        let z = s.r() * cos_theta;
        let theta = s.phi();
        let c = Self::new(r, theta, z);
        assert(T::obeys_mul_spec() ==> is_sin(s@[2], sin_theta) && is_cos(s@[2], cos_theta) && c@
            =~= cylindrical_of_spherical(s@, sin_theta, cos_theta));
        c
    }
}

} // verus!
