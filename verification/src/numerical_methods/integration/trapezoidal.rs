//! The trapezoidal rule over one step.
use crate::coordinate::cartesian::Cartesian;
use crate::math::vector::Vector;
use crate::scalar::{add_total, div_total, mul_total, plus, quotient, runs, times};
use core::marker::PhantomData;
use core::ops::{Add, Div, Mul};
use vstd::prelude::*;
use vstd::std_specs::convert::FromSpec;
use vstd::std_specs::ops::{AddSpec, DivSpec, MulSpec};

verus! {

/// Two successive samples of a rate of change that can be turned into an
/// increment over the time step between them.
pub trait TrapezoidalIntegrate: Sized {
    type Scalar;

    /// The step can be taken.
    spec fn trapezoidal_req(&self, last: &Self, dt: Self::Scalar) -> bool;

    /// `r` is the increment for the samples `self` and `last` over `dt`.
    spec fn trapezoidal_ensures(&self, last: &Self, dt: Self::Scalar, r: Self) -> bool;

    /// The increment over the time step `dt` between the samples `last` and
    /// `self`: `(self + last) * 0.5 * dt`.
    fn integrate_trapezoidal(&self, last: &Self, dt: Self::Scalar) -> (r: Self)
        requires
            self.trapezoidal_req(last, dt),
        ensures
            self.trapezoidal_ensures(last, dt, r),
    ;
}

/// Component `i` of `(a + b) * half * dt`, taken in that order.
pub open spec fn trapezoid_component<T: Add<Output = T> + Mul<Output = T>>(
    a: Seq<T>,
    b: Seq<T>,
    half: T,
    dt: T,
    i: int,
) -> Option<T> {
    times(times(plus(Some(a[i]), Some(b[i])), Some(half)), Some(dt))
}

/// The first `n` components of `r` are those of `(a + b) * half * dt`.
pub open spec fn is_trapezoid<T: Add<Output = T> + Mul<Output = T>>(
    r: Seq<T>,
    a: Seq<T>,
    b: Seq<T>,
    half: T,
    dt: T,
    n: int,
) -> bool {
    forall|i: int| 0 <= i < n ==> #[trigger] trapezoid_component(a, b, half, dt, i) == Some(r[i])
}

/// The first `n` components of `(a + b) * half * dt` have values.
pub open spec fn trapezoid_defined<T: Add<Output = T> + Mul<Output = T>>(
    a: Seq<T>,
    b: Seq<T>,
    half: T,
    dt: T,
    n: int,
) -> bool {
    forall|i: int| 0 <= i < n ==> #[trigger] trapezoid_component(a, b, half, dt, i) is Some
}

/// One half, as the scalar of one over the scalar of two.
pub open spec fn half_scalar<T: Div<Output = T> + From<u8>>() -> Option<T> {
    quotient(T::from_spec(1u8), T::from_spec(2u8))
}

impl<T: Add<Output = T> + Mul<Output = T> + Copy, const N: usize> Vector<T, N> {
    /// The increment `(self + last) * half * dt`, component by component.
    pub fn trapezoid_with(&self, last: &Self, half: T, dt: T) -> (r: Self)
        requires
            runs(
                add_total::<T>() && mul_total::<T>(),
                T::obeys_add_spec() && T::obeys_mul_spec(),
                trapezoid_defined(self@, last@, half, dt, N as int),
            ),
        ensures
            T::obeys_add_spec() && T::obeys_mul_spec() ==> is_trapezoid(
                r@,
                self@,
                last@,
                half,
                dt,
                N as int,
            ),
    {
        let mut result = *self;
        let mut i: usize = 0;
        while i < N
            invariant
                0 <= i <= N,
                runs(
                    add_total::<T>() && mul_total::<T>(),
                    T::obeys_add_spec() && T::obeys_mul_spec(),
                    trapezoid_defined(self@, last@, half, dt, N as int),
                ),
                T::obeys_add_spec() && T::obeys_mul_spec() ==> is_trapezoid(
                    result@,
                    self@,
                    last@,
                    half,
                    dt,
                    i as int,
                ),
            decreases N - i,
        {
            assert(runs(
                add_total::<T>() && mul_total::<T>(),
                T::obeys_add_spec() && T::obeys_mul_spec(),
                trapezoid_component(self@, last@, half, dt, i as int) is Some,
            ));
            let ghost before = result@;
            let v = (self.data[i] + last.data[i]) * half * dt;
            result.data[i] = v;
            assert(result@ == before.update(i as int, v));
            i += 1;
        }
        result
    }
}

impl<T: Add<Output = T> + Mul<Output = T> + Div<Output = T> + Copy + From<u8>, const N: usize> TrapezoidalIntegrate for Vector<T, N> {
    type Scalar = T;

    open spec fn trapezoidal_req(&self, last: &Self, dt: T) -> bool {
        runs(
            add_total::<T>() && mul_total::<T>() && div_total::<T>(),
            T::obeys_add_spec() && T::obeys_mul_spec() && T::obeys_div_spec()
                && T::obeys_from_spec(),
            half_scalar::<T>() is Some && trapezoid_defined(
                self@,
                last@,
                half_scalar::<T>().unwrap(),
                dt,
                N as int,
            ),
        )
    }

    open spec fn trapezoidal_ensures(&self, last: &Self, dt: T, r: Self) -> bool {
        T::obeys_add_spec() && T::obeys_mul_spec() && T::obeys_div_spec() && T::obeys_from_spec()
            ==> half_scalar::<T>() is Some && is_trapezoid(
            r@,
            self@,
            last@,
            half_scalar::<T>().unwrap(),
            dt,
            N as int,
        )
    }

    /// `(self + last) * 0.5 * dt`, component by component, with one half made
    /// as the scalar of one over the scalar of two.
    fn integrate_trapezoidal(&self, last: &Self, dt: T) -> (r: Self) {
        let half = T::from(1u8) / T::from(2u8);
        self.trapezoid_with(last, half, dt)
    }
}

impl<T: Add<Output = T> + Mul<Output = T> + Div<Output = T> + Copy + From<u8>, RF> TrapezoidalIntegrate for Cartesian<T, RF> {
    type Scalar = T;

    open spec fn trapezoidal_req(&self, last: &Self, dt: T) -> bool {
        runs(
            add_total::<T>() && mul_total::<T>() && div_total::<T>(),
            T::obeys_add_spec() && T::obeys_mul_spec() && T::obeys_div_spec()
                && T::obeys_from_spec(),
            half_scalar::<T>() is Some && trapezoid_defined(
                self@,
                last@,
                half_scalar::<T>().unwrap(),
                dt,
                3,
            ),
        )
    }

    open spec fn trapezoidal_ensures(&self, last: &Self, dt: T, r: Self) -> bool {
        T::obeys_add_spec() && T::obeys_mul_spec() && T::obeys_div_spec() && T::obeys_from_spec()
            ==> half_scalar::<T>() is Some && is_trapezoid(
            r@,
            self@,
            last@,
            half_scalar::<T>().unwrap(),
            dt,
            3,
        )
    }

    /// `(self + last) * 0.5 * dt`, coordinate by coordinate, in the same frame.
    fn integrate_trapezoidal(&self, last: &Self, dt: T) -> (r: Self) {
        let half = T::from(1u8) / T::from(2u8);
        Cartesian { data: self.data.trapezoid_with(&last.data, half, dt), _reference_frame: PhantomData }
    }
}

} // verus!
