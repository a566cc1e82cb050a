//! Degrees and radians.
use crate::math::vector::Vector;
use crate::scalar::{
    div_total, float_pi, is_pi, mul_total, over, product, runs, scalar_of, whole,
};
use core::ops::{Div, Mul};
use num_traits::{Float, FloatConst};
use vstd::prelude::*;
use vstd::std_specs::convert::FromSpec;
use vstd::std_specs::ops::{DivSpec, MulSpec};

verus! {

/// An angle-like value in degrees that can be given in radians.
pub trait ToRadians {
    type Output;

    /// The value in radians.
    fn to_radians(self) -> Self::Output;
}

/// An angle-like value in radians that can be given in degrees.
pub trait ToDegrees {
    type Output;

    /// The value in degrees.
    fn to_degrees(self) -> Self::Output;
}

impl<T: ToRadians<Output = T> + Copy, const N: usize> ToRadians for [T; N] {
    type Output = [T; N];

    /// Every element in radians.
    fn to_radians(self) -> (r: [T; N])
        ensures
            forall|i: int| 0 <= i < N ==> call_ensures(T::to_radians, (self@[i],), #[trigger] r@[i]),
    {
        let mut result = self;
        let mut i: usize = 0;
        while i < N
            invariant
                0 <= i <= N,
                forall|j: int| 0 <= j < N ==> call_requires(T::to_radians, (#[trigger] self@[j],)),
                forall|j: int|
                    0 <= j < i ==> call_ensures(T::to_radians, (self@[j],), #[trigger] result@[j]),
            decreases N - i,
        {
            result[i] = self[i].to_radians();
            i += 1;
        }
        result
    }
}

impl<T: ToDegrees<Output = T> + Copy, const N: usize> ToDegrees for [T; N] {
    type Output = [T; N];

    /// Every element in degrees.
    fn to_degrees(self) -> (r: [T; N])
        ensures
            forall|i: int| 0 <= i < N ==> call_ensures(T::to_degrees, (self@[i],), #[trigger] r@[i]),
    {
        let mut result = self;
        let mut i: usize = 0;
        while i < N
            invariant
                0 <= i <= N,
                forall|j: int| 0 <= j < N ==> call_requires(T::to_degrees, (#[trigger] self@[j],)),
                forall|j: int|
                    0 <= j < i ==> call_ensures(T::to_degrees, (self@[j],), #[trigger] result@[j]),
            decreases N - i,
        {
            result[i] = self[i].to_degrees();
            i += 1;
        }
        result
    }
}

impl<T: ToRadians<Output = T> + Copy, const N: usize> ToRadians for Vector<T, N> {
    type Output = Vector<T, N>;

    /// Every component in radians.
    fn to_radians(self) -> (r: Vector<T, N>)
        ensures
            forall|i: int| 0 <= i < N ==> call_ensures(T::to_radians, (self@[i],), #[trigger] r@[i]),
    {
        Vector { data: self.data.to_radians() }
    }
}

impl<T: ToDegrees<Output = T> + Copy, const N: usize> ToDegrees for Vector<T, N> {
    type Output = Vector<T, N>;

    /// Every component in degrees.
    fn to_degrees(self) -> (r: Vector<T, N>)
        ensures
            forall|i: int| 0 <= i < N ==> call_ensures(T::to_degrees, (self@[i],), #[trigger] r@[i]),
    {
        Vector { data: self.data.to_degrees() }
    }
}

/// `x` degrees in radians: `x * pi / half_turn`.
pub open spec fn radians_of<T: Mul<Output = T> + Div<Output = T>>(
    x: T,
    pi: T,
    half_turn: T,
) -> Option<T> {
    over(product(x, pi), Some(half_turn))
}

/// `x` radians in degrees: `x * half_turn / pi`.
pub open spec fn degrees_of<T: Mul<Output = T> + Div<Output = T>>(
    x: T,
    pi: T,
    half_turn: T,
) -> Option<T> {
    over(product(x, half_turn), Some(pi))
}

/// `x` degrees in radians, given π and the number of degrees in half a turn.
pub fn to_radians_with<T: Copy + Mul<Output = T> + Div<Output = T>>(x: T, pi: T, half_turn: T) -> (r:
    T)
    requires
        runs(
            mul_total::<T>() && div_total::<T>(),
            T::obeys_mul_spec() && T::obeys_div_spec(),
            radians_of(x, pi, half_turn) is Some,
        ),
    ensures
        T::obeys_mul_spec() && T::obeys_div_spec() ==> radians_of(x, pi, half_turn) == Some(r),
{
    x * pi / half_turn
}

/// `x` radians in degrees, given π and the number of degrees in half a turn.
pub fn to_degrees_with<T: Copy + Mul<Output = T> + Div<Output = T>>(x: T, pi: T, half_turn: T) -> (r:
    T)
    requires
        runs(
            mul_total::<T>() && div_total::<T>(),
            T::obeys_mul_spec() && T::obeys_div_spec(),
            degrees_of(x, pi, half_turn) is Some,
        ),
    ensures
        T::obeys_mul_spec() && T::obeys_div_spec() ==> degrees_of(x, pi, half_turn) == Some(r),
{
    x * half_turn / pi
}

/// `x` is `degrees` in radians, `degrees * π / 180`, with π as the scalar type
/// gives it.
pub open spec fn is_in_radians<T: FloatConst + Mul<Output = T> + Div<Output = T> + From<u8>>(
    x: T,
    degrees: T,
) -> bool {
    exists|pi: T| is_pi(pi) && #[trigger] radians_of(degrees, pi, whole::<T>(180)) == Some(x)
}

/// `x` is `radians` in degrees, `radians * 180 / π`, with π as the scalar type
/// gives it.
pub open spec fn is_in_degrees<T: FloatConst + Mul<Output = T> + Div<Output = T> + From<u8>>(
    x: T,
    radians: T,
) -> bool {
    exists|pi: T| is_pi(pi) && #[trigger] degrees_of(radians, pi, whole::<T>(180)) == Some(x)
}

/// `x` degrees in radians: `x * π / 180`, with the scalar type's π.
pub fn scalar_to_radians<
    T: Float + FloatConst + Copy + Mul<Output = T> + Div<Output = T> + From<u8>,
>(x: T) -> (r: T)
    requires
        mul_total::<T>() && div_total::<T>(),
    ensures
        T::obeys_mul_spec() && T::obeys_div_spec() && T::obeys_from_spec() ==> is_in_radians(r, x),
{
    let pi = float_pi::<T>();
    let r = to_radians_with(x, pi, scalar_of::<T>(180));
    assert(T::obeys_mul_spec() && T::obeys_div_spec() && T::obeys_from_spec() ==> is_pi(pi)
        && radians_of(x, pi, whole::<T>(180)) == Some(r));
    r
}

/// `x` radians in degrees: `x * 180 / π`, with the scalar type's π.
pub fn scalar_to_degrees<
    T: Float + FloatConst + Copy + Mul<Output = T> + Div<Output = T> + From<u8>,
>(x: T) -> (r: T)
    requires
        mul_total::<T>() && div_total::<T>(),
    ensures
        T::obeys_mul_spec() && T::obeys_div_spec() && T::obeys_from_spec() ==> is_in_degrees(r, x),
{
    let pi = float_pi::<T>();
    let r = to_degrees_with(x, pi, scalar_of::<T>(180));
    assert(T::obeys_mul_spec() && T::obeys_div_spec() && T::obeys_from_spec() ==> is_pi(pi)
        && degrees_of(x, pi, whole::<T>(180)) == Some(r));
    r
}

impl<
    T: Float + FloatConst + Copy + Mul<Output = T> + Div<Output = T> + From<u8>,
    const N: usize,
> Vector<T, N> {
    /// Every component, taken as degrees, in radians.
    pub fn in_radians(self) -> (r: Self)
        requires
            mul_total::<T>() && div_total::<T>(),
        ensures
            T::obeys_mul_spec() && T::obeys_div_spec() && T::obeys_from_spec() ==> forall|i: int|
                0 <= i < N ==> is_in_radians(#[trigger] r@[i], self@[i]),
    {
        let mut result = self;
        let mut i: usize = 0;
        while i < N
            invariant
                0 <= i <= N,
                mul_total::<T>() && div_total::<T>(),
                T::obeys_mul_spec() && T::obeys_div_spec() && T::obeys_from_spec() ==> forall|
                    j: int,
                | 0 <= j < i ==> is_in_radians(#[trigger] result@[j], self@[j]),
            decreases N - i,
        {
            let ghost before = result@;
            let v = scalar_to_radians(self.data[i]);
            result.data[i] = v;
            assert(result@ == before.update(i as int, v));
            i += 1;
        }
        result
    }

    /// Every component, taken as radians, in degrees.
    pub fn in_degrees(self) -> (r: Self)
        requires
            mul_total::<T>() && div_total::<T>(),
        ensures
            T::obeys_mul_spec() && T::obeys_div_spec() && T::obeys_from_spec() ==> forall|i: int|
                0 <= i < N ==> is_in_degrees(#[trigger] r@[i], self@[i]),
    {
        let mut result = self;
        let mut i: usize = 0;
        while i < N
            invariant
                0 <= i <= N,
                mul_total::<T>() && div_total::<T>(),
                T::obeys_mul_spec() && T::obeys_div_spec() && T::obeys_from_spec() ==> forall|
                    j: int,
                | 0 <= j < i ==> is_in_degrees(#[trigger] result@[j], self@[j]),
            decreases N - i,
        {
            let ghost before = result@;
            let v = scalar_to_degrees(self.data[i]);
            result.data[i] = v;
            assert(result@ == before.update(i as int, v));
            i += 1;
        }
        result
    }
}

} // verus!
