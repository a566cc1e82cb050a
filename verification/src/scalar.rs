//! Scalar arithmetic as the containers see it.
//!
//! Every container here is generic over its element type, so a contract cannot
//! speak of numbers directly. It speaks of the element type's own operators
//! instead: each operator has a precondition (`add_req`, ...) and, where the
//! type promises one (`obeys_add_spec`, ...), a value (`add_spec`, ...). The
//! functions below lift the operators to optional values, so that a formula
//! written once says both when it can be evaluated and what it evaluates to.
//!
//! Zero, one and the other whole numbers are made by the scalar type's
//! conversion from a byte, so a contract can name them. The elementary
//! functions and the constants of the circle come from `num_traits`; they are
//! believed, not proved, and are declared at the end of this file.
use core::ops::{Add, Div, Mul, Neg, Sub};
use num_traits::{Float, FloatConst};
use vstd::prelude::*;
use vstd::std_specs::convert::FromSpec;
use vstd::std_specs::ops::{AddSpec, DivSpec, MulSpec, NegSpec, SubSpec};

verus! {

/// `a + b`, defined when both operands are and the element type admits the sum.
pub open spec fn plus<T: Add<Output = T>>(a: Option<T>, b: Option<T>) -> Option<T> {
    match (a, b) {
        (Some(x), Some(y)) => if x.add_req(y) {
            Some(x.add_spec(y))
        } else {
            None
        },
        _ => None,
    }
}

/// `a - b`, defined when both operands are and the element type admits the difference.
pub open spec fn minus<T: Sub<Output = T>>(a: Option<T>, b: Option<T>) -> Option<T> {
    match (a, b) {
        (Some(x), Some(y)) => if x.sub_req(y) {
            Some(x.sub_spec(y))
        } else {
            None
        },
        _ => None,
    }
}

/// `a * b`, defined when both operands are and the element type admits the product.
pub open spec fn times<T: Mul<Output = T>>(a: Option<T>, b: Option<T>) -> Option<T> {
    match (a, b) {
        (Some(x), Some(y)) => if x.mul_req(y) {
            Some(x.mul_spec(y))
        } else {
            None
        },
        _ => None,
    }
}

/// `a / b`, defined when both operands are and the element type admits the quotient.
pub open spec fn over<T: Div<Output = T>>(a: Option<T>, b: Option<T>) -> Option<T> {
    match (a, b) {
        (Some(x), Some(y)) => if x.div_req(y) {
            Some(x.div_spec(y))
        } else {
            None
        },
        _ => None,
    }
}

/// `-a`, defined when the operand is and the element type admits the negation.
pub open spec fn negated<T: Neg<Output = T>>(a: Option<T>) -> Option<T> {
    match a {
        Some(x) => if x.neg_req() {
            Some(x.neg_spec())
        } else {
            None
        },
        None => None,
    }
}

/// `a + b` of two plain values.
pub open spec fn sum<T: Add<Output = T>>(a: T, b: T) -> Option<T> {
    plus(Some(a), Some(b))
}

/// `a - b` of two plain values.
pub open spec fn difference<T: Sub<Output = T>>(a: T, b: T) -> Option<T> {
    minus(Some(a), Some(b))
}

/// `a * b` of two plain values.
pub open spec fn product<T: Mul<Output = T>>(a: T, b: T) -> Option<T> {
    times(Some(a), Some(b))
}

/// `a / b` of two plain values.
pub open spec fn quotient<T: Div<Output = T>>(a: T, b: T) -> Option<T> {
    over(Some(a), Some(b))
}

/// Addition never fails on `T`.
pub open spec fn add_total<T: Add<Output = T>>() -> bool {
    forall|a: T, b: T| #[trigger] a.add_req(b)
}

/// Subtraction never fails on `T`.
pub open spec fn sub_total<T: Sub<Output = T>>() -> bool {
    forall|a: T, b: T| #[trigger] a.sub_req(b)
}

/// Multiplication never fails on `T`.
pub open spec fn mul_total<T: Mul<Output = T>>() -> bool {
    forall|a: T, b: T| #[trigger] a.mul_req(b)
}

/// Division never fails on `T`.
pub open spec fn div_total<T: Div<Output = T>>() -> bool {
    forall|a: T, b: T| #[trigger] a.div_req(b)
}

/// Negation never fails on `T`.
pub open spec fn neg_total<T: Neg<Output = T>>() -> bool {
    forall|a: T| #[trigger] a.neg_req()
}

/// `+`, `-` and `*` never fail on `T`.
pub open spec fn ring_total<T: Add<Output = T> + Sub<Output = T> + Mul<Output = T>>() -> bool {
    add_total::<T>() && sub_total::<T>() && mul_total::<T>()
}

/// `+`, `-` and `*` on `T` return what their specifications say.
pub open spec fn ring_obeys<T: Add<Output = T> + Sub<Output = T> + Mul<Output = T>>() -> bool {
    T::obeys_add_spec() && T::obeys_sub_spec() && T::obeys_mul_spec()
}

/// `+`, `-`, `*` and `/` never fail on `T`.
pub open spec fn field_total<
    T: Add<Output = T> + Sub<Output = T> + Mul<Output = T> + Div<Output = T>,
>() -> bool {
    ring_total::<T>() && div_total::<T>()
}

/// `+`, `-`, `*` and `/` on `T` return what their specifications say.
pub open spec fn field_obeys<
    T: Add<Output = T> + Sub<Output = T> + Mul<Output = T> + Div<Output = T>,
>() -> bool {
    ring_obeys::<T>() && T::obeys_div_spec()
}

/// The scalar that stands for the whole number `n`.
pub open spec fn whole<T: From<u8>>(n: u8) -> T {
    T::from_spec(n)
}

/// The scalar zero.
pub open spec fn zero_of<T: From<u8>>() -> T {
    T::from_spec(0u8)
}

/// The scalar one.
pub open spec fn one_of<T: From<u8>>() -> T {
    T::from_spec(1u8)
}

/// The scalar that stands for the whole number `n`, by the scalar type's own
/// conversion from a byte.
pub fn scalar_of<T: From<u8>>(n: u8) -> (r: T)
    ensures
        T::obeys_from_spec() ==> r == T::from_spec(n),
{
    T::from(n)
}

/// When a computation may run: either no step of it can fail on the element
/// type, or the element type's operators are specified and the formula that
/// describes the computation has a value.
pub open spec fn runs(total: bool, obeys: bool, defined: bool) -> bool {
    total || (obeys && defined)
}

// The functions below are generic over `num_traits::Float`. The verifier does
// not look into that trait, so a function that calls one of them and also
// computes lists the operator traits it uses beside `Float`.
//
// Each outside function stands three times: the call itself, of which
// nothing is claimed; a relation that holds between the arguments and a
// result of the call; and a function that makes the call and says that its
// result stands in that relation. Contracts elsewhere speak of the
// relations, so that a result is tied to the call that made it.

/// `num_traits::FloatConst::PI`. Nothing is claimed of the value.
#[verifier::external_body]
fn raw_pi<T: FloatConst>() -> (r: T) {
    T::PI()
}

/// `r` is Archimedes' constant as the scalar type gives it: a value that
/// the call may return. Nothing more is known of it.
pub closed spec fn is_pi<T: FloatConst>(r: T) -> bool {
    call_ensures(raw_pi::<T>, (), r)
}

/// Archimedes' constant, as the scalar type takes it.
pub(crate) fn float_pi<T: FloatConst>() -> (r: T)
    ensures
        is_pi(r),
{
    raw_pi()
}

/// `num_traits::FloatConst::FRAC_PI_2`. Nothing is claimed of the value.
#[verifier::external_body]
fn raw_frac_pi_2<T: FloatConst>() -> (r: T) {
    T::FRAC_PI_2()
}

/// `r` is a quarter turn in radians as the scalar type gives it: a value that
/// the call may return. Nothing more is known of it.
pub closed spec fn is_frac_pi_2<T: FloatConst>(r: T) -> bool {
    call_ensures(raw_frac_pi_2::<T>, (), r)
}

/// A quarter turn, as the scalar type takes it.
pub(crate) fn float_frac_pi_2<T: FloatConst>() -> (r: T)
    ensures
        is_frac_pi_2(r),
{
    raw_frac_pi_2()
}

/// `num_traits::Float::sqrt`. Nothing is claimed of the value.
#[verifier::external_body]
fn raw_sqrt<T: Float>(x: T) -> (r: T) {
    x.sqrt()
}

/// `r` is the square root that the scalar type takes of `x`: a value that
/// the call may return. Nothing more is known of it.
pub closed spec fn is_sqrt<T: Float>(x: T, r: T) -> bool {
    call_ensures(raw_sqrt::<T>, (x,), r)
}

/// The square root of `x`, as the scalar type takes it.
pub(crate) fn float_sqrt<T: Float>(x: T) -> (r: T)
    ensures
        is_sqrt(x, r),
{
    raw_sqrt(x)
}

/// `num_traits::Float::powf`. Nothing is claimed of the value.
#[verifier::external_body]
fn raw_powf<T: Float>(x: T, n: T) -> (r: T) {
    x.powf(n)
}

/// `r` is the power that the scalar type takes of `x` with the exponent `n`: a value that
/// the call may return. Nothing more is known of it.
pub closed spec fn is_powf<T: Float>(x: T, n: T, r: T) -> bool {
    call_ensures(raw_powf::<T>, (x, n), r)
}

/// `x` to the power `n`, as the scalar type takes it.
pub(crate) fn float_powf<T: Float>(x: T, n: T) -> (r: T)
    ensures
        is_powf(x, n, r),
{
    raw_powf(x, n)
}

/// `num_traits::Float::abs`. Nothing is claimed of the value.
#[verifier::external_body]
fn raw_abs<T: Float>(x: T) -> (r: T) {
    x.abs()
}

/// `r` is the absolute value that the scalar type takes of `x`: a value that
/// the call may return. Nothing more is known of it.
pub closed spec fn is_abs<T: Float>(x: T, r: T) -> bool {
    call_ensures(raw_abs::<T>, (x,), r)
}

/// The absolute value of `x`, as the scalar type takes it.
pub(crate) fn float_abs<T: Float>(x: T) -> (r: T)
    ensures
        is_abs(x, r),
{
    raw_abs(x)
}

/// `num_traits::Float::signum`. Nothing is claimed of the value.
#[verifier::external_body]
fn raw_signum<T: Float>(x: T) -> (r: T) {
    x.signum()
}

/// `r` is the sign that the scalar type takes of `x`: a value that
/// the call may return. Nothing more is known of it.
pub closed spec fn is_signum<T: Float>(x: T, r: T) -> bool {
    call_ensures(raw_signum::<T>, (x,), r)
}

/// The sign of `x`, as the scalar type takes it.
pub(crate) fn float_signum<T: Float>(x: T) -> (r: T)
    ensures
        is_signum(x, r),
{
    raw_signum(x)
}

/// `num_traits::Float::max`. Nothing is claimed of the value.
#[verifier::external_body]
fn raw_max<T: Float>(x: T, y: T) -> (r: T) {
    x.max(y)
}

/// `r` is the greater of `x` and `y` as the scalar type takes it: a value that
/// the call may return. Nothing more is known of it.
pub closed spec fn is_max<T: Float>(x: T, y: T, r: T) -> bool {
    call_ensures(raw_max::<T>, (x, y), r)
}

/// The greater of `x` and `y`, as the scalar type takes it.
pub(crate) fn float_max<T: Float>(x: T, y: T) -> (r: T)
    ensures
        is_max(x, y, r),
{
    raw_max(x, y)
}

/// `num_traits::Float::min`. Nothing is claimed of the value.
#[verifier::external_body]
fn raw_min<T: Float>(x: T, y: T) -> (r: T) {
    x.min(y)
}

/// `r` is the lesser of `x` and `y` as the scalar type takes it: a value that
/// the call may return. Nothing more is known of it.
pub closed spec fn is_min<T: Float>(x: T, y: T, r: T) -> bool {
    call_ensures(raw_min::<T>, (x, y), r)
}

/// The lesser of `x` and `y`, as the scalar type takes it.
pub(crate) fn float_min<T: Float>(x: T, y: T) -> (r: T)
    ensures
        is_min(x, y, r),
{
    raw_min(x, y)
}

/// `num_traits::Float::sin`. Nothing is claimed of the value.
#[verifier::external_body]
fn raw_sin<T: Float>(x: T) -> (r: T) {
    x.sin()
}

/// `r` is the sine that the scalar type takes of `x`: a value that
/// the call may return. Nothing more is known of it.
pub closed spec fn is_sin<T: Float>(x: T, r: T) -> bool {
    call_ensures(raw_sin::<T>, (x,), r)
}

/// The sine of `x`, as the scalar type takes it.
pub(crate) fn float_sin<T: Float>(x: T) -> (r: T)
    ensures
        is_sin(x, r),
{
    raw_sin(x)
}

/// `num_traits::Float::cos`. Nothing is claimed of the value.
#[verifier::external_body]
fn raw_cos<T: Float>(x: T) -> (r: T) {
    x.cos()
}

/// `r` is the cosine that the scalar type takes of `x`: a value that
/// the call may return. Nothing more is known of it.
pub closed spec fn is_cos<T: Float>(x: T, r: T) -> bool {
    call_ensures(raw_cos::<T>, (x,), r)
}

/// The cosine of `x`, as the scalar type takes it.
pub(crate) fn float_cos<T: Float>(x: T) -> (r: T)
    ensures
        is_cos(x, r),
{
    raw_cos(x)
}

/// `num_traits::Float::asin`. Nothing is claimed of the value.
#[verifier::external_body]
fn raw_asin<T: Float>(x: T) -> (r: T) {
    x.asin()
}

/// `r` is the arc sine that the scalar type takes of `x`: a value that
/// the call may return. Nothing more is known of it.
pub closed spec fn is_asin<T: Float>(x: T, r: T) -> bool {
    call_ensures(raw_asin::<T>, (x,), r)
}

/// The arc sine of `x`, as the scalar type takes it.
pub(crate) fn float_asin<T: Float>(x: T) -> (r: T)
    ensures
        is_asin(x, r),
{
    raw_asin(x)
}

/// `num_traits::Float::acos`. Nothing is claimed of the value.
#[verifier::external_body]
fn raw_acos<T: Float>(x: T) -> (r: T) {
    x.acos()
}

/// `r` is the arc cosine that the scalar type takes of `x`: a value that
/// the call may return. Nothing more is known of it.
pub closed spec fn is_acos<T: Float>(x: T, r: T) -> bool {
    call_ensures(raw_acos::<T>, (x,), r)
}

/// The arc cosine of `x`, as the scalar type takes it.
pub(crate) fn float_acos<T: Float>(x: T) -> (r: T)
    ensures
        is_acos(x, r),
{
    raw_acos(x)
}

/// `num_traits::Float::atan`. Nothing is claimed of the value.
#[verifier::external_body]
fn raw_atan<T: Float>(x: T) -> (r: T) {
    x.atan()
}

/// `r` is the arc tangent that the scalar type takes of `x`: a value that
/// the call may return. Nothing more is known of it.
pub closed spec fn is_atan<T: Float>(x: T, r: T) -> bool {
    call_ensures(raw_atan::<T>, (x,), r)
}

/// The arc tangent of `x`, as the scalar type takes it.
pub(crate) fn float_atan<T: Float>(x: T) -> (r: T)
    ensures
        is_atan(x, r),
{
    raw_atan(x)
}

/// `num_traits::Float::atan2`, with `y` as the receiver. Nothing is claimed of the value.
#[verifier::external_body]
fn raw_atan2<T: Float>(y: T, x: T) -> (r: T) {
    y.atan2(x)
}

/// `r` is the arc tangent by quadrant that the scalar type takes of `y` over `x`: a value that
/// the call may return. Nothing more is known of it.
pub closed spec fn is_atan2<T: Float>(y: T, x: T, r: T) -> bool {
    call_ensures(raw_atan2::<T>, (y, x), r)
}

/// The arc tangent of `y / x` by quadrant, as the scalar type takes it.
pub(crate) fn float_atan2<T: Float>(y: T, x: T) -> (r: T)
    ensures
        is_atan2(y, x, r),
{
    raw_atan2(y, x)
}

} // verus!
