//! A vector of `N` scalars.
use crate::scalar::{
    float_acos, float_max, float_min, float_sqrt, is_acos, is_max, is_min, is_sqrt, one_of, runs,
    scalar_of, zero_of,
};
use crate::scalar::{add_total, mul_total, sub_total, div_total, neg_total, minus, plus, times};
use crate::utils::parse::{format_vector, texts, vector_text};
use core::ops::{Add, AddAssign, Div, Mul, Neg, Sub, SubAssign};
use num_traits::Float;
use vstd::prelude::*;
use vstd::std_specs::cmp::PartialEqSpec;
use vstd::std_specs::convert::FromSpec;
use vstd::std_specs::ops::{AddSpec, DivSpec, MulSpec, NegSpec, SubSpec};
use vstd::string::to_string_from_display_ensures;

verus! {

/// `N` scalars in a fixed order.
#[derive(Debug, Clone, Copy, PartialEq)]
pub struct Vector<T, const N: usize> {
    pub data: [T; N],
}

impl<T, const N: usize> View for Vector<T, N> {
    type V = Seq<T>;

    open spec fn view(&self) -> Seq<T> {
        self.data@
    }
}

/// The sums `a[i] + b[i]`.
pub open spec fn seq_plus<T: Add<Output = T>>(a: Seq<T>, b: Seq<T>) -> Seq<T> {
    Seq::new(a.len(), |i: int| a[i].add_spec(b[i]))
}

/// Every sum `a[i] + b[i]` is admitted.
pub open spec fn seq_plus_req<T: Add<Output = T>>(a: Seq<T>, b: Seq<T>) -> bool {
    forall|i: int| 0 <= i < a.len() ==> #[trigger] a[i].add_req(b[i])
}

/// Every product `a[i] * k` is admitted.
pub open spec fn seq_scaled_req<T: Mul<Output = T>>(a: Seq<T>, k: T) -> bool {
    forall|i: int| 0 <= i < a.len() ==> #[trigger] a[i].mul_req(k)
}

/// The differences `a[i] - b[i]`.
pub open spec fn seq_minus<T: Sub<Output = T>>(a: Seq<T>, b: Seq<T>) -> Seq<T> {
    Seq::new(a.len(), |i: int| a[i].sub_spec(b[i]))
}

/// The negations `-a[i]`.
pub open spec fn seq_negated<T: Neg<Output = T>>(a: Seq<T>) -> Seq<T> {
    Seq::new(a.len(), |i: int| a[i].neg_spec())
}

/// The products `a[i] * k`.
pub open spec fn seq_scaled<T: Mul<Output = T>>(a: Seq<T>, k: T) -> Seq<T> {
    Seq::new(a.len(), |i: int| a[i].mul_spec(k))
}

/// The quotients `a[i] / k`.
pub open spec fn seq_divided<T: Div<Output = T>>(a: Seq<T>, k: T) -> Seq<T> {
    Seq::new(a.len(), |i: int| a[i].div_spec(k))
}

/// `n` copies of `value`.
pub open spec fn seq_filled<T>(n: nat, value: T) -> Seq<T> {
    Seq::new(n, |i: int| value)
}

/// The running sum `acc + a[k] * b[k] + a[k + 1] * b[k + 1] + ...`, taken from
/// the left, as long as every product and every sum is admitted.
pub open spec fn dot_fold<T: Add<Output = T> + Mul<Output = T>>(
    acc: T,
    a: Seq<T>,
    b: Seq<T>,
    k: int,
) -> Option<T>
    decreases a.len() - k,
{
    if 0 <= k < a.len() {
        match plus(Some(acc), times(Some(a[k]), Some(b[k]))) {
            Some(next) => dot_fold(next, a, b, k + 1),
            None => None,
        }
    } else {
        Some(acc)
    }
}

/// The cosine of the angle between two vectors, from their dot product and
/// their lengths: `dot / (len_a * len_b)`, and nothing where the product of
/// the lengths equals `zero`.
pub open spec fn cosine_ratio_of<T: PartialEq + Mul<Output = T> + Div<Output = T>>(
    dot: T,
    len_a: T,
    len_b: T,
    zero: T,
) -> Option<T> {
    let denom = len_a.mul_spec(len_b);
    if denom.eq_spec(&zero) {
        None
    } else {
        Some(dot.div_spec(denom))
    }
}

/// `r` is the length of `a`: the square root, as the scalar type takes it, of
/// the dot product of `a` with itself.
pub open spec fn is_norm<T: Float + Add<Output = T> + Mul<Output = T> + From<u8>>(
    r: T,
    a: Seq<T>,
) -> bool {
    dot_fold(zero_of::<T>(), a, a, 0) is Some && is_sqrt(
        dot_fold(zero_of::<T>(), a, a, 0).unwrap(),
        r,
    )
}

/// `r` is the arc cosine, as the scalar type takes it, of `ratio` clamped to
/// `[-1, 1]`: first raised to at least minus one, then lowered to at most one.
pub open spec fn is_clamped_arc<T: Float + Neg<Output = T> + From<u8>>(ratio: T, r: T) -> bool {
    exists|raised: T, clamped: T|
        #![trigger is_max(ratio, one_of::<T>().neg_spec(), raised), is_min(raised, one_of::<T>(), clamped)]
        is_max(ratio, one_of::<T>().neg_spec(), raised) && is_min(raised, one_of::<T>(), clamped)
            && is_acos(clamped, r)
}

/// `r` is the angle for the dot product `dot` and the lengths `len_a` and
/// `len_b`: zero where the product of the lengths equals zero, else the arc
/// cosine of the clamped ratio `dot / (len_a * len_b)`.
pub open spec fn is_angle_for<
    T: Float + PartialEq + Mul<Output = T> + Div<Output = T> + Neg<Output = T> + From<u8>,
>(r: T, dot: T, len_a: T, len_b: T) -> bool {
    match cosine_ratio_of(dot, len_a, len_b, zero_of::<T>()) {
        None => r == zero_of::<T>(),
        Some(ratio) => is_clamped_arc(ratio, r),
    }
}

/// `r` is the angle between `a` and `b`: the angle for their dot product and
/// their two lengths.
pub open spec fn is_angle_between<
    T: Float + PartialEq + Add<Output = T> + Mul<Output = T> + Div<Output = T> + Neg<
        Output = T,
    > + From<u8>,
>(r: T, a: Seq<T>, b: Seq<T>) -> bool {
    dot_fold(zero_of::<T>(), a, b, 0) is Some && exists|len_a: T, len_b: T|
        is_norm(len_a, a) && is_norm(len_b, b) && #[trigger] is_angle_for(
            r,
            dot_fold(zero_of::<T>(), a, b, 0).unwrap(),
            len_a,
            len_b,
        )
}

/// The cosine of the angle between two vectors, from their dot product and
/// their lengths; `None` where the product of the lengths equals `zero`.
pub fn cosine_ratio<T: Copy + PartialEq + Mul<Output = T> + Div<Output = T>>(
    dot: T,
    len_a: T,
    len_b: T,
    zero: T,
) -> (r: Option<T>)
    requires
        runs(
            mul_total::<T>() && div_total::<T>(),
            T::obeys_mul_spec() && T::obeys_eq_spec(),
            len_a.mul_req(len_b) && (!len_a.mul_spec(len_b).eq_spec(&zero) ==> dot.div_req(
                len_a.mul_spec(len_b),
            )),
        ),
    ensures
        T::obeys_eq_spec() && T::obeys_mul_spec() && T::obeys_div_spec() ==> r == cosine_ratio_of(
            dot,
            len_a,
            len_b,
            zero,
        ),
{
    let denom = len_a * len_b;
    if denom == zero {
        None
    } else {
        Some(dot / denom)
    }
}

/// Component `i` of the cross product, with `j` and `k` the two indices that
/// follow `i` cyclically: `a[j] * b[k] - a[k] * b[j]`.
pub open spec fn cross_component<T: Sub<Output = T> + Mul<Output = T>>(
    a: Seq<T>,
    b: Seq<T>,
    j: int,
    k: int,
) -> Option<T> {
    minus(times(Some(a[j]), Some(b[k])), times(Some(a[k]), Some(b[j])))
}

impl<T, const N: usize> Vector<T, N> {
    /// The vector whose components are `s`.
    pub open spec fn of_view(s: Seq<T>) -> Self {
        choose|r: Self| #[trigger] r.view() == s
    }

    /// Two vectors with the same components are the same vector.
    pub proof fn lemma_view_injective(a: Self, b: Self)
        requires
            a@ == b@,
        ensures
            a == b,
    {
        assert(a.data =~= b.data);
    }

    /// `of_view` gives back a vector from its own components.
    pub proof fn lemma_of_view(a: Self)
        ensures
            Self::of_view(a@) == a,
    {
        Self::lemma_view_injective(Self::of_view(a@), a);
    }
}

impl<T: Copy, const N: usize> Vector<T, N> {
    /// The vector with the components `data`.
    pub fn new(data: [T; N]) -> (r: Self)
        ensures
            r.data == data,
    {
        Self { data }
    }

    /// The vector whose components all equal `value`.
    pub fn filled(value: T) -> (r: Self)
        ensures
            r@ == seq_filled(N as nat, value),
    {
        let r = Self { data: [value;N] };
        assert(r@ =~= seq_filled(N as nat, value));
        r
    }
}

impl<T: Default + Copy, const N: usize> Default for Vector<T, N> {
    /// Every component is the scalar type's default value.
    fn default() -> (r: Self)
        ensures
            exists|d: T| call_ensures(T::default, (), d) && r@ == #[trigger] seq_filled(N as nat, d),
    {
        let d = T::default();
        let r = Self::filled(d);
        assert(call_ensures(T::default, (), d) && r@ == seq_filled(N as nat, d));
        r
    }
}

// ----- addition -----

impl<T: Add<Output = T> + Copy, const N: usize> vstd::std_specs::ops::AddSpecImpl for Vector<T, N> {
    open spec fn obeys_add_spec() -> bool {
        T::obeys_add_spec()
    }

    open spec fn add_req(self, rhs: Self) -> bool {
        forall|i: int| 0 <= i < N ==> #[trigger] self@[i].add_req(rhs@[i])
    }

    open spec fn add_spec(self, rhs: Self) -> Self {
        Self::of_view(seq_plus(self@, rhs@))
    }
}

impl<T: Add<Output = T> + Copy, const N: usize> Add for Vector<T, N> {
    type Output = Self;

    /// Componentwise sum.
    fn add(self, rhs: Self) -> (r: Self)
        ensures
            T::obeys_add_spec() ==> r@ == seq_plus(self@, rhs@),
    {
        let mut result = self;
        let mut i: usize = 0;
        while i < N
            invariant
                0 <= i <= N,
                forall|j: int| 0 <= j < N ==> #[trigger] self@[j].add_req(rhs@[j]),
                T::obeys_add_spec() ==> forall|j: int|
                    0 <= j < i ==> #[trigger] result@[j] == self@[j].add_spec(rhs@[j]),
            decreases N - i,
        {
            assert(self@[i as int].add_req(rhs@[i as int]));
            let ghost before = result@;
            let v = self.data[i] + rhs.data[i];
            result.data[i] = v;
            assert(result@ == before.update(i as int, v));
            i += 1;
        }
        proof {
            if T::obeys_add_spec() {
                assert(result@ =~= seq_plus(self@, rhs@));
                Self::lemma_of_view(result);
            }
        }
        result
    }
}

impl<T: Add<Output = T> + Copy, const N: usize> AddAssign for Vector<T, N> {
    /// Componentwise sum, in place.
    fn add_assign(&mut self, rhs: Self)
        requires
            forall|i: int| 0 <= i < N ==> #[trigger] old(self)@[i].add_req(rhs@[i]),
        ensures
            T::obeys_add_spec() ==> final(self)@ == seq_plus(old(self)@, rhs@),
    {
        let sum = *self + rhs;
        *self = sum;
    }
}

impl<'a, T: Add<Output = T> + Copy, const N: usize> vstd::std_specs::ops::AddSpecImpl for &'a Vector<T, N> {
    open spec fn obeys_add_spec() -> bool {
        T::obeys_add_spec()
    }

    open spec fn add_req(self, rhs: Self) -> bool {
        forall|i: int| 0 <= i < N ==> #[trigger] self@[i].add_req(rhs@[i])
    }

    open spec fn add_spec(self, rhs: Self) -> Vector<T, N> {
        Vector::of_view(seq_plus(self@, rhs@))
    }
}

impl<'a, T: Add<Output = T> + Copy, const N: usize> Add for &'a Vector<T, N> {
    type Output = Vector<T, N>;

    /// Componentwise sum of two borrowed vectors.
    fn add(self, rhs: Self) -> (r: Vector<T, N>)
        ensures
            T::obeys_add_spec() ==> r@ == seq_plus(self@, rhs@),
    {
        let r = *self + *rhs;
        proof {
            if T::obeys_add_spec() {
                Vector::lemma_of_view(r);
            }
        }
        r
    }
}

impl<'a, T: Add<Output = T> + Copy, const N: usize> vstd::std_specs::ops::AddSpecImpl<&'a Vector<T, N>> for Vector<T, N> {
    open spec fn obeys_add_spec() -> bool {
        T::obeys_add_spec()
    }

    open spec fn add_req(self, rhs: &'a Vector<T, N>) -> bool {
        forall|i: int| 0 <= i < N ==> #[trigger] self@[i].add_req(rhs@[i])
    }

    open spec fn add_spec(self, rhs: &'a Vector<T, N>) -> Vector<T, N> {
        Vector::of_view(seq_plus(self@, rhs@))
    }
}

impl<'a, T: Add<Output = T> + Copy, const N: usize> Add<&'a Vector<T, N>> for Vector<T, N> {
    type Output = Vector<T, N>;

    /// Componentwise sum with a borrowed right operand.
    fn add(self, rhs: &'a Vector<T, N>) -> (r: Vector<T, N>)
        ensures
            T::obeys_add_spec() ==> r@ == seq_plus(self@, rhs@),
    {
        let r = self + *rhs;
        proof {
            if T::obeys_add_spec() {
                Vector::lemma_of_view(r);
            }
        }
        r
    }
}

impl<'a, T: Add<Output = T> + Copy, const N: usize> vstd::std_specs::ops::AddSpecImpl<Vector<T, N>> for &'a Vector<T, N> {
    open spec fn obeys_add_spec() -> bool {
        T::obeys_add_spec()
    }

    open spec fn add_req(self, rhs: Vector<T, N>) -> bool {
        forall|i: int| 0 <= i < N ==> #[trigger] self@[i].add_req(rhs@[i])
    }

    open spec fn add_spec(self, rhs: Vector<T, N>) -> Vector<T, N> {
        Vector::of_view(seq_plus(self@, rhs@))
    }
}

impl<'a, T: Add<Output = T> + Copy, const N: usize> Add<Vector<T, N>> for &'a Vector<T, N> {
    type Output = Vector<T, N>;

    /// Componentwise sum with a borrowed left operand.
    fn add(self, rhs: Vector<T, N>) -> (r: Vector<T, N>)
        ensures
            T::obeys_add_spec() ==> r@ == seq_plus(self@, rhs@),
    {
        let r = *self + rhs;
        proof {
            if T::obeys_add_spec() {
                Vector::lemma_of_view(r);
            }
        }
        r
    }
}

// ----- subtraction -----

impl<T: Sub<Output = T> + Copy, const N: usize> vstd::std_specs::ops::SubSpecImpl for Vector<T, N> {
    open spec fn obeys_sub_spec() -> bool {
        T::obeys_sub_spec()
    }

    open spec fn sub_req(self, rhs: Self) -> bool {
        forall|i: int| 0 <= i < N ==> #[trigger] self@[i].sub_req(rhs@[i])
    }

    open spec fn sub_spec(self, rhs: Self) -> Self {
        Self::of_view(seq_minus(self@, rhs@))
    }
}

impl<T: Sub<Output = T> + Copy, const N: usize> Sub for Vector<T, N> {
    type Output = Self;

    /// Componentwise difference.
    fn sub(self, rhs: Self) -> (r: Self)
        ensures
            T::obeys_sub_spec() ==> r@ == seq_minus(self@, rhs@),
    {
        let mut result = self;
        let mut i: usize = 0;
        while i < N
            invariant
                0 <= i <= N,
                forall|j: int| 0 <= j < N ==> #[trigger] self@[j].sub_req(rhs@[j]),
                T::obeys_sub_spec() ==> forall|j: int|
                    0 <= j < i ==> #[trigger] result@[j] == self@[j].sub_spec(rhs@[j]),
            decreases N - i,
        {
            assert(self@[i as int].sub_req(rhs@[i as int]));
            let ghost before = result@;
            let v = self.data[i] - rhs.data[i];
            result.data[i] = v;
            assert(result@ == before.update(i as int, v));
            i += 1;
        }
        proof {
            if T::obeys_sub_spec() {
                assert(result@ =~= seq_minus(self@, rhs@));
                Self::lemma_of_view(result);
            }
        }
        result
    }
}

impl<T: Sub<Output = T> + Copy, const N: usize> SubAssign for Vector<T, N> {
    /// Componentwise difference, in place.
    fn sub_assign(&mut self, rhs: Self)
        requires
            forall|i: int| 0 <= i < N ==> #[trigger] old(self)@[i].sub_req(rhs@[i]),
        ensures
            T::obeys_sub_spec() ==> final(self)@ == seq_minus(old(self)@, rhs@),
    {
        let difference = *self - rhs;
        *self = difference;
    }
}

impl<'a, T: Sub<Output = T> + Copy, const N: usize> vstd::std_specs::ops::SubSpecImpl for &'a Vector<T, N> {
    open spec fn obeys_sub_spec() -> bool {
        T::obeys_sub_spec()
    }

    open spec fn sub_req(self, rhs: Self) -> bool {
        forall|i: int| 0 <= i < N ==> #[trigger] self@[i].sub_req(rhs@[i])
    }

    open spec fn sub_spec(self, rhs: Self) -> Vector<T, N> {
        Vector::of_view(seq_minus(self@, rhs@))
    }
}

impl<'a, T: Sub<Output = T> + Copy, const N: usize> Sub for &'a Vector<T, N> {
    type Output = Vector<T, N>;

    /// Componentwise difference of two borrowed vectors.
    fn sub(self, rhs: Self) -> (r: Vector<T, N>)
        ensures
            T::obeys_sub_spec() ==> r@ == seq_minus(self@, rhs@),
    {
        let r = *self - *rhs;
        proof {
            if T::obeys_sub_spec() {
                Vector::lemma_of_view(r);
            }
        }
        r
    }
}

impl<'a, T: Sub<Output = T> + Copy, const N: usize> vstd::std_specs::ops::SubSpecImpl<&'a Vector<T, N>> for Vector<T, N> {
    open spec fn obeys_sub_spec() -> bool {
        T::obeys_sub_spec()
    }

    open spec fn sub_req(self, rhs: &'a Vector<T, N>) -> bool {
        forall|i: int| 0 <= i < N ==> #[trigger] self@[i].sub_req(rhs@[i])
    }

    open spec fn sub_spec(self, rhs: &'a Vector<T, N>) -> Vector<T, N> {
        Vector::of_view(seq_minus(self@, rhs@))
    }
}

impl<'a, T: Sub<Output = T> + Copy, const N: usize> Sub<&'a Vector<T, N>> for Vector<T, N> {
    type Output = Vector<T, N>;

    /// Componentwise difference with a borrowed right operand.
    fn sub(self, rhs: &'a Vector<T, N>) -> (r: Vector<T, N>)
        ensures
            T::obeys_sub_spec() ==> r@ == seq_minus(self@, rhs@),
    {
        let r = self - *rhs;
        proof {
            if T::obeys_sub_spec() {
                Vector::lemma_of_view(r);
            }
        }
        r
    }
}

impl<'a, T: Sub<Output = T> + Copy, const N: usize> vstd::std_specs::ops::SubSpecImpl<Vector<T, N>> for &'a Vector<T, N> {
    open spec fn obeys_sub_spec() -> bool {
        T::obeys_sub_spec()
    }

    open spec fn sub_req(self, rhs: Vector<T, N>) -> bool {
        forall|i: int| 0 <= i < N ==> #[trigger] self@[i].sub_req(rhs@[i])
    }

    open spec fn sub_spec(self, rhs: Vector<T, N>) -> Vector<T, N> {
        Vector::of_view(seq_minus(self@, rhs@))
    }
}

impl<'a, T: Sub<Output = T> + Copy, const N: usize> Sub<Vector<T, N>> for &'a Vector<T, N> {
    type Output = Vector<T, N>;

    /// Componentwise difference with a borrowed left operand.
    fn sub(self, rhs: Vector<T, N>) -> (r: Vector<T, N>)
        ensures
            T::obeys_sub_spec() ==> r@ == seq_minus(self@, rhs@),
    {
        let r = *self - rhs;
        proof {
            if T::obeys_sub_spec() {
                Vector::lemma_of_view(r);
            }
        }
        r
    }
}

// ----- negation -----

impl<T: Neg<Output = T> + Copy, const N: usize> vstd::std_specs::ops::NegSpecImpl for Vector<T, N> {
    open spec fn obeys_neg_spec() -> bool {
        T::obeys_neg_spec()
    }

    open spec fn neg_req(self) -> bool {
        forall|i: int| 0 <= i < N ==> #[trigger] self@[i].neg_req()
    }

    open spec fn neg_spec(self) -> Self {
        Self::of_view(seq_negated(self@))
    }
}

impl<T: Neg<Output = T> + Copy, const N: usize> Neg for Vector<T, N> {
    type Output = Self;

    /// Componentwise negation.
    fn neg(self) -> (r: Self)
        ensures
            T::obeys_neg_spec() ==> r@ == seq_negated(self@),
    {
        let mut result = self;
        let mut i: usize = 0;
        while i < N
            invariant
                0 <= i <= N,
                forall|j: int| 0 <= j < N ==> #[trigger] self@[j].neg_req(),
                T::obeys_neg_spec() ==> forall|j: int|
                    0 <= j < i ==> #[trigger] result@[j] == self@[j].neg_spec(),
            decreases N - i,
        {
            assert(self@[i as int].neg_req());
            let ghost before = result@;
            let v = self.data[i].neg();
            result.data[i] = v;
            assert(result@ == before.update(i as int, v));
            i += 1;
        }
        proof {
            if T::obeys_neg_spec() {
                assert(result@ =~= seq_negated(self@));
                Self::lemma_of_view(result);
            }
        }
        result
    }
}

impl<'a, T: Neg<Output = T> + Copy, const N: usize> vstd::std_specs::ops::NegSpecImpl for &'a Vector<T, N> {
    open spec fn obeys_neg_spec() -> bool {
        T::obeys_neg_spec()
    }

    open spec fn neg_req(self) -> bool {
        forall|i: int| 0 <= i < N ==> #[trigger] self@[i].neg_req()
    }

    open spec fn neg_spec(self) -> Vector<T, N> {
        Vector::of_view(seq_negated(self@))
    }
}

impl<'a, T: Neg<Output = T> + Copy, const N: usize> Neg for &'a Vector<T, N> {
    type Output = Vector<T, N>;

    /// Componentwise negation of a borrowed vector.
    fn neg(self) -> (r: Vector<T, N>)
        ensures
            T::obeys_neg_spec() ==> r@ == seq_negated(self@),
    {
        let r = (*self).neg();
        proof {
            if T::obeys_neg_spec() {
                Vector::lemma_of_view(r);
            }
        }
        r
    }
}

// ----- multiplication by a scalar -----

impl<T: Mul<Output = T> + Copy, const N: usize> vstd::std_specs::ops::MulSpecImpl<T> for Vector<T, N> {
    open spec fn obeys_mul_spec() -> bool {
        T::obeys_mul_spec()
    }

    open spec fn mul_req(self, rhs: T) -> bool {
        forall|i: int| 0 <= i < N ==> #[trigger] self@[i].mul_req(rhs)
    }

    open spec fn mul_spec(self, rhs: T) -> Self {
        Self::of_view(seq_scaled(self@, rhs))
    }
}

impl<T: Mul<Output = T> + Copy, const N: usize> Mul<T> for Vector<T, N> {
    type Output = Self;

    /// Every component times `rhs`.
    fn mul(self, rhs: T) -> (r: Self)
        ensures
            T::obeys_mul_spec() ==> r@ == seq_scaled(self@, rhs),
    {
        let mut result = self;
        let mut i: usize = 0;
        while i < N
            invariant
                0 <= i <= N,
                forall|j: int| 0 <= j < N ==> #[trigger] self@[j].mul_req(rhs),
                T::obeys_mul_spec() ==> forall|j: int|
                    0 <= j < i ==> #[trigger] result@[j] == self@[j].mul_spec(rhs),
            decreases N - i,
        {
            assert(self@[i as int].mul_req(rhs));
            let ghost before = result@;
            let v = self.data[i] * rhs;
            result.data[i] = v;
            assert(result@ == before.update(i as int, v));
            i += 1;
        }
        proof {
            if T::obeys_mul_spec() {
                assert(result@ =~= seq_scaled(self@, rhs));
                Self::lemma_of_view(result);
            }
        }
        result
    }
}

impl<'a, T: Mul<Output = T> + Copy, const N: usize> vstd::std_specs::ops::MulSpecImpl<T> for &'a Vector<T, N> {
    open spec fn obeys_mul_spec() -> bool {
        T::obeys_mul_spec()
    }

    open spec fn mul_req(self, rhs: T) -> bool {
        forall|i: int| 0 <= i < N ==> #[trigger] self@[i].mul_req(rhs)
    }

    open spec fn mul_spec(self, rhs: T) -> Vector<T, N> {
        Vector::of_view(seq_scaled(self@, rhs))
    }
}

impl<'a, T: Mul<Output = T> + Copy, const N: usize> Mul<T> for &'a Vector<T, N> {
    type Output = Vector<T, N>;

    /// Every component of a borrowed vector times `rhs`.
    fn mul(self, rhs: T) -> (r: Vector<T, N>)
        ensures
            T::obeys_mul_spec() ==> r@ == seq_scaled(self@, rhs),
    {
        let r = *self * rhs;
        proof {
            if T::obeys_mul_spec() {
                Vector::lemma_of_view(r);
            }
        }
        r
    }
}

// ----- division by a scalar -----

impl<T: Div<Output = T> + Copy, const N: usize> vstd::std_specs::ops::DivSpecImpl<T> for Vector<T, N> {
    open spec fn obeys_div_spec() -> bool {
        T::obeys_div_spec()
    }

    open spec fn div_req(self, rhs: T) -> bool {
        forall|i: int| 0 <= i < N ==> #[trigger] self@[i].div_req(rhs)
    }

    open spec fn div_spec(self, rhs: T) -> Self {
        Self::of_view(seq_divided(self@, rhs))
    }
}

impl<T: Div<Output = T> + Copy, const N: usize> Div<T> for Vector<T, N> {
    type Output = Self;

    /// Every component divided by `rhs`.
    fn div(self, rhs: T) -> (r: Self)
        ensures
            T::obeys_div_spec() ==> r@ == seq_divided(self@, rhs),
    {
        let mut result = self;
        let mut i: usize = 0;
        while i < N
            invariant
                0 <= i <= N,
                forall|j: int| 0 <= j < N ==> #[trigger] self@[j].div_req(rhs),
                T::obeys_div_spec() ==> forall|j: int|
                    0 <= j < i ==> #[trigger] result@[j] == self@[j].div_spec(rhs),
            decreases N - i,
        {
            assert(self@[i as int].div_req(rhs));
            let ghost before = result@;
            let v = self.data[i] / rhs;
            result.data[i] = v;
            assert(result@ == before.update(i as int, v));
            i += 1;
        }
        proof {
            if T::obeys_div_spec() {
                assert(result@ =~= seq_divided(self@, rhs));
                Self::lemma_of_view(result);
            }
        }
        result
    }
}

impl<'a, T: Div<Output = T> + Copy, const N: usize> vstd::std_specs::ops::DivSpecImpl<T> for &'a Vector<T, N> {
    open spec fn obeys_div_spec() -> bool {
        T::obeys_div_spec()
    }

    open spec fn div_req(self, rhs: T) -> bool {
        forall|i: int| 0 <= i < N ==> #[trigger] self@[i].div_req(rhs)
    }

    open spec fn div_spec(self, rhs: T) -> Vector<T, N> {
        Vector::of_view(seq_divided(self@, rhs))
    }
}

impl<'a, T: Div<Output = T> + Copy, const N: usize> Div<T> for &'a Vector<T, N> {
    type Output = Vector<T, N>;

    /// Every component of a borrowed vector divided by `rhs`.
    fn div(self, rhs: T) -> (r: Vector<T, N>)
        ensures
            T::obeys_div_spec() ==> r@ == seq_divided(self@, rhs),
    {
        let r = *self / rhs;
        proof {
            if T::obeys_div_spec() {
                Vector::lemma_of_view(r);
            }
        }
        r
    }
}

// ----- products -----

impl<T: Add<Output = T> + Mul<Output = T> + Copy, const N: usize> Vector<T, N> {
    /// The dot product accumulated onto `zero`:
    /// `zero + self[0] * rhs[0] + ... + self[N - 1] * rhs[N - 1]`, summed from the left.
    pub fn dot_from(&self, rhs: &Self, zero: T) -> (r: T)
        requires
            runs(
                add_total::<T>() && mul_total::<T>(),
                T::obeys_add_spec() && T::obeys_mul_spec(),
                dot_fold(zero, self@, rhs@, 0) is Some,
            ),
        ensures
            T::obeys_add_spec() && T::obeys_mul_spec() ==> dot_fold(zero, self@, rhs@, 0) == Some(r),
    {
        let mut acc = zero;
        let mut i: usize = 0;
        while i < N
            invariant
                0 <= i <= N,
                runs(
                    add_total::<T>() && mul_total::<T>(),
                    T::obeys_add_spec() && T::obeys_mul_spec(),
                    dot_fold(zero, self@, rhs@, 0) is Some,
                ),
                T::obeys_add_spec() && T::obeys_mul_spec() ==> dot_fold(acc, self@, rhs@, i as int)
                    == dot_fold(zero, self@, rhs@, 0),
            decreases N - i,
        {
            let ghost step = plus(Some(acc), times(Some(self@[i as int]), Some(rhs@[i as int])));
            assert(self@[i as int].mul_req(rhs@[i as int]));
            let p = self.data[i] * rhs.data[i];
            assert(acc.add_req(p));
            acc = acc + p;
            assert(T::obeys_add_spec() && T::obeys_mul_spec() ==> step == Some(acc));
            i += 1;
        }
        acc
    }
}

impl<T: Copy + From<u8>, const N: usize> Vector<T, N> {
    /// The vector whose components are all zero.
    pub fn zeros() -> (r: Self)
        ensures
            T::obeys_from_spec() ==> r@ == seq_filled(N as nat, zero_of::<T>()),
    {
        Self::filled(scalar_of::<T>(0))
    }

    /// The vector whose components are all one.
    pub fn ones() -> (r: Self)
        ensures
            T::obeys_from_spec() ==> r@ == seq_filled(N as nat, one_of::<T>()),
    {
        Self::filled(scalar_of::<T>(1))
    }
}

impl<T: Copy + Add<Output = T> + Mul<Output = T> + From<u8>, const N: usize> Vector<T, N> {
    /// The dot product `0 + self[0] * rhs[0] + ... + self[N - 1] * rhs[N - 1]`,
    /// summed from the left.
    pub fn dot(&self, rhs: &Self) -> (r: T)
        requires
            runs(
                add_total::<T>() && mul_total::<T>(),
                T::obeys_add_spec() && T::obeys_mul_spec() && T::obeys_from_spec(),
                dot_fold(zero_of::<T>(), self@, rhs@, 0) is Some,
            ),
        ensures
            T::obeys_add_spec() && T::obeys_mul_spec() && T::obeys_from_spec() ==> dot_fold(
                zero_of::<T>(),
                self@,
                rhs@,
                0,
            ) == Some(r),
    {
        self.dot_from(rhs, scalar_of::<T>(0))
    }
}

impl<
    T: Float + Copy + PartialEq + Add<Output = T> + Mul<Output = T> + Div<Output = T> + Neg<
        Output = T,
    > + From<u8>,
    const N: usize,
> Vector<T, N> {
    /// The Euclidean length: the square root of the dot product of the vector
    /// with itself, the root as the scalar type takes it.
    pub fn norm(&self) -> (r: T)
        requires
            add_total::<T>() && mul_total::<T>(),
        ensures
            T::obeys_add_spec() && T::obeys_mul_spec() && T::obeys_from_spec() ==> is_norm(
                r,
                self@,
            ),
    {
        float_sqrt(self.dot(self))
    }

    /// The angle between two vectors: the arc cosine of the dot product over the
    /// product of the lengths, the ratio clamped to `[-1, 1]`; zero when the
    /// product of the lengths equals zero. Lengths, clamping and arc cosine
    /// are as the scalar type takes them.
    pub fn angle(&self, rhs: &Self) -> (r: T)
        requires
            add_total::<T>() && mul_total::<T>() && div_total::<T>() && neg_total::<T>(),
        ensures
            T::obeys_add_spec() && T::obeys_mul_spec() && T::obeys_div_spec()
                && T::obeys_neg_spec() && T::obeys_eq_spec() && T::obeys_from_spec()
                ==> is_angle_between(r, self@, rhs@),
    {
        let dot = self.dot(rhs);
        let zero = scalar_of::<T>(0);
        let len_a = self.norm();
        let len_b = rhs.norm();
        let ghost known = T::obeys_add_spec() && T::obeys_mul_spec() && T::obeys_div_spec()
            && T::obeys_neg_spec() && T::obeys_eq_spec() && T::obeys_from_spec();
        match cosine_ratio(dot, len_a, len_b, zero) {
            None => {
                assert(known ==> is_norm(len_a, self@) && is_norm(len_b, rhs@) && is_angle_for(
                    zero,
                    dot_fold(zero_of::<T>(), self@, rhs@, 0).unwrap(),
                    len_a,
                    len_b,
                ));
                zero
            },
            Some(ratio) => {
                let one = scalar_of::<T>(1);
                let raised = float_max(ratio, one.neg());
                let clamped = float_min(raised, one);
                let arc = float_acos(clamped);
                proof {
                    if known {
                        assert(is_max(ratio, one_of::<T>().neg_spec(), raised) && is_min(
                            raised,
                            one_of::<T>(),
                            clamped,
                        ));
                        assert(is_clamped_arc(ratio, arc));
                        assert(is_norm(len_a, self@) && is_norm(len_b, rhs@) && is_angle_for(
                            arc,
                            dot_fold(zero_of::<T>(), self@, rhs@, 0).unwrap(),
                            len_a,
                            len_b,
                        ));
                    }
                }
                arc
            },
        }
    }
}

impl<T: Copy + Sub<Output = T> + Mul<Output = T>> Vector<T, 3> {
    /// The cross product of two vectors of three components.
    pub open spec fn cross_defined(a: Seq<T>, b: Seq<T>) -> bool {
        &&& cross_component(a, b, 1, 2) is Some
        &&& cross_component(a, b, 2, 0) is Some
        &&& cross_component(a, b, 0, 1) is Some
    }

    /// The cross product
    /// `(a[1] * b[2] - a[2] * b[1], a[2] * b[0] - a[0] * b[2], a[0] * b[1] - a[1] * b[0])`.
    pub fn cross(self, rhs: Self) -> (r: Self)
        requires
            runs(
                sub_total::<T>() && mul_total::<T>(),
                T::obeys_sub_spec() && T::obeys_mul_spec(),
                Self::cross_defined(self@, rhs@),
            ),
        ensures
            T::obeys_sub_spec() && T::obeys_mul_spec() ==> {
                &&& cross_component(self@, rhs@, 1, 2) == Some(r@[0])
                &&& cross_component(self@, rhs@, 2, 0) == Some(r@[1])
                &&& cross_component(self@, rhs@, 0, 1) == Some(r@[2])
            },
    {
        let a1 = self.data[0];
        let a2 = self.data[1];
        let a3 = self.data[2];
        let b1 = rhs.data[0];
        let b2 = rhs.data[1];
        let b3 = rhs.data[2];
        Self { data: [a2 * b3 - a3 * b2, a3 * b1 - a1 * b3, a1 * b2 - a2 * b1] }
    }
}

// ----- access -----

impl<T, const N: usize> vstd::std_specs::core::IndexSpecImpl<usize> for Vector<T, N> {
    open spec fn index_req(&self, index: &usize) -> bool {
        *index < N
    }
}

impl<T, const N: usize> core::ops::Index<usize> for Vector<T, N> {
    type Output = T;

    /// Component `idx`.
    fn index(&self, idx: usize) -> (r: &T)
        ensures
            *r == self@[idx as int],
    {
        &self.data[idx]
    }
}

impl<T: Copy, const N: usize> Vector<T, N> {
    /// An iterator over the components, first to last.
    pub fn iter(&self) -> (r: core::slice::Iter<'_, T>)
        ensures
            vstd::std_specs::slice::into_iter_elts(r) == self@,
    {
        let r = self.data.as_slice().iter();
        assert(vstd::std_specs::slice::into_iter_elts(r) =~= self@);
        r
    }

    /// The components in a growable vector, first to last.
    pub fn to_vec(&self) -> (r: Vec<T>)
        ensures
            r@ == self@,
    {
        let mut out: Vec<T> = Vec::new();
        let mut i: usize = 0;
        while i < N
            invariant
                0 <= i <= N,
                out@ == self@.subrange(0, i as int),
            decreases N - i,
        {
            out.push(self.data[i]);
            assert(out@ =~= self@.subrange(0, i + 1));
            i += 1;
        }
        assert(out@ =~= self@);
        out
    }
}

impl<T, const N: usize> core::ops::IndexMut<usize> for Vector<T, N> {
    /// Component `idx`, to be written.
    fn index_mut(&mut self, idx: usize) -> (r: &mut T)
        requires
            idx < N,
        ensures
            *r == old(self)@[idx as int],
            final(self)@ == old(self)@.update(idx as int, *final(r)),
    {
        &mut self.data[idx]
    }
}

// ----- text -----

/// `cells` are the texts that the scalar type gives for the values `a`.
pub open spec fn are_shown<T: core::fmt::Display>(a: Seq<T>, cells: Seq<String>) -> bool {
    cells.len() == a.len() && forall|i: int|
        0 <= i < a.len() ==> #[trigger] to_string_from_display_ensures::<T>(&a[i], cells[i])
}

impl<T: core::fmt::Display, const N: usize> Vector<T, N> {
    /// The text of each component, as the scalar type shows it.
    pub fn shown(&self) -> (r: Vec<String>)
        ensures
            are_shown(self@, r@),
    {
        let mut cells: Vec<String> = Vec::new();
        let mut i: usize = 0;
        while i < N
            invariant
                0 <= i <= N,
                are_shown(self@.subrange(0, i as int), cells@),
            decreases N - i,
        {
            let cell = self.data[i].to_string();
            cells.push(cell);
            i += 1;
        }
        assert(self@.subrange(0, N as int) =~= self@);
        cells
    }

    /// The vector as text: the components separated by one space, in square
    /// brackets, each as the scalar type shows it.
    pub fn to_text(&self) -> (r: String)
        ensures
            exists|cells: Seq<String>| are_shown(self@, cells) && r@ == #[trigger] vector_text(texts(cells)),
    {
        let cells = self.shown();
        let r = format_vector(&cells);
        assert(are_shown(self@, cells@) && r@ == vector_text(texts(cells@)));
        r
    }
}

} // verus!
