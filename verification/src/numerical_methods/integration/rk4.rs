//! The classic fourth-order Runge-Kutta step.
use crate::coordinate::cartesian::Cartesian;
use crate::math::vector::{seq_plus, seq_plus_req, seq_scaled, seq_scaled_req, Vector};
use crate::scalar::{add_total, div_total, mul_total, runs};
use core::marker::PhantomData;
use core::ops::{Add, Div, Mul};
use vstd::prelude::*;
use vstd::std_specs::convert::FromSpec;
use vstd::std_specs::ops::{AddSpec, DivSpec, MulSpec};

verus! {

/// A state that can be advanced over a time step, given its derivative.
pub trait Rk4Integrate<T>: Sized {
    /// The arithmetic of the step can be done.
    spec fn rk4_req(&self, dt: T) -> bool;

    /// The implementation's arithmetic returns what `rk4_stage` and
    /// `rk4_result` say.
    spec fn rk4_obeys() -> bool;

    /// Half of the step `dt`.
    spec fn rk4_half(dt: T) -> T;

    /// The state advanced along the slope `k` by the step `h`: `self + k * h`.
    spec fn rk4_stage(&self, k: &Self, h: T) -> Self;

    /// The state after the step, from the four slopes:
    /// `self + (k1 + 2 k2 + 2 k3 + k4) * dt / 6`.
    spec fn rk4_result(&self, k1: &Self, k2: &Self, k3: &Self, k4: &Self, dt: T) -> Self;

    /// The state after the time step `dt`, with `f` the derivative of a state:
    /// `k1 = f(s)`, `k2 = f(s + k1 dt/2)`, `k3 = f(s + k2 dt/2)`,
    /// `k4 = f(s + k3 dt)`, and the result `s + (k1 + 2 k2 + 2 k3 + k4) dt/6`.
    fn integrate_rk4<F: Fn(&Self) -> Self>(&self, f: F, dt: T) -> (r: Self)
        requires
            self.rk4_req(dt),
            forall|s: Self| #[trigger] f.requires((&s,)),
        ensures
            Self::rk4_obeys() ==> exists|k1: Self, k2: Self, k3: Self, k4: Self|
                {
                    &&& f.ensures((self,), k1)
                    &&& f.ensures((&self.rk4_stage(&k1, Self::rk4_half(dt)),), k2)
                    &&& f.ensures((&self.rk4_stage(&k2, Self::rk4_half(dt)),), k3)
                    &&& f.ensures((&self.rk4_stage(&k3, dt),), k4)
                    &&& r == #[trigger] self.rk4_result(&k1, &k2, &k3, &k4, dt)
                },
    ;
}

/// The state `s` advanced along the slope `k` by the step `h`: `s + k * h`.
pub open spec fn stage_seq<T: Add<Output = T> + Mul<Output = T>>(s: Seq<T>, k: Seq<T>, h: T) -> Seq<
    T,
> {
    seq_plus(s, seq_scaled(k, h))
}

/// The weighted sum of the four slopes, `k1 + k2 + k2 + k3 + k3 + k4`, added
/// from the left.
pub open spec fn rk4_slopes<T: Add<Output = T>>(
    k1: Seq<T>,
    k2: Seq<T>,
    k3: Seq<T>,
    k4: Seq<T>,
) -> Seq<T> {
    seq_plus(seq_plus(seq_plus(seq_plus(seq_plus(k1, k2), k2), k3), k3), k4)
}

/// The state after the step: `s + (k1 + k2 + k2 + k3 + k3 + k4) * sixth`.
pub open spec fn result_seq<T: Add<Output = T> + Mul<Output = T>>(
    s: Seq<T>,
    k1: Seq<T>,
    k2: Seq<T>,
    k3: Seq<T>,
    k4: Seq<T>,
    sixth: T,
) -> Seq<T> {
    stage_seq(s, rk4_slopes(k1, k2, k3, k4), sixth)
}

/// Every sum and product of `stage_seq(s, k, h)` is admitted.
pub open spec fn rk4_stage_defined<T: Add<Output = T> + Mul<Output = T>>(
    s: Seq<T>,
    k: Seq<T>,
    h: T,
) -> bool {
    seq_scaled_req(k, h) && seq_plus_req(s, seq_scaled(k, h))
}

/// Every sum and product of `result_seq(s, k1, k2, k3, k4, sixth)` is admitted.
pub open spec fn rk4_result_defined<T: Add<Output = T> + Mul<Output = T>>(
    s: Seq<T>,
    k1: Seq<T>,
    k2: Seq<T>,
    k3: Seq<T>,
    k4: Seq<T>,
    sixth: T,
) -> bool {
    let s1 = seq_plus(k1, k2);
    let s2 = seq_plus(s1, k2);
    let s3 = seq_plus(s2, k3);
    let s4 = seq_plus(s3, k3);
    &&& seq_plus_req(k1, k2)
    &&& seq_plus_req(s1, k2)
    &&& seq_plus_req(s2, k3)
    &&& seq_plus_req(s3, k3)
    &&& seq_plus_req(s4, k4)
    &&& rk4_stage_defined(s, rk4_slopes(k1, k2, k3, k4), sixth)
}

impl<T: Add<Output = T> + Mul<Output = T> + Copy, const N: usize> Vector<T, N> {
    /// The state advanced along the slope `k` by the step `h`: `self + k * h`.
    pub fn rk4_advance(&self, k: &Self, h: T) -> (r: Self)
        requires
            runs(
                add_total::<T>() && mul_total::<T>(),
                T::obeys_add_spec() && T::obeys_mul_spec(),
                rk4_stage_defined(self@, k@, h),
            ),
        ensures
            T::obeys_add_spec() && T::obeys_mul_spec() ==> r@ == stage_seq(self@, k@, h),
    {
        assert forall|i: int| 0 <= i < N implies #[trigger] k@[i].mul_req(h) by {}
        let scaled = *k * h;
        assert forall|i: int| 0 <= i < N implies #[trigger] self@[i].add_req(scaled@[i]) by {
            if !(add_total::<T>() && mul_total::<T>()) {
                assert(seq_plus_req(self@, seq_scaled(k@, h)));
            }
        }
        *self + scaled
    }

    /// The state after the step, from the four slopes and a sixth of the step:
    /// `self + (k1 + k2 + k2 + k3 + k3 + k4) * sixth`.
    pub fn rk4_combine(&self, k1: &Self, k2: &Self, k3: &Self, k4: &Self, sixth: T) -> (r: Self)
        requires
            runs(
                add_total::<T>() && mul_total::<T>(),
                T::obeys_add_spec() && T::obeys_mul_spec(),
                rk4_result_defined(self@, k1@, k2@, k3@, k4@, sixth),
            ),
        ensures
            T::obeys_add_spec() && T::obeys_mul_spec() ==> r@ == result_seq(
                self@,
                k1@,
                k2@,
                k3@,
                k4@,
                sixth,
            ),
    {
        let ghost total = add_total::<T>() && mul_total::<T>();
        assert forall|i: int| 0 <= i < N implies #[trigger] k1@[i].add_req(k2@[i]) by {}
        let s1 = *k1 + *k2;
        assert forall|i: int| 0 <= i < N implies #[trigger] s1@[i].add_req(k2@[i]) by {
            if !total {
                assert(seq_plus_req(seq_plus(k1@, k2@), k2@));
            }
        }
        let s2 = s1 + *k2;
        assert forall|i: int| 0 <= i < N implies #[trigger] s2@[i].add_req(k3@[i]) by {
            if !total {
                assert(seq_plus_req(seq_plus(seq_plus(k1@, k2@), k2@), k3@));
            }
        }
        let s3 = s2 + *k3;
        assert forall|i: int| 0 <= i < N implies #[trigger] s3@[i].add_req(k3@[i]) by {
            if !total {
                assert(seq_plus_req(seq_plus(seq_plus(seq_plus(k1@, k2@), k2@), k3@), k3@));
            }
        }
        let s4 = s3 + *k3;
        assert forall|i: int| 0 <= i < N implies #[trigger] s4@[i].add_req(k4@[i]) by {
            if !total {
                assert(seq_plus_req(
                    seq_plus(seq_plus(seq_plus(seq_plus(k1@, k2@), k2@), k3@), k3@),
                    k4@,
                ));
            }
        }
        let slopes = s4 + *k4;
        self.rk4_advance(&slopes, sixth)
    }
}

impl<T: Add<Output = T> + Mul<Output = T> + Div<Output = T> + Copy + From<u8>, const N: usize> Rk4Integrate<T> for Vector<T, N> {
    open spec fn rk4_req(&self, dt: T) -> bool {
        add_total::<T>() && mul_total::<T>() && div_total::<T>()
    }

    open spec fn rk4_obeys() -> bool {
        T::obeys_add_spec() && T::obeys_mul_spec() && T::obeys_div_spec() && T::obeys_from_spec()
    }

    open spec fn rk4_half(dt: T) -> T {
        dt.div_spec(T::from_spec(2u8))
    }

    open spec fn rk4_stage(&self, k: &Self, h: T) -> Self {
        Self::of_view(stage_seq(self@, k@, h))
    }

    open spec fn rk4_result(&self, k1: &Self, k2: &Self, k3: &Self, k4: &Self, dt: T) -> Self {
        Self::of_view(result_seq(self@, k1@, k2@, k3@, k4@, dt.div_spec(T::from_spec(6u8))))
    }

    /// One Runge-Kutta step of the state `self`, with the scalars two and six
    /// made from the integers.
    fn integrate_rk4<F: Fn(&Self) -> Self>(&self, f: F, dt: T) -> (r: Self) {
        let half = dt / T::from(2u8);
        let sixth = dt / T::from(6u8);
        let k1 = f(self);
        let s2 = self.rk4_advance(&k1, half);
        let k2 = f(&s2);
        let s3 = self.rk4_advance(&k2, half);
        let k3 = f(&s3);
        let s4 = self.rk4_advance(&k3, dt);
        let k4 = f(&s4);
        let r = self.rk4_combine(&k1, &k2, &k3, &k4, sixth);
        proof {
            if T::obeys_add_spec() && T::obeys_mul_spec() && T::obeys_div_spec()
                && T::obeys_from_spec() {
                Self::lemma_of_view(s2);
                Self::lemma_of_view(s3);
                Self::lemma_of_view(s4);
                Self::lemma_of_view(r);
                assert(f.ensures((self,), k1));
                assert(f.ensures((&self.rk4_stage(&k1, Self::rk4_half(dt)),), k2));
                assert(f.ensures((&self.rk4_stage(&k2, Self::rk4_half(dt)),), k3));
                assert(f.ensures((&self.rk4_stage(&k3, dt),), k4));
                assert(r == self.rk4_result(&k1, &k2, &k3, &k4, dt));
            }
        }
        r
    }
}

// ----- Cartesian coordinates as a state -----

/// The weighted sum of the four slopes, `k1 + k2 * two + k3 * two + k4`, added
/// from the left.
pub open spec fn weighted_slopes<T: Add<Output = T> + Mul<Output = T>>(
    k1: Seq<T>,
    k2: Seq<T>,
    k3: Seq<T>,
    k4: Seq<T>,
    two: T,
) -> Seq<T> {
    seq_plus(seq_plus(seq_plus(k1, seq_scaled(k2, two)), seq_scaled(k3, two)), k4)
}

/// Every sum and product of `s + weighted_slopes(k1, k2, k3, k4, two) * sixth`
/// is admitted.
pub open spec fn weighted_result_defined<T: Add<Output = T> + Mul<Output = T>>(
    s: Seq<T>,
    k1: Seq<T>,
    k2: Seq<T>,
    k3: Seq<T>,
    k4: Seq<T>,
    two: T,
    sixth: T,
) -> bool {
    let d2 = seq_scaled(k2, two);
    let d3 = seq_scaled(k3, two);
    let s1 = seq_plus(k1, d2);
    let s2 = seq_plus(s1, d3);
    &&& seq_scaled_req(k2, two)
    &&& seq_scaled_req(k3, two)
    &&& seq_plus_req(k1, d2)
    &&& seq_plus_req(s1, d3)
    &&& seq_plus_req(s2, k4)
    &&& rk4_stage_defined(s, weighted_slopes(k1, k2, k3, k4, two), sixth)
}

impl<T: Add<Output = T> + Mul<Output = T> + Copy, const N: usize> Vector<T, N> {
    /// The state after the step, from the four slopes, the scalar two and a
    /// sixth of the step: `self + (k1 + k2 * two + k3 * two + k4) * sixth`.
    pub fn rk4_combine_weighted(
        &self,
        k1: &Self,
        k2: &Self,
        k3: &Self,
        k4: &Self,
        two: T,
        sixth: T,
    ) -> (r: Self)
        requires
            runs(
                add_total::<T>() && mul_total::<T>(),
                T::obeys_add_spec() && T::obeys_mul_spec(),
                weighted_result_defined(self@, k1@, k2@, k3@, k4@, two, sixth),
            ),
        ensures
            T::obeys_add_spec() && T::obeys_mul_spec() ==> r@ == stage_seq(
                self@,
                weighted_slopes(k1@, k2@, k3@, k4@, two),
                sixth,
            ),
    {
        let ghost total = add_total::<T>() && mul_total::<T>();
        assert forall|i: int| 0 <= i < N implies #[trigger] k2@[i].mul_req(two) by {}
        let d2 = *k2 * two;
        assert forall|i: int| 0 <= i < N implies #[trigger] k3@[i].mul_req(two) by {}
        let d3 = *k3 * two;
        assert forall|i: int| 0 <= i < N implies #[trigger] k1@[i].add_req(d2@[i]) by {
            if !total {
                assert(seq_plus_req(k1@, seq_scaled(k2@, two)));
            }
        }
        let s1 = *k1 + d2;
        assert forall|i: int| 0 <= i < N implies #[trigger] s1@[i].add_req(d3@[i]) by {
            if !total {
                assert(seq_plus_req(seq_plus(k1@, seq_scaled(k2@, two)), seq_scaled(k3@, two)));
            }
        }
        let s2 = s1 + d3;
        assert forall|i: int| 0 <= i < N implies #[trigger] s2@[i].add_req(k4@[i]) by {
            if !total {
                assert(seq_plus_req(
                    seq_plus(seq_plus(k1@, seq_scaled(k2@, two)), seq_scaled(k3@, two)),
                    k4@,
                ));
            }
        }
        let slopes = s2 + *k4;
        self.rk4_advance(&slopes, sixth)
    }
}

impl<T: Add<Output = T> + Mul<Output = T> + Div<Output = T> + Copy + From<u8>, RF> Rk4Integrate<T> for Cartesian<T, RF> {
    open spec fn rk4_req(&self, dt: T) -> bool {
        add_total::<T>() && mul_total::<T>() && div_total::<T>()
    }

    open spec fn rk4_obeys() -> bool {
        T::obeys_add_spec() && T::obeys_mul_spec() && T::obeys_div_spec() && T::obeys_from_spec()
    }

    open spec fn rk4_half(dt: T) -> T {
        dt.div_spec(T::from_spec(2u8))
    }

    open spec fn rk4_stage(&self, k: &Self, h: T) -> Self {
        Self::of_view(stage_seq(self@, k@, h))
    }

    open spec fn rk4_result(&self, k1: &Self, k2: &Self, k3: &Self, k4: &Self, dt: T) -> Self {
        Self::of_view(
            stage_seq(
                self@,
                weighted_slopes(k1@, k2@, k3@, k4@, T::from_spec(2u8)),
                dt.div_spec(T::from_spec(6u8)),
            ),
        )
    }

    /// One Runge-Kutta step of the coordinates `self`, in the same frame.
    fn integrate_rk4<F: Fn(&Self) -> Self>(&self, f: F, dt: T) -> (r: Self) {
        let half_dt = dt / T::from(2u8);
        let sixth_dt = dt / T::from(6u8);
        let k1 = f(self);
        let s2 = Cartesian { data: self.data.rk4_advance(&k1.data, half_dt), _reference_frame: PhantomData };
        let k2 = f(&s2);
        let s3 = Cartesian { data: self.data.rk4_advance(&k2.data, half_dt), _reference_frame: PhantomData };
        let k3 = f(&s3);
        let s4 = Cartesian { data: self.data.rk4_advance(&k3.data, dt), _reference_frame: PhantomData };
        let k4 = f(&s4);
        let r = Cartesian {
            data: self.data.rk4_combine_weighted(
                &k1.data,
                &k2.data,
                &k3.data,
                &k4.data,
                T::from(2u8),
                sixth_dt,
            ),
            _reference_frame: PhantomData,
        };
        proof {
            if T::obeys_add_spec() && T::obeys_mul_spec() && T::obeys_div_spec()
                && T::obeys_from_spec() {
                Self::lemma_of_view(s2);
                Self::lemma_of_view(s3);
                Self::lemma_of_view(s4);
                Self::lemma_of_view(r);
                assert(f.ensures((self,), k1));
                assert(f.ensures((&self.rk4_stage(&k1, Self::rk4_half(dt)),), k2));
                assert(f.ensures((&self.rk4_stage(&k2, Self::rk4_half(dt)),), k3));
                assert(f.ensures((&self.rk4_stage(&k3, dt),), k4));
                assert(r == self.rk4_result(&k1, &k2, &k3, &k4, dt));
            }
        }
        r
    }
}

} // verus!
