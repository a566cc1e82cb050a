//! The explicit Euler step.
use crate::coordinate::cartesian::Cartesian;
use crate::math::vector::{seq_scaled, Vector};
use core::ops::Mul;
use vstd::prelude::*;
use vstd::std_specs::ops::MulSpec;

verus! {

/// A rate of change that can be turned into an increment over a time step.
pub trait EulerIntegrate<T>: Sized {
    /// The step can be taken.
    spec fn euler_req(&self, dt: T) -> bool;

    /// The implementation returns what `euler_spec` says.
    spec fn euler_obeys() -> bool;

    /// The increment `self * dt`.
    spec fn euler_spec(&self, dt: T) -> Self;

    /// The increment over the time step `dt` at the rate `self`: `self * dt`.
    fn integrate_euler(&self, dt: T) -> (r: Self)
        requires
            self.euler_req(dt),
        ensures
            Self::euler_obeys() ==> r == self.euler_spec(dt),
    ;
}

impl<T: Mul<Output = T> + Copy, const N: usize> EulerIntegrate<T> for Vector<T, N> {
    open spec fn euler_req(&self, dt: T) -> bool {
        forall|i: int| 0 <= i < N ==> #[trigger] self@[i].mul_req(dt)
    }

    open spec fn euler_obeys() -> bool {
        T::obeys_mul_spec()
    }

    open spec fn euler_spec(&self, dt: T) -> Self {
        Self::of_view(seq_scaled(self@, dt))
    }

    /// Every component times `dt`.
    fn integrate_euler(&self, dt: T) -> (r: Self)
        ensures
            T::obeys_mul_spec() ==> r@ == seq_scaled(self@, dt),
    {
        let r = *self * dt;
        proof {
            Self::lemma_of_view(r);
        }
        r
    }
}

impl<T: Mul<Output = T> + Copy, RF> EulerIntegrate<T> for Cartesian<T, RF> {
    open spec fn euler_req(&self, dt: T) -> bool {
        forall|i: int| 0 <= i < 3 ==> #[trigger] self@[i].mul_req(dt)
    }

    open spec fn euler_obeys() -> bool {
        T::obeys_mul_spec()
    }

    open spec fn euler_spec(&self, dt: T) -> Self {
        Self::of_view(seq_scaled(self@, dt))
    }

    /// Every coordinate times `dt`, in the same frame.
    fn integrate_euler(&self, dt: T) -> (r: Self)
        ensures
            T::obeys_mul_spec() ==> r@ == seq_scaled(self@, dt),
    {
        let r = *self * dt;
        proof {
            Self::lemma_of_view(r);
        }
        r
    }
}

} // verus!
