use matrslab::coordinate::Cartesian;
use matrslab::numerical_methods::integration::{EulerIntegrate, Rk4Integrate, TrapezoidalIntegrate};
use matrslab::Vector;

#[test]
fn euler_step_is_the_rate_times_the_step() {
    let rate = Vector::new([1.0, -2.0, 4.0]);
    assert_eq!(rate.integrate_euler(0.5).data, [0.5, -1.0, 2.0]);
    let rate: Cartesian<f64, ()> = Cartesian::new(1.0, -2.0, 4.0);
    assert_eq!(rate.integrate_euler(0.5).data.data, [0.5, -1.0, 2.0]);
}

#[test]
fn trapezoidal_step_is_the_mean_rate_times_the_step() {
    let now = Vector::new([1.0, 2.0]);
    let last = Vector::new([3.0, -2.0]);
    assert_eq!(now.integrate_trapezoidal(&last, 0.5).data, [1.0, 0.0]);
    assert_eq!(now.trapezoid_with(&last, 0.25, 2.0).data, [2.0, 0.0]);
    let now: Cartesian<f64, ()> = Cartesian::new(1.0, 2.0, 0.0);
    let last: Cartesian<f64, ()> = Cartesian::new(3.0, -2.0, 8.0);
    assert_eq!(now.integrate_trapezoidal(&last, 0.5).data.data, [1.0, 0.0, 2.0]);
}

#[test]
fn rk4_step_formula() {
    // With a constant derivative every slope is the same and the step is exact.
    let s = Vector::new([1.0, 2.0]);
    let r = s.integrate_rk4(|_| Vector::new([3.0, -6.0]), 0.5);
    assert_eq!(r.data, [2.5, -1.0]);
    // s' = s, one step of size 1 from 1: 1 + 1 + 1/2 + 1/6 + 1/24.
    let r = Vector::new([24.0]).integrate_rk4(|s| *s, 1.0);
    assert_eq!(r.data, [65.0]);
    let k = Vector::new([1_i64, 2]);
    assert_eq!(Vector::new([10_i64, 20]).rk4_advance(&k, 3).data, [13, 26]);
    assert_eq!(
        Vector::new([100_i64]).rk4_combine(
            &Vector::new([1]),
            &Vector::new([2]),
            &Vector::new([3]),
            &Vector::new([4]),
            10
        ).data,
        [100 + (1 + 2 + 2 + 3 + 3 + 4) * 10]
    );
    assert_eq!(
        Vector::new([100_i64]).rk4_combine_weighted(
            &Vector::new([1]),
            &Vector::new([2]),
            &Vector::new([3]),
            &Vector::new([4]),
            2,
            10
        ).data,
        [100 + (1 + 2 * 2 + 3 * 2 + 4) * 10]
    );
}

#[test]
fn rk4_on_cartesian_coordinates() {
    let s: Cartesian<f64, ()> = Cartesian::new(24.0, 48.0, 0.0);
    let r = s.integrate_rk4(|s| *s, 1.0);
    assert_eq!(r.data.data, [65.0, 130.0, 0.0]);
}

#[test]
fn rk4_matches_the_exponential_on_a_linear_equation() {
    // s' = k s has the solution s(t) = s(0) exp(k t).
    for k in [-2.0_f64, -0.5, 0.3, 1.0] {
        let f = move |s: &Vector<f64, 1>| *s * k;
        let start = Vector::new([1.5]);
        // One step against the exact value: the error is of the order of dt to the fifth.
        for dt in [0.1_f64, 0.05, 0.025] {
            let one_step = start.integrate_rk4(f, dt);
            let exact = 1.5 * (k * dt).exp();
            let bound = 1.5 * (k.abs() * dt).powi(5) / 100.0;
            assert!((one_step.data[0] - exact).abs() <= bound);
        }
        // And against many fine steps over the same interval.
        let coarse = start.integrate_rk4(f, 0.1);
        let mut fine = start;
        for _ in 0..1000 {
            fine = fine.integrate_rk4(f, 0.0001);
        }
        assert!((coarse.data[0] - fine.data[0]).abs() <= 1e-5);
    }
}

#[test]
fn halving_the_step_divides_the_rk4_error_by_about_thirty_two() {
    let f = |s: &Vector<f64, 1>| *s * -1.0;
    let start = Vector::new([1.0]);
    let e1 = (start.integrate_rk4(f, 0.2).data[0] - (-0.2_f64).exp()).abs();
    let e2 = (start.integrate_rk4(f, 0.1).data[0] - (-0.1_f64).exp()).abs();
    let ratio = e1 / e2;
    assert!(ratio > 25.0 && ratio < 40.0);
}
