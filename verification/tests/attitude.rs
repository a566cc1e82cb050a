use matrslab::attitude::{AttitudeError, DirectionCosineMatrix, Euler, Pivot, Quaternion, Rotation};
use matrslab::{Matrix, Vector};

const EPSILON: f64 = 1e-6;

fn matrices_approx_eq(a: &Matrix<f64, 3, 3>, b: &Matrix<f64, 3, 3>, epsilon: f64) -> bool {
    let mut ok = true;
    for r in 0..3 {
        for c in 0..3 {
            let diff = (a.data[r][c] - b.data[r][c]).abs();
            if diff > epsilon {
                println!(
                    "Mismatch at ({}, {}): a = {:?}, b = {:?}, diff = {:?}",
                    r, c, a.data[r][c], b.data[r][c], diff
                );
                ok = false;
            }
        }
    }
    ok
}

fn check_round_trip(dcm: DirectionCosineMatrix<f64>, epsilon: f64) {
    let q: Quaternion<f64> = Quaternion::try_from_dcm(&dcm).unwrap();
    let q_n = q.normalized();
    let dcm_rt = DirectionCosineMatrix::from_quaternion(q_n);
    assert!(matrices_approx_eq(dcm.as_matrix(), dcm_rt.as_matrix(), epsilon));
}

#[test]
fn test_dcm_c1_quaternion_roundtrip() {
    let dcm1 = Matrix {
        data: [[0.0, -1.0, 0.0], [1.0, 0.0, 0.0], [0.0, 0.0, 1.0]],
    };
    check_round_trip(DirectionCosineMatrix::from(&dcm1), EPSILON);
}

#[test]
fn test_dcm_c2_quaternion_roundtrip() {
    let dcm2: Matrix<f64, 3, 3> = Matrix {
        data: [[0.0, 0.0, 1.0], [0.0, -1.0, 0.0], [1.0, 0.0, 0.0]],
    };
    check_round_trip(DirectionCosineMatrix::from(&dcm2), EPSILON);
}

#[test]
fn test_dcm_c3_quaternion_roundtrip() {
    let dcm3 = Matrix {
        data: [[-1.0, 0.0, 0.0], [0.0, 1.0, 0.0], [0.0, 0.0, -1.0]],
    };
    check_round_trip(DirectionCosineMatrix::from(&dcm3), EPSILON);
}

#[test]
fn test_dcm_c4_quaternion_roundtrip() {
    let dcm4 = Matrix {
        data: [[-1.0, 0.0, 0.0], [0.0, -1.0, 0.0], [0.0, 0.0, 1.0]],
    };
    check_round_trip(DirectionCosineMatrix::from(&dcm4), EPSILON);
}

#[test]
fn test_dcm_euler_roundtrip() {
    let angles = [0.5_f64, 0.0, 0.0];
    let euler = Euler::new(angles[0], angles[1], angles[2]);
    let dcm = DirectionCosineMatrix::from_euler(euler);
    let back = Euler::from_dcm(&dcm);
    assert!((euler.data.data[0] - back.data.data[0]).abs() <= 1e-10);
    assert!((euler.data.data[1] - back.data.data[1]).abs() <= 1e-10);
    assert!((euler.data.data[2] - back.data.data[2]).abs() <= 1e-10);
}

#[test]
fn test_quaternion_euler_roundtrip() {
    let q = Quaternion::new(0.9_f64, 0.1, 0.2, 0.3).normalized();
    let euler = Euler::from_quaternion(&q);
    let q_back = Quaternion::from_euler(&euler).normalized();

    for i in 0..4 {
        let orig = q.data[i];
        let back = q_back.data[i];
        let diff = (orig - back).abs();

        assert!(
            diff <= EPSILON,
            "Mismatch at index {}: original = {}, recovered = {}, diff = {}",
            i,
            orig,
            back,
            diff
        );
    }
}

#[test]
fn test_quaternion_dcm_roundtrip() {
    let q = Quaternion::new(0.9_f64, 0.1, 0.2, 0.3).normalized();
    let dcm = DirectionCosineMatrix::from_quaternion(q);
    let q_back = Quaternion::try_from_dcm(&dcm).unwrap().normalized();

    for i in 0..4 {
        let orig = q.data[i];
        let back = q_back.data[i];
        let diff = (orig - back).abs();

        assert!(
            diff <= EPSILON,
            "Mismatch at index {}: original = {}, recovered = {}, diff = {}",
            i,
            orig,
            back,
            diff
        );
    }
}

#[test]
fn test_dcm_quaternion_roundtrip() {
    let original = DirectionCosineMatrix::new(
        0.306185853,
        -0.250000803,
        0.918557021,
        0.8838825,
        0.433011621,
        -0.176776249,
        -0.35355216,
        0.866024084,
        0.353553866,
    );
    let q = Quaternion::try_from_dcm(&original).unwrap();
    println!("Q: {:?}", q);
    let dcm_back = DirectionCosineMatrix::from_quaternion(q);
    assert!(matrices_approx_eq(
        original.as_matrix(),
        dcm_back.as_matrix(),
        EPSILON,
    ));
}

#[test]
fn test_euler_dcm_roundtrip() {
    let euler = Euler::new(-0.5, 0.1, 0.2);
    let dcm1 = DirectionCosineMatrix::from_euler(euler);
    let euler_back = Euler::from_dcm(&dcm1);
    let dcm2 = DirectionCosineMatrix::from_euler(euler_back);

    assert!(matrices_approx_eq(dcm1.as_matrix(), dcm2.as_matrix(), 0.1));
}

#[test]
fn test_euler_quaternion_roundtrip() {
    let euler = Euler::new(-0.5, 0.1, 0.2);
    let quat = Quaternion::from_euler(&euler);
    let euler_back = Euler::from_quaternion(&quat);

    let tol = 1e-6;
    for i in 0..3 {
        let original = euler.data.data[i];
        let recovered = euler_back.data.data[i];

        let diff = (original - recovered + std::f64::consts::PI) % (2.0 * std::f64::consts::PI)
            - std::f64::consts::PI;

        assert!(
            diff.abs() <= tol,
            "Mismatch at index {}: original = {}, recovered = {}, diff = {}",
            i,
            original,
            recovered,
            diff
        );
    }
}

// ----- Shepperd's method -----

#[test]
fn shepperd_selects_each_pivot_in_turn() {
    let scalar = Matrix { data: [[0.0, -1.0, 0.0], [1.0, 0.0, 0.0], [0.0, 0.0, 1.0]] };
    let i = Matrix { data: [[0.0, 0.0, 1.0], [0.0, -1.0, 0.0], [1.0, 0.0, 0.0]] };
    let j = Matrix { data: [[-1.0, 0.0, 0.0], [0.0, 1.0, 0.0], [0.0, 0.0, -1.0]] };
    let k = Matrix { data: [[-1.0, 0.0, 0.0], [0.0, -1.0, 0.0], [0.0, 0.0, 1.0]] };
    assert_eq!(Quaternion::shepperd_select(&scalar, 1.0_f64), Some((Pivot::Scalar, 0.5)));
    assert_eq!(Quaternion::shepperd_select(&i, 1.0_f64), Some((Pivot::I, 0.5)));
    assert_eq!(Quaternion::shepperd_select(&j, 1.0_f64), Some((Pivot::J, 0.5)));
    assert_eq!(Quaternion::shepperd_select(&k, 1.0_f64), Some((Pivot::K, 0.5)));
}

#[test]
fn shepperd_threshold_is_strict() {
    // 1 + m00 + m11 + m22 is exactly one quarter, the other guards are smaller.
    let m = Matrix { data: [[-0.75, 0.0, 0.0], [0.0, 0.0, 0.0], [0.0, 0.0, 0.0]] };
    assert_eq!(Quaternion::shepperd_select(&m, 1.0_f64), None);
}

#[test]
fn shepperd_solve_uses_the_root_as_pivot() {
    let m = Matrix { data: [[1.0, 2.0, 3.0], [4.0, 5.0, 6.0], [7.0, 8.0, 9.0]] };
    let q = Quaternion::shepperd_solve(&m, 1.0_f64, Pivot::Scalar, 0.5);
    assert_eq!(q.data.data, [0.5, (6.0 - 8.0) / 2.0, (7.0 - 3.0) / 2.0, (2.0 - 4.0) / 2.0]);
    let q = Quaternion::shepperd_solve(&m, 1.0_f64, Pivot::I, 0.5);
    assert_eq!(q.data.data, [(6.0 - 8.0) / 2.0, 0.5, (2.0 + 4.0) / 2.0, (7.0 + 3.0) / 2.0]);
    let q = Quaternion::shepperd_solve(&m, 1.0_f64, Pivot::J, 0.5);
    assert_eq!(q.data.data, [(7.0 - 3.0) / 2.0, (2.0 + 4.0) / 2.0, 0.5, (6.0 + 8.0) / 2.0]);
    let q = Quaternion::shepperd_solve(&m, 1.0_f64, Pivot::K, 0.5);
    assert_eq!(q.data.data, [(2.0 - 4.0) / 2.0, (7.0 + 3.0) / 2.0, (6.0 + 8.0) / 2.0, 0.5]);
}

#[test]
fn no_valid_quaternion_for_a_matrix_that_is_no_rotation() {
    let m = DirectionCosineMatrix::new(-1.0, 0.0, 0.0, 0.0, 0.0, 0.0, 0.0, 0.0, 0.0);
    assert_eq!(Quaternion::try_from_dcm(&m), Err(AttitudeError::NoValidQuaternion));
    assert!(Rotation::try_from_dcm(&m).is_err());
}

#[test]
fn identity_matrix_gives_identity_quaternion() {
    let m: Matrix<f64, 3, 3> = Matrix::identity();
    let q = Quaternion::try_from_dcm(&DirectionCosineMatrix::from_matrix(m)).unwrap();
    assert_eq!(q.data.data, [1.0, 0.0, 0.0, 0.0]);
}

#[test]
fn shepperd_takes_a_square_root() {
    // 1 + m00 + m11 + m22 = 1, so the radicand is a quarter and the root a half.
    let m = DirectionCosineMatrix::new(0.0, 0.0, 0.0, 0.0, 0.0, 0.0, 0.0, 0.0, 0.0);
    let q = Quaternion::try_from_dcm(&m).unwrap();
    assert_eq!(q.data.data, [0.5, 0.0, 0.0, 0.0]);
}

// ----- quaternions -----

#[test]
fn hamilton_product_of_the_units() {
    let i = Quaternion::new(0.0, 1.0, 0.0, 0.0);
    let j = Quaternion::new(0.0, 0.0, 1.0, 0.0);
    let k = Quaternion::new(0.0, 0.0, 0.0, 1.0);
    assert_eq!((i * j).data.data, [0.0, 0.0, 0.0, 1.0]);
    assert_eq!((j * k).data.data, [0.0, 1.0, 0.0, 0.0]);
    assert_eq!((k * i).data.data, [0.0, 0.0, 1.0, 0.0]);
    assert_eq!((j * i).data.data, [0.0, 0.0, 0.0, -1.0]);
    assert_eq!((i * i).data.data, [-1.0, 0.0, 0.0, 0.0]);
}

#[test]
fn hamilton_product_exact_on_integers() {
    let a = Quaternion::new(1_i64, 2, 3, 4);
    let b = Quaternion::new(5_i64, 6, 7, 8);
    assert_eq!((a * b).data.data, [-60, 12, 30, 24]);
    assert_eq!((b * a).data.data, [-60, 20, 14, 32]);
}

#[test]
fn hamilton_product_is_associative_on_unit_quaternions() {
    let q1 = Quaternion::new(0.9_f64, 0.1, 0.2, 0.3).normalized();
    let q2 = Quaternion::new(-0.3, 0.7, 0.1, -0.5).normalized();
    let q3 = Quaternion::new(0.2, -0.4, 0.8, 0.1).normalized();
    let left = (q1 * q2) * q3;
    let right = q1 * (q2 * q3);
    for i in 0..4 {
        assert!((left.data[i] - right.data[i]).abs() <= 1e-10);
    }
}

#[test]
fn hamilton_product_is_associative_on_integers() {
    let q1 = Quaternion::new(1_i64, -2, 3, 4);
    let q2 = Quaternion::new(-5_i64, 6, 7, -8);
    let q3 = Quaternion::new(9_i64, 10, -11, 12);
    assert_eq!(((q1 * q2) * q3).data.data, (q1 * (q2 * q3)).data.data);
}

#[test]
fn quaternion_arithmetic_part_by_part() {
    let a = Quaternion::new(1.0, 2.0, 3.0, 4.0);
    let b = Quaternion::new(0.5, 0.5, 0.5, 0.5);
    assert_eq!((a + b).data.data, [1.5, 2.5, 3.5, 4.5]);
    assert_eq!((a - b).data.data, [0.5, 1.5, 2.5, 3.5]);
    assert_eq!((-a).data.data, [-1.0, -2.0, -3.0, -4.0]);
    assert_eq!((a * 2.0).data.data, [2.0, 4.0, 6.0, 8.0]);
    assert_eq!((a / 2.0).data.data, [0.5, 1.0, 1.5, 2.0]);
}

#[test]
fn quaternion_norm_and_normalized() {
    let q = Quaternion::new(1.0_f64, 2.0, 2.0, 4.0);
    assert_eq!(q.norm(), 5.0);
    assert_eq!(q.normalized().data.data, [0.2, 0.4, 0.4, 0.8]);
    assert_eq!(Quaternion::<f64>::identity().data.data, [1.0, 0.0, 0.0, 0.0]);
}

#[test]
fn unit_check_for_a_quaternion() {
    assert!(Quaternion::new(0.6_f64, 0.0, 0.8, 0.0).is_unit_within(1e-12));
    assert!(!Quaternion::new(0.6_f64, 0.1, 0.8, 0.0).is_unit_within(1e-3));
    assert!(Quaternion::new(0.6_f64, 0.1, 0.8, 0.0).is_unit_within(1e-2));
    assert!(!Quaternion::new(0.0_f64, 0.0, 0.0, 0.0).is_unit_within(0.5));
}

#[test]
fn normalizing_the_zero_quaternion_gives_no_number() {
    let q = Quaternion::new(0.0_f64, 0.0, 0.0, 0.0).normalized();
    for i in 0..4 {
        assert!(q.data[i].is_nan());
    }
}

#[test]
fn quaternion_from_half_angles_formula() {
    let q = Quaternion::from_half_angles(2.0, 3.0, 5.0, 7.0, 11.0, 13.0);
    assert_eq!(
        q.data.data,
        [
            2.0 * 5.0 * 11.0 + 3.0 * 7.0 * 13.0,
            3.0 * 5.0 * 11.0 - 2.0 * 7.0 * 13.0,
            2.0 * 7.0 * 11.0 + 3.0 * 5.0 * 13.0,
            2.0 * 5.0 * 13.0 - 3.0 * 7.0 * 11.0,
        ]
    );
}

#[test]
fn quaternion_from_euler_about_one_axis() {
    let q = Quaternion::from_euler(&Euler::new(std::f64::consts::FRAC_PI_2, 0.0, 0.0));
    let h = std::f64::consts::FRAC_1_SQRT_2;
    assert!((q.data[0] - h).abs() <= 1e-15);
    assert!((q.data[1] - h).abs() <= 1e-15);
    assert_eq!(q.data[2], 0.0);
    assert_eq!(q.data[3], 0.0);
    assert_eq!(Quaternion::half_angles(&Vector::new([1.0, -3.0, 0.5]), 1.0).data, [0.5, -1.5, 0.25]);
}

#[test]
fn quaternion_from_angular_velocity() {
    let still = Quaternion::from_angular_velocity(Vector::new([0.0_f64, 0.0, 0.0]), 3.0);
    assert_eq!(still.data.data, [1.0, 0.0, 0.0, 0.0]);

    // A quarter turn per unit of time about the third axis, for two units: half a turn.
    let omega = Vector::new([0.0, 0.0, std::f64::consts::FRAC_PI_2]);
    let q = Quaternion::from_angular_velocity(omega, 2.0);
    assert!((q.data[0] - 0.0).abs() <= 1e-15);
    assert_eq!(q.data[1], 0.0);
    assert_eq!(q.data[2], 0.0);
    assert!((q.data[3] - 1.0).abs() <= 1e-15);

    assert_eq!(Quaternion::half_turn_angle(3.0, 4.0, 1.0), 6.0);
    let q = Quaternion::from_axis_angle(Vector::new([1.0, 2.0, 3.0]), 0.25, 0.5);
    assert_eq!(q.data.data, [0.25, 0.5, 1.0, 1.5]);
}

// ----- direction cosine matrices -----

#[test]
fn elementary_rotations_have_their_signs() {
    let a = 0.3_f64;
    let (c, s) = (a.cos(), a.sin());
    let x = DirectionCosineMatrix::rotate_x(a);
    assert_eq!(x.as_matrix().data, [[1.0, 0.0, 0.0], [0.0, c, s], [0.0, -s, c]]);
    let y = DirectionCosineMatrix::rotate_y(a);
    assert_eq!(y.as_matrix().data, [[c, 0.0, -s], [0.0, 1.0, 0.0], [s, 0.0, c]]);
    let z = DirectionCosineMatrix::rotate_z(a);
    assert_eq!(z.as_matrix().data, [[c, s, 0.0], [-s, c, 0.0], [0.0, 0.0, 1.0]]);
    let w = DirectionCosineMatrix::rotation_x_with(0_i64, 1, 3, 4);
    assert_eq!(w.as_matrix().data, [[1, 0, 0], [0, 3, 4], [0, -4, 3]]);
    let w = DirectionCosineMatrix::rotation_y_with(0_i64, 1, 3, 4);
    assert_eq!(w.as_matrix().data, [[3, 0, -4], [0, 1, 0], [4, 0, 3]]);
    let w = DirectionCosineMatrix::rotation_z_with(0_i64, 1, 3, 4);
    assert_eq!(w.as_matrix().data, [[3, 4, 0], [-4, 3, 0], [0, 0, 1]]);
}

#[test]
fn dcm_from_euler_is_z_times_y_times_x() {
    let e = Euler::new(0.3_f64, -0.2, 0.7);
    let expected = DirectionCosineMatrix::rotate_z(0.7)
        * DirectionCosineMatrix::rotate_y(-0.2)
        * DirectionCosineMatrix::rotate_x(0.3);
    let got = DirectionCosineMatrix::from_euler(e);
    assert_eq!(got.as_matrix().data, expected.as_matrix().data);
    let composed = DirectionCosineMatrix::compose_zyx(
        DirectionCosineMatrix::rotate_z(0.7),
        DirectionCosineMatrix::rotate_y(-0.2),
        DirectionCosineMatrix::rotate_x(0.3),
    );
    assert_eq!(got.as_matrix().data, composed.as_matrix().data);
}

#[test]
fn dcm_from_quaternion_formula() {
    let q = Quaternion::new(1_i64, 2, 3, 4);
    let m = DirectionCosineMatrix::from_quaternion_with(q, 2, 1, 4, 9, 16);
    assert_eq!(
        m.as_matrix().data,
        [
            [1 + 4 - 9 - 16, 2 * (2 * 3 + 1 * 4), 2 * (2 * 4 - 1 * 3)],
            [2 * (2 * 3 - 1 * 4), 1 - 4 + 9 - 16, 2 * (3 * 4 + 1 * 2)],
            [2 * (2 * 4 + 1 * 3), 2 * (3 * 4 - 1 * 2), 1 - 4 - 9 + 16],
        ]
    );
    let f = DirectionCosineMatrix::from_quaternion(Quaternion::new(1.0, 2.0, 3.0, 4.0));
    assert_eq!(
        f.as_matrix().data,
        [[-20.0, 20.0, 10.0], [4.0, -10.0, 28.0], [22.0, 20.0, 4.0]]
    );
}

#[test]
fn dcm_products() {
    let a = DirectionCosineMatrix::new(1.0, 2.0, 3.0, 4.0, 5.0, 6.0, 7.0, 8.0, 9.0);
    let b = DirectionCosineMatrix::new(0.0, 1.0, 0.0, 1.0, 0.0, 0.0, 0.0, 0.0, 1.0);
    assert_eq!(
        (a * b).as_matrix().data,
        [[2.0, 1.0, 3.0], [5.0, 4.0, 6.0], [8.0, 7.0, 9.0]]
    );
    assert_eq!(
        (a * 2.0).as_matrix().data,
        [[2.0, 4.0, 6.0], [8.0, 10.0, 12.0], [14.0, 16.0, 18.0]]
    );
}

#[test]
fn dcm_product_is_associative() {
    let a = DirectionCosineMatrix::rotate_x(0.3_f64);
    let b = DirectionCosineMatrix::rotate_y(-1.1);
    let c = DirectionCosineMatrix::rotate_z(2.0);
    let left = (a * b) * c;
    let right = a * (b * c);
    assert!(matrices_approx_eq(left.as_matrix(), right.as_matrix(), 1e-12));
}

// ----- Euler angles -----

#[test]
fn euler_accessors_and_arithmetic() {
    let e = Euler::new(1.0, 2.0, 3.0);
    assert_eq!((e.roll(), e.pitch(), e.yaw()), (1.0, 2.0, 3.0));
    let f = Euler::new(0.5, 0.5, 0.5);
    assert_eq!((e + f).data.data, [1.5, 2.5, 3.5]);
    assert_eq!((e - f).data.data, [0.5, 1.5, 2.5]);
    assert_eq!((-e).data.data, [-1.0, -2.0, -3.0]);
    assert_eq!((e * 2.0).data.data, [2.0, 4.0, 6.0]);
    assert_eq!((e / 2.0).data.data, [0.5, 1.0, 1.5]);
    assert_eq!(Euler::<f64>::default().data.data, [0.0, 0.0, 0.0]);
}

#[test]
fn euler_pitch_is_held_at_gimbal_lock() {
    // w y - z x = 1/2, so the sine of the pitch is exactly one.
    let h = std::f64::consts::FRAC_1_SQRT_2;
    let up = Euler::from_quaternion(&Quaternion::new(h, 0.0, h, 0.0));
    assert!((up.pitch() - std::f64::consts::FRAC_PI_2).abs() <= 1e-7);
    let down = Euler::from_quaternion(&Quaternion::new(h, 0.0, -h, 0.0));
    assert!((down.pitch() + std::f64::consts::FRAC_PI_2).abs() <= 1e-7);
    // A quaternion that is too long pushes the sine over one: the pitch stays a quarter turn.
    let over = Euler::from_quaternion(&Quaternion::new(1.0, 0.0, 1.0, 0.0));
    assert_eq!(over.pitch(), std::f64::consts::FRAC_PI_2);
    let under = Euler::from_quaternion(&Quaternion::new(1.0, 0.0, -1.0, 0.0));
    assert_eq!(under.pitch(), -std::f64::consts::FRAC_PI_2);
    assert_eq!(Euler::choose_pitch(1.0, 1.0, 10.0, -1.0, 0.25), -10.0);
    assert_eq!(Euler::choose_pitch(0.5, 1.0, 10.0, -1.0, 0.25), 0.25);
}

#[test]
fn euler_arguments_of_a_quaternion() {
    let a = Euler::arguments_of(&Quaternion::new(1_i64, 2, 3, 4), 1);
    assert_eq!(
        a,
        [
            2 * (1 * 2 + 3 * 4),
            1 - 2 * (2 * 2 + 3 * 3),
            2 * (1 * 3 - 4 * 2),
            2 * (1 * 4 + 2 * 3),
            1 - 2 * (3 * 3 + 4 * 4),
        ]
    );
    let m = Matrix { data: [[2.0, 3.0, 0.0], [0.0, 0.0, 5.0], [0.0, 0.0, 4.0]] };
    assert_eq!(Euler::ratios_of(&m), [1.5, 1.25]);
}

#[test]
fn euler_from_dcm_uses_the_plain_arc_tangent() {
    // Half a turn of yaw: the ratio m01 / m00 is zero over minus one, and the
    // arc tangent cannot tell it from no turn at all.
    let dcm = DirectionCosineMatrix::rotate_z(std::f64::consts::PI);
    let e = Euler::from_dcm(&dcm);
    assert!(e.yaw().abs() <= 1e-15);
    let e = Euler::from_dcm(&DirectionCosineMatrix::rotate_y(0.25_f64));
    assert!((e.pitch() - 0.25).abs() <= 1e-15);
}

#[test]
fn euler_round_trip_away_from_gimbal_lock() {
    let cases = [[0.3_f64, 0.2, -0.4], [-1.0, 1.2, 2.5], [2.9, -1.4, -3.0], [0.0, 0.0, 0.0]];
    for angles in cases {
        let e = Euler::new(angles[0], angles[1], angles[2]);
        let back = Euler::from_quaternion(&Quaternion::from_euler(&e));
        for i in 0..3 {
            assert!((e.data[i] - back.data[i]).abs() <= 1e-6);
        }
    }
}

#[test]
fn dcm_quaternion_round_trip_up_to_sign() {
    // Quaternions whose scalar part or first vector part is large enough to be
    // the pivot, and the two that lie along the other axes.
    let cases = [
        [0.9_f64, 0.1, 0.2, 0.3],
        [0.1, 0.9, -0.2, 0.3],
        [-0.5, 0.5, 0.5, -0.5],
        [3.0, 0.0, 0.0, 4.0],
        [0.2, -0.6, 0.7, 0.1],
        [0.0, 0.0, 2.0, 0.0],
        [0.0, 0.0, 0.0, -3.0],
    ];
    for parts in cases {
        let q = Quaternion::new(parts[0], parts[1], parts[2], parts[3]).normalized();
        let back = Quaternion::try_from_dcm(&DirectionCosineMatrix::from_quaternion(q))
            .unwrap()
            .normalized();
        let same = (0..4).all(|i| (q.data[i] - back.data[i]).abs() <= 1e-6);
        let opposite = (0..4).all(|i| (q.data[i] + back.data[i]).abs() <= 1e-6);
        assert!(same || opposite);
    }
}

#[test]
fn guards_of_the_last_two_pivots() {
    // The guards are 1 + m00 + m11 - m22 and 1 + m00 - m11 + m22.
    let m = Matrix { data: [[-1.0, 9.0, 9.0], [9.0, 0.5, 9.0], [9.0, 9.0, -0.5]] };
    assert_eq!(Quaternion::shepperd_select(&m, 1.0_f64), Some((Pivot::J, 0.25)));
    let m = Matrix { data: [[-1.0, 9.0, 9.0], [9.0, -0.5, 9.0], [9.0, 9.0, 0.5]] };
    assert_eq!(Quaternion::shepperd_select(&m, 1.0_f64), Some((Pivot::K, 0.25)));
}

#[test]
fn euler_degrees() {
    let e = Euler::from_degrees_vec(Vector::new([180.0, 90.0, -45.0]));
    assert!((e.roll() - std::f64::consts::PI).abs() <= 1e-15);
    assert!((e.pitch() - std::f64::consts::FRAC_PI_2).abs() <= 1e-15);
    assert!((e.yaw() + std::f64::consts::FRAC_PI_4).abs() <= 1e-15);
    let d = Euler::new(std::f64::consts::PI, 0.0, -std::f64::consts::FRAC_PI_2).to_degrees_vec();
    assert_eq!(d.data, [180.0, 0.0, -90.0]);
}

// ----- rotations -----

#[test]
fn rotation_keeps_its_quaternion() {
    let q = Quaternion::new(0.5, 0.5, 0.5, 0.5);
    let r = Rotation::from_quaternion(q);
    assert_eq!(r.quaternion(), q);
    assert_eq!(Rotation::from(&q), r);
    assert_eq!(Rotation::<f64>::identity().quaternion().data.data, [1.0, 0.0, 0.0, 0.0]);
}

#[test]
fn rotation_compose_is_the_hamilton_product() {
    let a = Rotation::from_quaternion(Quaternion::new(1_i64, 2, 3, 4));
    let b = Rotation::from_quaternion(Quaternion::new(5_i64, 6, 7, 8));
    assert_eq!(a.compose(&b).quaternion().data.data, [-60, 12, 30, 24]);
    assert_eq!((a * b).quaternion().data.data, [-60, 12, 30, 24]);
}

#[test]
fn identity_is_made_of_zero_and_one() {
    assert_eq!(Quaternion::<i32>::identity().data.data, [1, 0, 0, 0]);
    assert_eq!(Quaternion::<f32>::identity().data.data, [1.0, 0.0, 0.0, 0.0]);
    assert_eq!(Rotation::<u64>::identity().quaternion().data.data, [1, 0, 0, 0]);
    let w = Rotation::from_quaternion(Quaternion::new(1_i64, 0, 0, 1))
        .rotate_vector(Vector::new([1, 0, 0]));
    assert_eq!(w.data, [0, 2, 0]);
}

#[test]
fn rotation_inverse_is_the_conjugate() {
    let a = Rotation::from_quaternion(Quaternion::new(1.0, 2.0, 3.0, 4.0));
    assert_eq!(a.inverse().quaternion().data.data, [1.0, -2.0, -3.0, -4.0]);
}

#[test]
fn rotation_rotates_a_vector() {
    let h = std::f64::consts::FRAC_1_SQRT_2;
    // A quarter turn about the third axis.
    let r = Rotation::from_quaternion(Quaternion::new(h, 0.0, 0.0, h));
    let v = r.rotate_vector(Vector::new([1.0, 0.0, 0.0]));
    assert!((v[0] - 0.0).abs() <= 1e-15);
    assert!((v[1] - 1.0).abs() <= 1e-15);
    assert!((v[2] - 0.0).abs() <= 1e-15);
    let w = Rotation::from_quaternion(Quaternion::new(1_i64, 0, 0, 1))
        .rotate_vector_with(Vector::new([1, 0, 0]), 0);
    assert_eq!(w.data, [0, 2, 0]);
}

#[test]
fn integrating_no_turn_leaves_the_identity() {
    for dt in [0.0, 1e-3, 1.0, 1e6, -2.5] {
        let r = Rotation::<f64>::identity().integrate(Vector::zeros(), dt);
        assert_eq!(r, Rotation::identity());
    }
}

#[test]
fn integrating_multiplies_the_increment_from_the_left() {
    let h = std::f64::consts::FRAC_1_SQRT_2;
    let start = Rotation::from_quaternion(Quaternion::new(h, h, 0.0, 0.0));
    let omega = Vector::new([0.0, 0.0, std::f64::consts::FRAC_PI_2]);
    let got = start.integrate(omega, 1.0);
    let increment = Quaternion::from_angular_velocity(omega, 1.0);
    assert_eq!(got.quaternion(), increment * start.quaternion());
}

#[test]
fn rotation_from_a_matrix() {
    let dcm = DirectionCosineMatrix::rotate_z(0.4_f64);
    let r = Rotation::try_from_dcm(&dcm).unwrap();
    assert_eq!(r.quaternion(), Quaternion::try_from_dcm(&dcm).unwrap());
}

// ----- text -----

#[test]
fn text_of_attitude_values() {
    assert_eq!(Quaternion::new(1.0, 0.0, -0.5, 2.0).to_text(), "[1 0 -0.5 2]\n");
    assert_eq!(Euler::new(0.1, 0.2, 0.3).to_text(), "[0.1 0.2 0.3]");
    assert_eq!(
        DirectionCosineMatrix::new(1, 2, 3, 4, 5, 6, 7, 8, 9).to_text(),
        "[1 2 3; 4 5 6; 7 8 9]"
    );
    assert_eq!(
        Rotation::from_quaternion(Quaternion::new(1, 0, 0, 0)).to_text(),
        "Rotation: [1 0 0 0]\n"
    );
}

#[test]
fn conversions_by_method() {
    let e = Euler::new(0.3_f64, -0.2, 0.7);
    assert_eq!(e.to_quaternion(), Quaternion::from_euler(&e));
    assert_eq!(
        e.to_direction_cosine_matrix().as_matrix().data,
        DirectionCosineMatrix::from_euler(e).as_matrix().data
    );
    let q = e.to_quaternion();
    assert_eq!(q.to_euler(), Euler::from_quaternion(&q));
    let m = q.to_direction_cosine_matrix();
    assert_eq!(m.as_matrix().data, DirectionCosineMatrix::from_quaternion(q).as_matrix().data);
    assert_eq!(m.to_euler(), Euler::from_dcm(&m));
    assert_eq!(m.to_quaternion(), Quaternion::try_from_dcm(&m));
}
