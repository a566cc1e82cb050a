use matrslab::reference_frame::FrameKind;
use matrslab::utils::angle_conversion::{
    scalar_to_degrees, scalar_to_radians, to_degrees_with, to_radians_with,
};
use matrslab::utils::parse::{
    find_operator, format_matrix, format_vector, vector_elementwise_op, DimensionMismatch,
};
use matrslab::Vector;

fn cells(items: &[&str]) -> Vec<String> {
    items.iter().map(|s| s.to_string()).collect()
}

#[test]
fn degrees_and_radians() {
    assert_eq!(scalar_to_radians(180.0_f64), std::f64::consts::PI);
    assert_eq!(scalar_to_degrees(std::f64::consts::PI), 180.0);
    assert_eq!(scalar_to_radians(90.0_f64), 90.0 * std::f64::consts::PI / 180.0);
    assert_eq!(scalar_to_degrees(1.0_f64), 180.0 / std::f64::consts::PI);
    assert_eq!(scalar_to_radians(45.0_f32), 45.0 * std::f32::consts::PI / 180.0);
    assert_eq!(to_radians_with(90_i64, 4, 180), 2);
    assert_eq!(to_degrees_with(2_i64, 4, 180), 90);
}

#[test]
fn degrees_and_radians_of_a_vector() {
    let d = Vector::new([0.0, 90.0, -180.0]);
    let r = d.in_radians();
    assert_eq!(r.data, [0.0, std::f64::consts::FRAC_PI_2, -std::f64::consts::PI]);
    assert_eq!(r.in_degrees().data, [0.0, 90.0, -180.0]);
}

#[test]
fn text_of_a_vector() {
    assert_eq!(format_vector(&cells(&["1", "2", "3"])), "[1 2 3]");
    assert_eq!(format_vector(&cells(&["-0.5"])), "[-0.5]");
    assert_eq!(format_vector(&cells(&[])), "[]");
}

#[test]
fn text_of_a_matrix() {
    assert_eq!(format_matrix(2, 2, &cells(&["1", "2", "3", "4"])), "[1 2; 3 4]");
    assert_eq!(format_matrix(1, 3, &cells(&["1", "2", "3"])), "[1 2 3]");
    assert_eq!(format_matrix(3, 1, &cells(&["1", "2", "3"])), "[1; 2; 3]");
    assert_eq!(format_matrix(0, 0, &cells(&[])), "[]");
    // Cells past the last row are not shown.
    assert_eq!(format_matrix(1, 2, &cells(&["1", "2", "3"])), "[1 2]");
}

#[test]
fn the_first_operator_outside_brackets() {
    assert_eq!(find_operator("[1 2 3] + [4 5 6]"), Some((8, '+')));
    assert_eq!(find_operator("[1 -2 3] * 2"), Some((9, '*')));
    assert_eq!(find_operator("2 / 4 - 1"), Some((2, '/')));
    assert_eq!(find_operator("-3 * [1 2]"), Some((0, '-')));
    assert_eq!(find_operator("[1 2 3]"), None);
    assert_eq!(find_operator("[1 + 2]"), None);
    assert_eq!(find_operator(""), None);
    // A closing bracket too many takes the depth below zero for the rest.
    assert_eq!(find_operator("] + ["), None);
    assert_eq!(find_operator("][ + 1"), Some((3, '+')));
    // Positions count characters, not bytes.
    assert_eq!(find_operator("é + 1"), Some((2, '+')));
}

#[test]
fn combining_two_lists() {
    let a = vec![1.0, 2.0, 3.0];
    let b = vec![10.0, 20.0, 30.0];
    assert_eq!(vector_elementwise_op(&a, &b, |x, y| x + y), Ok(vec![11.0, 22.0, 33.0]));
    assert_eq!(vector_elementwise_op(&a, &b, |x, y| x - y), Ok(vec![-9.0, -18.0, -27.0]));
    let none: Vec<f64> = vec![];
    assert_eq!(vector_elementwise_op(&none, &none, |x, y| x + y), Ok(vec![]));
}

#[test]
fn combining_lists_of_different_lengths() {
    let a = vec![1, 2, 3];
    let b = vec![1, 2];
    assert_eq!(
        vector_elementwise_op(&a, &b, |x, y| x + y),
        Err(DimensionMismatch { left: 3, right: 2 })
    );
    assert_eq!(
        vector_elementwise_op(&b, &a, |x, y| x + y),
        Err(DimensionMismatch { left: 2, right: 3 })
    );
}

#[test]
fn frame_kinds_are_distinct() {
    assert_ne!(FrameKind::Inertial, FrameKind::Rotating);
    assert_ne!(FrameKind::Rotating, FrameKind::Unknown);
    assert_eq!(FrameKind::Unknown, FrameKind::Unknown);
}
