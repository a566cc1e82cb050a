use matrslab::math::vector::cosine_ratio;
use matrslab::{Matrix, Vector};

#[test]
fn cross_product_of_the_first_two_axes_is_the_third() {
    let x = Vector { data: [1.0, 0.0, 0.0] };
    let y = Vector { data: [0.0, 1.0, 0.0] };
    assert_eq!(x.cross(y), Vector { data: [0.0, 0.0, 1.0] });
    assert_eq!(y.cross(x), Vector { data: [0.0, 0.0, -1.0] });
    let a = Vector::new([1_i64, 2, 3]);
    let b = Vector::new([4_i64, 5, 6]);
    assert_eq!(a.cross(b).data, [2 * 6 - 3 * 5, 3 * 4 - 1 * 6, 1 * 5 - 2 * 4]);
}

#[test]
fn determinant_of_the_identity_is_one() {
    assert_eq!(Matrix::<f64, 2, 2>::identity().determinant(), 1.0);
    assert_eq!(Matrix::<f64, 3, 3>::identity().determinant(), 1.0);
    let swap = Matrix { data: [[0.0, 1.0], [1.0, 0.0]] };
    assert_eq!(swap.determinant(), -1.0);
}

#[test]
fn determinant_by_cofactors() {
    let m = Matrix { data: [[2_i64, 3], [5, 7]] };
    assert_eq!(m.determinant(), 2 * 7 - 3 * 5);
    let m = Matrix { data: [[2_i64, 0, 1], [1, 3, 2], [1, 1, 1]] };
    assert_eq!(m.determinant(), 2 * (3 - 2) - 0 + 1 * (1 - 3));
    let m = Matrix { data: [[1.0, 2.0, 3.0], [4.0, 5.0, 6.0], [7.0, 8.0, 10.0]] };
    assert_eq!(m.determinant(), -3.0);
}

#[test]
fn vector_arithmetic() {
    let a = Vector::new([1.0, 2.0, 3.0, 4.0]);
    let b = Vector::new([0.5, 0.5, 0.5, 0.5]);
    assert_eq!((a + b).data, [1.5, 2.5, 3.5, 4.5]);
    assert_eq!((&a + &b).data, [1.5, 2.5, 3.5, 4.5]);
    assert_eq!((a + &b).data, [1.5, 2.5, 3.5, 4.5]);
    assert_eq!((&a + b).data, [1.5, 2.5, 3.5, 4.5]);
    assert_eq!((a - b).data, [0.5, 1.5, 2.5, 3.5]);
    assert_eq!((&a - &b).data, [0.5, 1.5, 2.5, 3.5]);
    assert_eq!((a - &b).data, [0.5, 1.5, 2.5, 3.5]);
    assert_eq!((&a - b).data, [0.5, 1.5, 2.5, 3.5]);
    assert_eq!((-a).data, [-1.0, -2.0, -3.0, -4.0]);
    assert_eq!((-&a).data, [-1.0, -2.0, -3.0, -4.0]);
    assert_eq!((a * 2.0).data, [2.0, 4.0, 6.0, 8.0]);
    assert_eq!((&a * 2.0).data, [2.0, 4.0, 6.0, 8.0]);
    assert_eq!((a / 2.0).data, [0.5, 1.0, 1.5, 2.0]);
    assert_eq!((&a / 2.0).data, [0.5, 1.0, 1.5, 2.0]);
    let mut c = a;
    c += b;
    assert_eq!(c.data, [1.5, 2.5, 3.5, 4.5]);
    c -= a;
    assert_eq!(c.data, b.data);
}

#[test]
fn vector_of_no_components() {
    let a: Vector<f64, 0> = Vector::new([]);
    assert_eq!((a + a).data, []);
    assert_eq!(a.dot(&a), 0.0);
    assert_eq!(a.norm(), 0.0);
    assert_eq!(a.to_text(), "[]");
}

#[test]
fn vector_builders_and_access() {
    assert_eq!(Vector::<f64, 3>::zeros().data, [0.0, 0.0, 0.0]);
    assert_eq!(Vector::<f64, 3>::ones().data, [1.0, 1.0, 1.0]);
    assert_eq!(Vector::<i32, 2>::default().data, [0, 0]);
    assert_eq!(Vector::<u8, 4>::filled(7).data, [7, 7, 7, 7]);
    let mut v = Vector::new([1, 2, 3]);
    assert_eq!(v[1], 2);
    v[1] = 20;
    assert_eq!(v.data, [1, 20, 3]);
    assert_eq!(v.iter().copied().collect::<Vec<_>>(), vec![1, 20, 3]);
    assert_eq!(v.to_vec(), vec![1, 20, 3]);
}

#[test]
fn dot_norm_and_angle() {
    let a = Vector::new([1.0, 2.0, 3.0]);
    let b = Vector::new([4.0, -5.0, 6.0]);
    assert_eq!(a.dot(&b), 12.0);
    assert_eq!(Vector::new([3.0, 4.0]).norm(), 5.0);
    assert_eq!(Vector::new([1_i64, 2, 3]).dot_from(&Vector::new([4, -5, 6]), 100), 112);
    let x = Vector::new([1.0, 0.0]);
    let y = Vector::new([0.0, 2.0]);
    assert!((x.angle(&y) - std::f64::consts::FRAC_PI_2).abs() <= 1e-15);
    assert_eq!(x.angle(&x), 0.0);
    assert!((x.angle(&-x) - std::f64::consts::PI).abs() <= 1e-15);
}

#[test]
fn angle_with_a_vector_of_no_length_is_zero() {
    let x = Vector::new([1.0, 0.0, 0.0]);
    let o = Vector::new([0.0, 0.0, 0.0]);
    assert_eq!(x.angle(&o), 0.0);
    assert_eq!(o.angle(&x), 0.0);
    assert_eq!(o.angle(&o), 0.0);
}

#[test]
fn cosine_from_dot_product_and_lengths() {
    assert_eq!(cosine_ratio(6_i64, 2, 3, 0), Some(1));
    assert_eq!(cosine_ratio(6_i64, 2, 0, 0), None);
    assert_eq!(cosine_ratio(1.0, 2.0, 4.0, 0.0), Some(0.125));
    assert_eq!(cosine_ratio(1.0, 0.0, 4.0, 0.0), None);
}

#[test]
fn angle_clamps_the_cosine() {
    // Rounding takes dot / (norm * norm) a little over one for this vector.
    let v = Vector::new([0.1_f64, 0.2, 0.3]);
    let a = v.angle(&v);
    assert!(!a.is_nan());
    assert!(a.abs() <= 1e-7);
    // And a little under minus one for its opposite.
    let b = v.angle(&-v);
    assert!(!b.is_nan());
    assert!((b - std::f64::consts::PI).abs() <= 1e-7);
    // Every vector here is at a right angle or closer to one of its own multiples.
    for w in [[3.0_f64, 0.1, -7.0], [1e-3, 2e-3, 5e-4], [1e8, 1.0, 3e7]] {
        let w = Vector::new(w);
        assert_eq!(w.angle(&(w * 3.0)).is_nan(), false);
        assert_eq!(w.angle(&(w * -2.0)).is_nan(), false);
    }
}

#[test]
fn matrix_builders() {
    assert_eq!(Matrix::<f64, 2, 3>::zeros().data, [[0.0; 3]; 2]);
    assert_eq!(Matrix::<f64, 2, 3>::ones().data, [[1.0; 3]; 2]);
    assert_eq!(Matrix::<f64, 3, 3>::identity().data, [[1.0, 0.0, 0.0], [0.0, 1.0, 0.0], [0.0, 0.0, 1.0]]);
    assert_eq!(Matrix::<f64, 2, 2>::diag(&[3.0, 4.0]).data, [[3.0, 0.0], [0.0, 4.0]]);
    assert_eq!(Matrix::<i64, 2, 2>::diag_with(9, &[3, 4]).data, [[3, 9], [9, 4]]);
    assert_eq!(Matrix::<i64, 2, 2>::identity_with(0, 1).data, [[1, 0], [0, 1]]);
    assert_eq!(Matrix::<u8, 2, 2>::filled(5).data, [[5, 5], [5, 5]]);
}

#[test]
fn transpose_and_trace() {
    let m = Matrix { data: [[1, 2, 3], [4, 5, 6]] };
    assert_eq!(m.transpose().data, [[1, 4], [2, 5], [3, 6]]);
    assert_eq!(m.transpose().transpose(), m);
    let s = Matrix { data: [[1.5, 2.0], [3.0, 4.0]] };
    assert_eq!(s.trace(), 5.5);
    assert_eq!(Matrix { data: [[1_i64, 2], [3, 4]] }.trace_from(10), 15);
}

#[test]
fn products_of_other_shapes() {
    let a = Matrix { data: [[1_i64, 2, 3], [4, 5, 6]] };
    let b = Matrix { data: [[1_i64, 0], [0, 1], [2, 2]] };
    assert_eq!((a * b).data, [[7, 8], [16, 17]]);
    assert_eq!(a.product_from(b, 100).data, [[107, 108], [116, 117]]);
    let v = Vector::new([1_i64, 1, 1]);
    assert_eq!((a * v).data, [6, 15]);
    assert_eq!(a.image_from(v, -6).data, [0, 9]);
}

#[test]
fn text_of_vectors_and_matrices() {
    assert_eq!(Vector::new([1.0, 2.5, -3.0]).to_text(), "[1 2.5 -3]");
    assert_eq!(Vector::new([7]).to_text(), "[7]");
    assert_eq!(Matrix { data: [[1.0, 2.0], [3.0, 4.5]] }.to_text(), "[1 2; 3 4.5]");
    assert_eq!(Matrix { data: [[1, 2, 3]] }.to_text(), "[1 2 3]");
    assert_eq!(Vector::new([1, 2]).shown(), vec!["1".to_string(), "2".to_string()]);
}

#[test]
fn zero_and_one_are_the_whole_numbers() {
    assert_eq!(Vector::<u8, 3>::zeros().data, [0, 0, 0]);
    assert_eq!(Vector::<u16, 3>::ones().data, [1, 1, 1]);
    assert_eq!(Matrix::<i64, 2, 3>::zeros().data, [[0, 0, 0], [0, 0, 0]]);
    assert_eq!(Matrix::<i64, 2, 3>::ones().data, [[1, 1, 1], [1, 1, 1]]);
    assert_eq!(Matrix::<u64, 3, 3>::identity().data, [[1, 0, 0], [0, 1, 0], [0, 0, 1]]);
    assert_eq!(Matrix::<i32, 2, 2>::diag(&[7, -9]).data, [[7, 0], [0, -9]]);
    assert_eq!(Matrix::<u64, 2, 2>::identity().determinant(), 1);
    assert_eq!(Vector::new([1_i64, 2, 3]).dot(&Vector::new([4, -5, 6])), 12);
    assert_eq!(Vector::new([1.5_f32, 2.0]).dot(&Vector::new([2.0, 0.25])), 3.5);
}
