use matrslab::coordinate::{Cartesian, Cylindrical, Spherical};
use std::f64::consts::{FRAC_PI_2, FRAC_PI_4, PI};

type Point = Cartesian<f64, ()>;

fn approx_eq(a: f64, b: f64) -> bool {
    (a - b).abs() < 1e-10
}

fn approx_eq_angle(a: f64, b: f64) -> bool {
    ((a - b + PI).rem_euclid(2.0 * PI) - PI).abs() < 1e-10
}

#[test]
fn test_cartesian_cylindrical_roundtrip() {
    let originals = [
        Point::new(3.0_f64, 4.0, 1.0),
        Point::new(0.0, 0.0, 1.0),
        Point::new(-3.0, -4.0, 1.0),
        Point::new(2.0, -2.0, 1.0),
    ];
    for cart in &originals {
        let cyl: Cylindrical<f64> = Cylindrical::from_cartesian(cart);
        let cart2: Point = Cartesian::from_cylindrical(&cyl);
        assert!(approx_eq(cart.x(), cart2.x()));
        assert!(approx_eq(cart.y(), cart2.y()));
        assert!(approx_eq(cart.z(), cart2.z()));
    }
}

#[test]
fn test_cartesian_spherical_roundtrip() {
    let originals = [
        Point::new(1.0, 0.0, 0.0),
        Point::new(0.0, 1.0, 0.0),
        Point::new(0.0, 0.0, 1.0),
        Point::new(1.0, 1.0, 1.0),
        Point::new(-1.0, -1.0, -1.0),
    ];

    for cart in &originals {
        let sph: Spherical<f64> = Spherical::from_cartesian(cart);
        let cart2: Point = Cartesian::from_spherical(&sph);

        assert!(approx_eq(cart.x(), cart2.x()), "x: {} vs {}", cart.x(), cart2.x());
        assert!(approx_eq(cart.y(), cart2.y()), "y: {} vs {}", cart.y(), cart2.y());
        assert!(approx_eq(cart.z(), cart2.z()), "z: {} vs {}", cart.z(), cart2.z());
    }
}

#[test]
fn test_cylindrical_cartesian_roundtrip() {
    let originals = [
        Cylindrical::new(5.0, FRAC_PI_4, 1.0),
        Cylindrical::new(0.0, PI, 1.0),
        Cylindrical::new(2.0, -FRAC_PI_2, 1.0),
        Cylindrical::new(3.0, 2.0, 1.0),
    ];
    for cyl in &originals {
        let cart: Point = Cartesian::from_cylindrical(cyl);
        let cyl2: Cylindrical<f64> = Cylindrical::from_cartesian(&cart);
        assert!(approx_eq(cyl.r(), cyl2.r()));
        assert!(approx_eq(cyl.theta(), cyl2.theta()));
        assert!(approx_eq(cyl.z(), cyl2.z()));
    }
}

#[test]
fn test_cylindrical_spherical_roundtrip() {
    let originals = [
        Cylindrical::new(1.0, 0.0, 0.0),
        Cylindrical::new(2.0, PI, 1.0),
        Cylindrical::new(3.0, FRAC_PI_2, -1.0),
        Cylindrical::new(4.0, -FRAC_PI_2, 2.0),
    ];
    for cyl in &originals {
        let sph: Spherical<f64> = Spherical::from_cylindrical(cyl);
        let cyl2: Cylindrical<f64> = Cylindrical::from_spherical(&sph);
        assert!(approx_eq(cyl.r(), cyl2.r()));
        assert!(approx_eq(cyl.theta(), cyl2.theta()));
        assert!(approx_eq(cyl.z(), cyl2.z()));
    }
}

#[test]
fn test_spherical_cylindrical_roundtrip() {
    let originals = [
        Spherical::new(1.0, 0.0, FRAC_PI_2),
        Spherical::new(2.0, PI, FRAC_PI_2),
        Spherical::new(3.0, FRAC_PI_2, FRAC_PI_4),
        Spherical::new(5.0, -FRAC_PI_2, FRAC_PI_4),
    ];
    for sph in &originals {
        let cyl: Cylindrical<f64> = Cylindrical::from_spherical(sph);
        let sph2: Spherical<f64> = Spherical::from_cylindrical(&cyl);
        assert!(approx_eq(sph.r(), sph2.r()));
        assert!(approx_eq(sph.theta(), sph2.theta()));
        assert!(approx_eq(sph.phi(), sph2.phi()));
    }
}

#[test]
fn test_spherical_cartesian_roundtrip() {
    let originals = [
        Spherical::new(1.0, 0.0, FRAC_PI_2),
        Spherical::new(1.0, PI, FRAC_PI_2),
        Spherical::new(1.0, FRAC_PI_2, FRAC_PI_2),
        Spherical::new(1.0, 0.0, 0.0),
        Spherical::new(1.0, 0.0, PI),
    ];
    for sph in &originals {
        let cart: Point = Cartesian::from_spherical(sph);
        let sph2: Spherical<f64> = Spherical::from_cartesian(&cart);

        assert!(approx_eq(sph.r(), sph2.r()));
        if sph.phi().abs() < 1e-6 || (sph.phi() - PI).abs() < 1e-6 {
            println!("Hi");
        } else {
            assert!(approx_eq_angle(sph.theta(), sph2.theta()));
            assert!(approx_eq(sph.phi(), sph2.phi()));
        }
    }
}

#[test]
fn accessors_keep_the_order_of_the_coordinates() {
    let c = Point::new(1.0, 2.0, 3.0);
    assert_eq!((c.x(), c.y(), c.z()), (1.0, 2.0, 3.0));
    let c = Cylindrical::new(1.0, 2.0, 3.0);
    assert_eq!((c.r(), c.theta(), c.z()), (1.0, 2.0, 3.0));
    let s = Spherical::new(1.0, 2.0, 3.0);
    assert_eq!((s.r(), s.phi(), s.theta()), (1.0, 2.0, 3.0));
}

#[test]
fn cartesian_arithmetic() {
    let a = Point::new(1.0, 2.0, 3.0);
    let b = Point::new(0.5, 0.25, -1.0);
    assert_eq!((a + b).data.data, [1.5, 2.25, 2.0]);
    assert_eq!((a - b).data.data, [0.5, 1.75, 4.0]);
    assert_eq!((-a).data.data, [-1.0, -2.0, -3.0]);
    assert_eq!((a * 2.0).data.data, [2.0, 4.0, 6.0]);
    assert_eq!((a / 2.0).data.data, [0.5, 1.0, 1.5]);
    let mut c = a;
    c += b;
    assert_eq!(c.data.data, [1.5, 2.25, 2.0]);
    c -= a;
    assert_eq!(c.data.data, b.data.data);
    assert_eq!(a.clone(), a);
}

#[test]
fn conversions_from_parts() {
    let c: Cartesian<i64, ()> = Cartesian::from_spherical_parts(2, 3, 5, 7, 11);
    assert_eq!(c.data.data, [2 * 3 * 11, 2 * 3 * 7, 2 * 5]);
    let c: Cartesian<i64, ()> = Cartesian::from_cylindrical_parts(2, 3, 5, 7);
    assert_eq!(c.data.data, [6, 10, 7]);
    assert_eq!(Cylindrical::planar_square_of(3_i64, 4), 25);
    assert_eq!(Spherical::square_sum_of(1_i64, 2, 3), 14);
    assert_eq!(Spherical::with_inclination(0_i64, 5, 0, 9).data.data, [0, 5, 0]);
    assert_eq!(Spherical::with_inclination(2_i64, 5, 0, 9).data.data, [2, 5, 9]);
}

#[test]
fn the_origin_has_no_inclination() {
    let s = Spherical::from_cartesian(&Point::new(0.0, 0.0, 0.0));
    assert_eq!(s.data.data, [0.0, 0.0, 0.0]);
    let s = Spherical::from_cylindrical(&Cylindrical::new(0.0, 1.5, 0.0));
    assert_eq!(s.data.data, [0.0, 1.5, 0.0]);
}

#[test]
fn spherical_to_cartesian_formula() {
    // r = 2, azimuth a quarter turn, inclination a quarter turn: the point (0, 2, 0).
    let c: Point = Cartesian::from_spherical(&Spherical::new(2.0, FRAC_PI_2, FRAC_PI_2));
    assert!(approx_eq(c.x(), 0.0) && approx_eq(c.y(), 2.0) && approx_eq(c.z(), 0.0));
    let c = Cylindrical::from_cartesian(&Point::new(3.0, 4.0, 7.0));
    assert_eq!(c.r(), 5.0);
    assert_eq!(c.z(), 7.0);
    assert!(approx_eq(c.theta(), (4.0_f64).atan2(3.0)));
}
