use particle_sim::physical_quantities::Displacement;
use particle_sim::scalar::Scalar;
use particle_sim::utilities::{get_displacement_vector, is_within_radius, measure_distance};

fn s(x: f64) -> Scalar {
    Scalar::from_bits(x.to_bits())
}

fn f(x: Scalar) -> f64 {
    f64::from_bits(x.to_bits())
}

fn at(x: f64, y: f64) -> Displacement {
    Displacement::new(s(x), s(y))
}

#[test]
fn distance_is_the_euclidean_norm() {
    assert_eq!(f(measure_distance(at(0.0, 0.0), at(3.0, 4.0))), 5.0);
    assert_eq!(f(measure_distance(at(3.0, 4.0), at(0.0, 0.0))), 5.0);
    assert_eq!(f(measure_distance(at(-1.0, -1.0), at(2.0, 3.0))), 5.0);
    assert_eq!(f(measure_distance(at(1.0, 0.0), at(0.0, 1.0))), 2.0f64.sqrt());
    assert_eq!(f(measure_distance(at(10.1, 0.0), at(0.0, 0.0))), 10.1);
}

#[test]
fn distance_between_coincident_points_is_zero() {
    assert_eq!(f(measure_distance(at(2.5, -7.0), at(2.5, -7.0))), 0.0);
    assert!(is_within_radius(at(2.5, -7.0), s(0.0), at(2.5, -7.0), false));
    assert!(!is_within_radius(at(2.5, -7.0), s(0.0), at(2.5, -7.0), true));
}

#[test]
fn distance_agrees_with_the_hardware_on_awkward_numbers() {
    let cases = [
        ((0.1, 0.2), (0.3, -0.4)),
        ((1.0e-3, 2.5e7), (-3.0e5, 1.0e-9)),
        ((123.456, -654.321), (0.001, 1000.0)),
    ];
    for ((ax, ay), (bx, by)) in cases {
        let dx: f64 = ax - bx;
        let dy: f64 = ay - by;
        assert_eq!(f(measure_distance(at(ax, ay), at(bx, by))), (dx * dx + dy * dy).sqrt());
    }
}

#[test]
fn the_rim_is_inside_unless_strict() {
    assert!(is_within_radius(at(0.0, 10.0), s(10.0), at(0.0, 0.0), false));
    assert!(!is_within_radius(at(0.0, 10.0), s(10.0), at(0.0, 0.0), true));
    assert!(is_within_radius(at(0.0, 9.5), s(10.0), at(0.0, 0.0), true));
    assert!(!is_within_radius(at(0.0, 10.5), s(10.0), at(0.0, 0.0), false));
    assert!(is_within_radius(at(4.0, 5.0), s(5.0), at(1.0, 1.0), false));
}

#[test]
fn the_sign_of_the_radius_is_ignored() {
    assert!(is_within_radius(at(1.0, 0.0), s(-10.0), at(0.0, 0.0), false));
    assert!(is_within_radius(at(0.0, 10.0), s(-10.0), at(0.0, 0.0), false));
    assert!(!is_within_radius(at(0.0, 10.0), s(-10.0), at(0.0, 0.0), true));
    assert!(!is_within_radius(at(10.1, 0.0), s(-10.0), at(0.0, 0.0), false));
}

#[test]
fn nothing_is_within_a_radius_that_is_not_a_number() {
    assert!(!is_within_radius(at(0.0, 0.0), s(f64::NAN), at(0.0, 0.0), false));
    assert!(!is_within_radius(at(f64::NAN, 0.0), s(1.0), at(0.0, 0.0), false));
    assert!(is_within_radius(at(1.0e300, 0.0), s(f64::INFINITY), at(0.0, 0.0), false));
}

#[test]
fn displacement_vector_points_from_the_first_to_the_second() {
    assert_eq!(get_displacement_vector(at(1.0, 2.0), at(4.0, 6.0)), at(3.0, 4.0));
    assert_eq!(get_displacement_vector(at(4.0, 6.0), at(1.0, 2.0)), at(-3.0, -4.0));
    assert_eq!(get_displacement_vector(at(-5.5, 2.5), at(-5.5, 2.5)), at(0.0, 0.0));
}
