#![allow(non_snake_case)]

use particle_sim::physical_quantities::{
    Acceleration, Displacement, Force, Mass, Ticks, Time, Vector2, Velocity,
};
use particle_sim::scalar::Scalar;

fn s(x: f64) -> Scalar {
    Scalar::from_bits(x.to_bits())
}

/********************* Time ********************/

#[test]
fn time_supports_partialEq() {
    assert!(
        Time(s(-1.0)) == Time(s(-1.0)),
        "Time(-1.0) did not equal Time(-1.0)."
    );
    assert!(
        Time(s(0.0)) == Time(s(0.0)),
        "Time(0.0) did not equal Time(0.0)."
    );
    assert!(
        Time(s(1.0)) == Time(s(1.0)),
        "Time(1.0) did not equal Time(1.0)."
    );

    assert!(
        Time(s(-1.0)) != Time(s(0.0)),
        "Time(-1.0) was equal Time(0.0)."
    );
    assert!(
        Time(s(0.0)) != Time(s(1.0)),
        "Time(0.0) was equal to Time(1.0)."
    );
    assert!(
        Time(s(1.0)) != Time(s(-1.0)),
        "Time(1.0) was equal to Time(-1.0)."
    );
}

#[test]
fn time_supports_multiplication_by_a_coefficient() {
    assert_eq!(Time(s(2.0)) * s(5.0), Time(s(10.0)));
    assert_eq!(Time(s(-2.0)) * s(5.0), Time(s(-10.0)));
}

#[test]
fn time_supports_addition() {
    assert_eq!(Time(s(0.0)), Time(s(0.0)) + Time(s(0.0)));
    assert_eq!(Time(s(1.0)), Time(s(0.0)) + Time(s(1.0)));
    assert_eq!(Time(s(-1.0)), Time(s(0.0)) + Time(s(-1.0)));
    assert_eq!(Time(s(1.0)), Time(s(1.0)) + Time(s(0.0)));
    assert_eq!(Time(s(2.0)), Time(s(1.0)) + Time(s(1.0)));
    assert_eq!(Time(s(0.0)), Time(s(1.0)) + Time(s(-1.0)));
    assert_eq!(Time(s(-1.0)), Time(s(-1.0)) + Time(s(0.0)));
    assert_eq!(Time(s(0.0)), Time(s(-1.0)) + Time(s(1.0)));
    assert_eq!(Time(s(-2.0)), Time(s(-1.0)) + Time(s(-1.0)));
}

#[test]
fn time_supports_subtraction() {
    assert_eq!(Time(s(0.0)), Time(s(0.0)) - Time(s(0.0)));
    assert_eq!(Time(s(-1.0)), Time(s(0.0)) - Time(s(1.0)));
    assert_eq!(Time(s(1.0)), Time(s(0.0)) - Time(s(-1.0)));
    assert_eq!(Time(s(1.0)), Time(s(1.0)) - Time(s(0.0)));
    assert_eq!(Time(s(0.0)), Time(s(1.0)) - Time(s(1.0)));
    assert_eq!(Time(s(2.0)), Time(s(1.0)) - Time(s(-1.0)));
    assert_eq!(Time(s(-1.0)), Time(s(-1.0)) - Time(s(0.0)));
    assert_eq!(Time(s(-2.0)), Time(s(-1.0)) - Time(s(1.0)));
    assert_eq!(Time(s(0.0)), Time(s(-1.0)) - Time(s(-1.0)));
}


/********************* Vector2 ********************/

#[test]
fn new_creates_vector2() {
    let v = Vector2::new(s(-1.0), s(1.0));
    assert_eq!(v.x, s(-1.0));
    assert_eq!(v.y, s(1.0));
}

#[test]
fn vector2_supports_partialEq() {
    // Test (-1, -1) == (-1, -1), (-1, -1) == (-1, 0),
    //    (-1, -1) == (-1, 1), ..., (1, 1,) == (1, 1).
    // There are nine combinations for each vector. 81 total test cases?
    // For each v1, generate and test each v2...
    for i1 in -1..2 {
        for j1 in -1..2 {
            let x1 = i1 as f64;
            let y1 = j1 as f64;
            let v1 = Vector2::new(s(x1), s(y1));
            for i2 in -1..2 {
                for j2 in -1..2 {
                    let x2 = i2 as f64;
                    let y2 = j2 as f64;
                    let v2 = Vector2::new(s(x2), s(y2));
                    if x1 == x2 && y1 == y2 {
                        assert_eq!(v1, v2);
                    } else {
                        assert_ne!(v1, v2);
                    }
                }
            }
        }
    }
}

#[test]
fn vector2_supports_scalar_multiplication() {
    assert_eq!(Vector2::new(s(1.0), s(2.0)) * s(5.0), Vector2::new(s(5.0), s(10.0)));
    assert_eq!(s(5.0) * Vector2::new(s(1.0), s(2.0)), Vector2::new(s(5.0), s(10.0)));
    assert_eq!(Vector2::new(s(1.0), s(2.0)) * s(-5.0), Vector2::new(s(-5.0), s(-10.0)));
    assert_eq!(s(-5.0) * Vector2::new(s(1.0), s(2.0)), Vector2::new(s(-5.0), s(-10.0)));
}

#[test]
fn vector2_supports_scalar_division() {
    assert_eq!(Vector2::new(s(5.0), s(10.0)) / s(5.0), Vector2::new(s(1.0), s(2.0)));
    assert_eq!(Vector2::new(s(5.0), s(10.0)) / s(-5.0), Vector2::new(s(-1.0), s(-2.0)));
}

#[test]
fn vector2_supports_addition() {
    assert_eq!(
        Vector2::new(s(0.0), s(0.0)),
        Vector2::new(s(0.0), s(0.0)) + Vector2::new(s(0.0), s(0.0)),
    );
    assert_eq!(
        Vector2::new(s(1.0), s(0.0)) + Vector2::new(s(0.0), s(0.0)),
        Vector2::new(s(1.0), s(0.0)),
    );
    assert_eq!(
        Vector2::new(s(0.0), s(1.0)) + Vector2::new(s(0.0), s(0.0)),
        Vector2::new(s(0.0), s(1.0)),
    );
    assert_eq!(
        Vector2::new(s(1.0), s(1.0)) + Vector2::new(s(1.0), s(1.0)),
        Vector2::new(s(2.0), s(2.0)),
    );
    assert_eq!(
        Vector2::new(s(1.0), s(1.0)) + Vector2::new(s(-1.0), s(-1.0)),
        Vector2::new(s(0.0), s(0.0)),
    );
}

#[test]
fn vector2_supports_subtraction() {
    assert_eq!(
        Vector2::new(s(0.0), s(0.0)),
        Vector2::new(s(0.0), s(0.0)) - Vector2::new(s(0.0), s(0.0)),
    );
    assert_eq!(
        Vector2::new(s(1.0), s(0.0)) - Vector2::new(s(0.0), s(0.0)),
        Vector2::new(s(1.0), s(0.0)),
    );
    assert_eq!(
        Vector2::new(s(0.0), s(1.0)) - Vector2::new(s(0.0), s(0.0)),
        Vector2::new(s(0.0), s(1.0)),
    );
    assert_eq!(
        Vector2::new(s(1.0), s(1.0)) - Vector2::new(s(1.0), s(1.0)),
        Vector2::new(s(0.0), s(0.0)),
    );
    assert_eq!(
        Vector2::new(s(1.0), s(1.0)) - Vector2::new(s(-1.0), s(-1.0)),
        Vector2::new(s(2.0), s(2.0)),
    );
    assert_eq!(
        Vector2::new(s(-5.5), s(2.5)) - Vector2::new(s(10.0), s(20.0)),
        Vector2::new(s(-15.5), s(-17.5)),
    );
}

/********************* Mass ********************/

#[test]
fn mass_supports_partialEq() {
    assert_eq!(Mass::new(s(0.1)).unwrap(), Mass::new(s(0.1)).unwrap());
    assert_eq!(Mass::new(s(1.0)).unwrap(), Mass::new(s(1.0)).unwrap());

    assert_ne!(Mass::new(s(1.0)).unwrap(), Mass::new(s(0.1)).unwrap());
    assert_ne!(Mass::new(s(0.1)).unwrap(), Mass::new(s(1.0)).unwrap());
}

#[test]
#[should_panic(expected = "Mass must be positive.")]
fn mass_new_panics_if_not_positive() {
    if let Err(e) = Mass::new(s(0.0)) {
        panic!("{}", e.message());
    }
}

#[test]
fn mass_supports_multiplication_by_acceleration() {
    assert_eq!(
        Force::new(s(1.0), s(2.0)),
        Mass::new(s(1.0)).unwrap() * Acceleration::new(s(1.0), s(2.0)),
    );
    assert_eq!(
        Force::new(s(1.0), s(-2.0)),
        Mass::new(s(1.0)).unwrap() * Acceleration::new(s(1.0), s(-2.0)),
    );
    assert_eq!(
        Force::new(s(-1.0), s(2.0)),
        Mass::new(s(1.0)).unwrap() * Acceleration::new(s(-1.0), s(2.0)),
    );
    assert_eq!(
        Force::new(s(-1.0), s(-2.0)),
        Mass::new(s(1.0)).unwrap() * Acceleration::new(s(-1.0), s(-2.0)),
    );
}

/********************* Displacement ********************/

#[test]
fn new_creates_displacement() {
    let displacement = Displacement::new(s(-1.0), s(1.0));
    assert_eq!(displacement.0.x, s(-1.0));
    assert_eq!(displacement.0.y, s(1.0));
}

#[test]
fn displacement_gets_x_and_y() {
    let displacement = Displacement::new(s(-1.0), s(1.0));
    assert_eq!(displacement.x(), displacement.0.x);
    assert_eq!(displacement.y(), displacement.0.y);
}

#[test]
fn displacement_supports_partialEq() {
    // Test (-1, -1) == (-1, -1), (-1, -1) == (-1, 0),
    //    (-1, -1) == (-1, 1), ..., (1, 1,) == (1, 1).
    // There are nine combinations for each vector. 81 total test cases?
    // For each p1, generate and test each p2...
    for i1 in -1..2 {
        for j1 in -1..2 {
            let x1 = i1 as f64;
            let y1 = j1 as f64;
            let d1 = Displacement::new(s(x1), s(y1));
            for i2 in -1..2 {
                for j2 in -1..2 {
                    let x2 = i2 as f64;
                    let y2 = j2 as f64;
                    let d2 = Displacement::new(s(x2), s(y2));
                    if x1 == x2 && y1 == y2 {
                        assert_eq!(d1, d2);
                    } else {
                        assert_ne!(d1, d2);
                    }
                }
            }
        }
    }
}

#[test]
fn displacement_supports_addition() {
    assert_eq!(
        Displacement::new(s(2.0), s(3.0)) + Displacement::new(s(3.0), s(4.0)),
        Displacement::new(s(5.0), s(7.0)),
    );
    assert_eq!(
        Displacement::new(s(-2.0), s(3.0)) + Displacement::new(s(3.0), s(-4.0)),
        Displacement::new(s(1.0), s(-1.0)),
    );
}

#[test]
fn displacement_supports_add_assign() {
    let mut displacement = Displacement::new(s(-1.0), s(-2.0));
    displacement += Displacement::new(s(10.0), s(20.0));
    assert_eq!(displacement, Displacement::new(s(9.0), s(18.0)));
    displacement += Displacement::new(s(-10.0), s(-20.0));
    assert_eq!(displacement, Displacement::new(s(-1.0), s(-2.0)));
}

#[test]
fn displacement_supports_subtraction() {
    assert_eq!(
        Displacement::new(s(0.0), s(0.0)),
        Displacement::new(s(0.0), s(0.0)) - Displacement::new(s(0.0), s(0.0)),
    );
    assert_eq!(
        Displacement::new(s(1.0), s(0.0)) - Displacement::new(s(0.0), s(0.0)),
        Displacement::new(s(1.0), s(0.0)),
    );
    assert_eq!(
        Displacement::new(s(0.0), s(1.0)) - Displacement::new(s(0.0), s(0.0)),
        Displacement::new(s(0.0), s(1.0)),
    );
    assert_eq!(
        Displacement::new(s(1.0), s(1.0)) - Displacement::new(s(1.0), s(1.0)),
        Displacement::new(s(0.0), s(0.0)),
    );
    assert_eq!(
        Displacement::new(s(1.0), s(1.0)) - Displacement::new(s(-1.0), s(-1.0)),
        Displacement::new(s(2.0), s(2.0)),
    );
    assert_eq!(
        Displacement::new(s(-5.5), s(2.5)) - Displacement::new(s(10.0), s(20.0)),
        Displacement::new(s(-15.5), s(-17.5)),
    );
}

/********************* Velocity ********************/

#[test]
fn new_creates_velocity() {
    let velocity = Velocity::new(s(-1.0), s(1.0));
    assert_eq!(velocity.0.x, s(-1.0));
    assert_eq!(velocity.0.y, s(1.0));
}

#[test]
fn velocity_gets_x_and_y() {
    let velocity = Velocity::new(s(-1.0), s(1.0));
    assert_eq!(velocity.x(), velocity.0.x);
    assert_eq!(velocity.y(), velocity.0.y);
}

#[test]
fn velocity_supports_partialEq() {
    // Test (-1, -1) == (-1, -1), (-1, -1) == (-1, 0),
    //    (-1, -1) == (-1, 1), ..., (1, 1,) == (1, 1).
    // There are nine combinations for each vector. 81 total test cases?
    // For each p1, generate and test each p2...
    for i1 in -1..2 {
        for j1 in -1..2 {
            let x1 = i1 as f64;
            let y1 = j1 as f64;
            let v1 = Velocity::new(s(x1), s(y1));
            for i2 in -1..2 {
                for j2 in -1..2 {
                    let x2 = i2 as f64;
                    let y2 = j2 as f64;
                    let v2 = Velocity::new(s(x2), s(y2));
                    if x1 == x2 && y1 == y2 {
                        assert_eq!(v1, v2);
                    } else {
                        assert_ne!(v1, v2);
                    }
                }
            }
        }
    }
}

#[test]
fn velocity_supports_multiplication_by_time() {
    assert_eq!(
        Velocity::new(s(1.0), s(2.0)) * Time(s(5.0)),
        Displacement::new(s(5.0), s(10.0))
    );
    assert_eq!(
        Time(s(5.0)) * Velocity::new(s(1.0), s(2.0)),
        Displacement::new(s(5.0), s(10.0))
    );
    assert_eq!(
        Velocity::new(s(1.0), s(2.0)) * Time(s(-5.0)),
        Displacement::new(s(-5.0), s(-10.0))
    );
    assert_eq!(
        Time(s(-5.0)) * Velocity::new(s(1.0), s(2.0)),
        Displacement::new(s(-5.0), s(-10.0))
    );
}

#[test]
fn velocity_supports_addition() {
    assert_eq!(
        Velocity::new(s(0.0), s(0.0)),
        Velocity::new(s(0.0), s(0.0)) + Velocity::new(s(0.0), s(0.0)),
    );
    assert_eq!(
        Velocity::new(s(1.0), s(0.0)) + Velocity::new(s(0.0), s(0.0)),
        Velocity::new(s(1.0), s(0.0)),
    );
    assert_eq!(
        Velocity::new(s(0.0), s(1.0)) + Velocity::new(s(0.0), s(0.0)),
        Velocity::new(s(0.0), s(1.0)),
    );
    assert_eq!(
        Velocity::new(s(1.0), s(1.0)) + Velocity::new(s(1.0), s(1.0)),
        Velocity::new(s(2.0), s(2.0)),
    );
    assert_eq!(
        Velocity::new(s(1.0), s(1.0)) + Velocity::new(s(-1.0), s(-1.0)),
        Velocity::new(s(0.0), s(0.0)),
    );
}

#[test]
fn velocity_supports_subtraction() {
    assert_eq!(
        Velocity::new(s(0.0), s(0.0)),
        Velocity::new(s(0.0), s(0.0)) - Velocity::new(s(0.0), s(0.0)),
    );
    assert_eq!(
        Velocity::new(s(1.0), s(0.0)) - Velocity::new(s(0.0), s(0.0)),
        Velocity::new(s(1.0), s(0.0)),
    );
    assert_eq!(
        Velocity::new(s(0.0), s(1.0)) - Velocity::new(s(0.0), s(0.0)),
        Velocity::new(s(0.0), s(1.0)),
    );
    assert_eq!(
        Velocity::new(s(1.0), s(1.0)) - Velocity::new(s(1.0), s(1.0)),
        Velocity::new(s(0.0), s(0.0)),
    );
    assert_eq!(
        Velocity::new(s(1.0), s(1.0)) - Velocity::new(s(-1.0), s(-1.0)),
        Velocity::new(s(2.0), s(2.0)),
    );
    assert_eq!(
        Velocity::new(s(-5.5), s(2.5)) - Velocity::new(s(10.0), s(20.0)),
        Velocity::new(s(-15.5), s(-17.5)),
    );
}

/********************* Acceleration ********************/

#[test]
fn new_creates_acceleration() {
    let acceleration = Acceleration::new(s(-1.0), s(1.0));
    assert_eq!(acceleration.0.x, s(-1.0));
    assert_eq!(acceleration.0.y, s(1.0));
}

#[test]
fn acceleration_gets_x_and_y() {
    let acceleration = Acceleration::new(s(-1.0), s(1.0));
    assert_eq!(acceleration.x(), acceleration.0.x);
    assert_eq!(acceleration.y(), acceleration.0.y);
}

#[test]
fn acceleration_supports_partialEq() {
    // Test (-1, -1) == (-1, -1), (-1, -1) == (-1, 0),
    //    (-1, -1) == (-1, 1), ..., (1, 1,) == (1, 1).
    // There are nine combinations for each vector. 81 total test cases?
    // For each p1, generate and test each p2...
    for i1 in -1..2 {
        for j1 in -1..2 {
            let x1 = i1 as f64;
            let y1 = j1 as f64;
            let a1 = Acceleration::new(s(x1), s(y1));
            for i2 in -1..2 {
                for j2 in -1..2 {
                    let x2 = i2 as f64;
                    let y2 = j2 as f64;
                    let a2 = Acceleration::new(s(x2), s(y2));
                    if x1 == x2 && y1 == y2 {
                        assert_eq!(a1, a2);
                    } else {
                        assert_ne!(a1, a2);
                    }
                }
            }
        }
    }
}

#[test]
fn acceleration_supports_scalar_multiplication() {
    assert_eq!(
        Acceleration::new(s(1.0), s(2.0)) * s(5.0),
        Acceleration::new(s(5.0), s(10.0))
    );
    assert_eq!(
        s(5.0) * Acceleration::new(s(1.0), s(2.0)),
        Acceleration::new(s(5.0), s(10.0))
    );
    assert_eq!(
        Acceleration::new(s(1.0), s(2.0)) * s(-5.0),
        Acceleration::new(s(-5.0), s(-10.0))
    );
    assert_eq!(
        s(-5.0) * Acceleration::new(s(1.0), s(2.0)),
        Acceleration::new(s(-5.0), s(-10.0))
    );
}

#[test]
fn acceleration_supports_multiplication_by_time() {
    assert_eq!(
        Acceleration::new(s(1.0), s(2.0)) * Time(s(5.0)),
        Velocity::new(s(5.0), s(10.0))
    );
    assert_eq!(
        Time(s(5.0)) * Acceleration::new(s(1.0), s(2.0)),
        Velocity::new(s(5.0), s(10.0))
    );
    assert_eq!(
        Acceleration::new(s(1.0), s(2.0)) * Time(s(-5.0)),
        Velocity::new(s(-5.0), s(-10.0))
    );
    assert_eq!(
        Time(s(-5.0)) * Acceleration::new(s(1.0), s(2.0)),
        Velocity::new(s(-5.0), s(-10.0))
    );
}

#[test]
fn acceleration_supports_addition() {
    assert_eq!(
        Acceleration::new(s(0.0), s(0.0)),
        Acceleration::new(s(0.0), s(0.0)) + Acceleration::new(s(0.0), s(0.0)),
    );
    assert_eq!(
        Acceleration::new(s(1.0), s(0.0)) + Acceleration::new(s(0.0), s(0.0)),
        Acceleration::new(s(1.0), s(0.0)),
    );
    assert_eq!(
        Acceleration::new(s(0.0), s(1.0)) + Acceleration::new(s(0.0), s(0.0)),
        Acceleration::new(s(0.0), s(1.0)),
    );
    assert_eq!(
        Acceleration::new(s(1.0), s(1.0)) + Acceleration::new(s(1.0), s(1.0)),
        Acceleration::new(s(2.0), s(2.0)),
    );
    assert_eq!(
        Acceleration::new(s(1.0), s(1.0)) + Acceleration::new(s(-1.0), s(-1.0)),
        Acceleration::new(s(0.0), s(0.0)),
    );
}

#[test]
fn acceleration_supports_subtraction() {
    assert_eq!(
        Acceleration::new(s(0.0), s(0.0)),
        Acceleration::new(s(0.0), s(0.0)) - Acceleration::new(s(0.0), s(0.0)),
    );
    assert_eq!(
        Acceleration::new(s(1.0), s(0.0)) - Acceleration::new(s(0.0), s(0.0)),
        Acceleration::new(s(1.0), s(0.0)),
    );
    assert_eq!(
        Acceleration::new(s(0.0), s(1.0)) - Acceleration::new(s(0.0), s(0.0)),
        Acceleration::new(s(0.0), s(1.0)),
    );
    assert_eq!(
        Acceleration::new(s(1.0), s(1.0)) - Acceleration::new(s(1.0), s(1.0)),
        Acceleration::new(s(0.0), s(0.0)),
    );
    assert_eq!(
        Acceleration::new(s(1.0), s(1.0)) - Acceleration::new(s(-1.0), s(-1.0)),
        Acceleration::new(s(2.0), s(2.0)),
    );
    assert_eq!(
        Acceleration::new(s(-5.5), s(2.5)) - Acceleration::new(s(10.0), s(20.0)),
        Acceleration::new(s(-15.5), s(-17.5)),
    );
}

/********************* Force ********************/

#[test]
fn new_creates_force() {
    let force = Force::new(s(-1.0), s(1.0));
    assert_eq!(force.0.x, s(-1.0));
    assert_eq!(force.0.y, s(1.0));
}

#[test]
fn force_gets_x_and_y() {
    let force = Force::new(s(-1.0), s(1.0));
    assert_eq!(force.x(), force.0.x);
    assert_eq!(force.y(), force.0.y);
}

#[test]
fn force_supports_partialEq() {
    // Test (-1, -1) == (-1, -1), (-1, -1) == (-1, 0),
    //    (-1, -1) == (-1, 1), ..., (1, 1,) == (1, 1).
    // There are nine combinations for each vector. 81 total test cases?
    // For each p1, generate and test each p2...
    for i1 in -1..2 {
        for j1 in -1..2 {
            let x1 = i1 as f64;
            let y1 = j1 as f64;
            let f1 = Force::new(s(x1), s(y1));
            for i2 in -1..2 {
                for j2 in -1..2 {
                    let x2 = i2 as f64;
                    let y2 = j2 as f64;
                    let f2 = Force::new(s(x2), s(y2));
                    if x1 == x2 && y1 == y2 {
                        assert_eq!(f1, f2);
                    } else {
                        assert_ne!(f1, f2);
                    }
                }
            }
        }
    }
}

#[test]
fn force_supports_division_by_mass() {
    assert_eq!(
        Force::new(s(5.0), s(10.0)) / Mass::new(s(5.0)).unwrap(),
        Acceleration::new(s(1.0), s(2.0))
    );
    // No mass is negative, so the quotient by one cannot be formed.
    assert!(Mass::new(s(-5.0)).is_err());
}

#[test]
fn force_supports_addition() {
    assert_eq!(
        Force::new(s(0.0), s(0.0)),
        Force::new(s(0.0), s(0.0)) + Force::new(s(0.0), s(0.0)),
    );
    assert_eq!(
        Force::new(s(1.0), s(0.0)) + Force::new(s(0.0), s(0.0)),
        Force::new(s(1.0), s(0.0)),
    );
    assert_eq!(
        Force::new(s(0.0), s(1.0)) + Force::new(s(0.0), s(0.0)),
        Force::new(s(0.0), s(1.0)),
    );
    assert_eq!(
        Force::new(s(1.0), s(1.0)) + Force::new(s(1.0), s(1.0)),
        Force::new(s(2.0), s(2.0)),
    );
    assert_eq!(
        Force::new(s(1.0), s(1.0)) + Force::new(s(-1.0), s(-1.0)),
        Force::new(s(0.0), s(0.0)),
    );
}

#[test]
fn force_supports_subtraction() {
    assert_eq!(
        Force::new(s(0.0), s(0.0)),
        Force::new(s(0.0), s(0.0)) - Force::new(s(0.0), s(0.0)),
    );
    assert_eq!(
        Force::new(s(1.0), s(0.0)) - Force::new(s(0.0), s(0.0)),
        Force::new(s(1.0), s(0.0)),
    );
    assert_eq!(
        Force::new(s(0.0), s(1.0)) - Force::new(s(0.0), s(0.0)),
        Force::new(s(0.0), s(1.0)),
    );
    assert_eq!(
        Force::new(s(1.0), s(1.0)) - Force::new(s(1.0), s(1.0)),
        Force::new(s(0.0), s(0.0)),
    );
    assert_eq!(
        Force::new(s(1.0), s(1.0)) - Force::new(s(-1.0), s(-1.0)),
        Force::new(s(2.0), s(2.0)),
    );
    assert_eq!(
        Force::new(s(-5.5), s(2.5)) - Force::new(s(10.0), s(20.0)),
        Force::new(s(-15.5), s(-17.5)),
    );
}

/********************* Ticks ********************/

#[test]
fn ticks_supports_partialEq() {
    assert_eq!(Ticks(0), Ticks(0));
    assert_eq!(Ticks(1), Ticks(1));

    assert_ne!(Ticks(1), Ticks(0));
    assert_ne!(Ticks(0), Ticks(1));
}
