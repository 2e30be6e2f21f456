//! Physical quantities: time, mass, and the plane vectors displacement,
//! velocity, acceleration and force, each a type of its own.
//!
//! Every number is a binary64 [`Scalar`]. The view of a scalar quantity is its
//! bit pattern, the view of a vector quantity its two [`Components`]. The
//! operators are the dimensional relations: force over mass is acceleration,
//! acceleration times time is velocity, velocity times time is displacement.

use crate::scalar::{
    binary64_div, float_difference, float_eq, float_le, float_lt, float_product, float_sum, Scalar,
};
use core::cmp::Ordering;
use vstd::prelude::*;

verus! {

/// The two components of a plane vector, as bit patterns.
pub struct Components {
    pub x: u64,
    pub y: u64,
}

/// Component-wise sum.
pub open spec fn components_add(a: Components, b: Components) -> Components {
    Components { x: float_sum(a.x, b.x), y: float_sum(a.y, b.y) }
}

/// Component-wise difference.
pub open spec fn components_sub(a: Components, b: Components) -> Components {
    Components { x: float_difference(a.x, b.x), y: float_difference(a.y, b.y) }
}

/// Each component times `s`.
pub open spec fn components_scale(a: Components, s: u64) -> Components {
    Components { x: float_product(a.x, s), y: float_product(a.y, s) }
}

/// Each component over `s`.
pub open spec fn components_divide(a: Components, s: u64) -> Components {
    Components { x: binary64_div(a.x, s), y: binary64_div(a.y, s) }
}

/// Numeric equality of both components.
pub open spec fn components_eq(a: Components, b: Components) -> bool {
    float_eq(a.x, b.x) && float_eq(a.y, b.y)
}

/// The vector with the given components.
pub open spec fn vector_of(c: Components) -> Vector2 {
    Vector2 { x: Scalar { bits: c.x }, y: Scalar { bits: c.y } }
}

/// The displacement with the given components.
pub open spec fn displacement_of(c: Components) -> Displacement {
    Displacement(vector_of(c))
}

/// The force with the given components.
pub open spec fn force_of(c: Components) -> Force {
    Force(vector_of(c))
}

/// The vector whose components are both positive zero.
pub open spec fn components_zero() -> Components {
    Components { x: 0, y: 0 }
}

/// A length of time, in whatever unit the caller thinks in.
#[derive(Clone, Copy, Debug)]
pub struct Time(pub Scalar);

impl View for Time {
    type V = u64;

    open spec fn view(&self) -> u64 {
        self.0@
    }
}

impl Time {
    pub fn new(t: Scalar) -> (r: Time)
        ensures
            r@ == t@,
    {
        Time(t)
    }

    pub fn get_number(&self) -> (r: Scalar)
        ensures
            r@ == self@,
    {
        self.0
    }

    /// Numeric `<=`.
    pub fn le(&self, other: Time) -> (r: bool)
        ensures
            r == float_le(self@, other@),
    {
        self.0.le(other.0)
    }

    /// Numeric `<`.
    pub fn lt(&self, other: Time) -> (r: bool)
        ensures
            r == float_lt(self@, other@),
    {
        self.0.lt(other.0)
    }
}

impl PartialEq for Time {
    fn eq(&self, other: &Time) -> (r: bool) {
        self.0 == other.0
    }
}

impl vstd::std_specs::cmp::PartialEqSpecImpl for Time {
    open spec fn obeys_eq_spec() -> bool {
        true
    }

    open spec fn eq_spec(&self, other: &Time) -> bool {
        float_eq(self@, other@)
    }
}

impl PartialOrd for Time {
    fn partial_cmp(&self, other: &Time) -> (r: Option<Ordering>) {
        if self.0.lt(other.0) {
            Some(Ordering::Less)
        } else if self.0.equals(other.0) {
            Some(Ordering::Equal)
        } else if other.0.lt(self.0) {
            Some(Ordering::Greater)
        } else {
            None
        }
    }
}

impl vstd::std_specs::cmp::PartialOrdSpecImpl for Time {
    open spec fn obeys_partial_cmp_spec() -> bool {
        true
    }

    /// The order of the numbers; none where either is a NaN.
    open spec fn partial_cmp_spec(&self, other: &Time) -> Option<Ordering> {
        if float_lt(self@, other@) {
            Some(Ordering::Less)
        } else if float_eq(self@, other@) {
            Some(Ordering::Equal)
        } else if float_lt(other@, self@) {
            Some(Ordering::Greater)
        } else {
            None
        }
    }
}

/// Time scaled by a coefficient.
impl core::ops::Mul<Scalar> for Time {
    type Output = Time;

    fn mul(self, rhs: Scalar) -> (r: Time)
        ensures
            r@ == float_product(self@, rhs@),
    {
        Time(self.0 * rhs)
    }
}

impl vstd::std_specs::ops::MulSpecImpl<Scalar> for Time {
    open spec fn obeys_mul_spec() -> bool {
        true
    }

    open spec fn mul_req(self, rhs: Scalar) -> bool {
        true
    }

    open spec fn mul_spec(self, rhs: Scalar) -> Time {
        Time(Scalar { bits: float_product(self@, rhs@) })
    }
}

/// The sum of two times.
impl core::ops::Add for Time {
    type Output = Time;

    fn add(self, rhs: Time) -> (r: Time)
        ensures
            r@ == float_sum(self@, rhs@),
    {
        Time(self.0 + rhs.0)
    }
}

impl vstd::std_specs::ops::AddSpecImpl for Time {
    open spec fn obeys_add_spec() -> bool {
        true
    }

    open spec fn add_req(self, rhs: Time) -> bool {
        true
    }

    open spec fn add_spec(self, rhs: Time) -> Time {
        Time(Scalar { bits: float_sum(self@, rhs@) })
    }
}

/// The difference of two times, which may be negative.
impl core::ops::Sub for Time {
    type Output = Time;

    fn sub(self, rhs: Time) -> (r: Time)
        ensures
            r@ == float_difference(self@, rhs@),
    {
        Time(self.0 - rhs.0)
    }
}

impl vstd::std_specs::ops::SubSpecImpl for Time {
    open spec fn obeys_sub_spec() -> bool {
        true
    }

    open spec fn sub_req(self, rhs: Time) -> bool {
        true
    }

    open spec fn sub_spec(self, rhs: Time) -> Time {
        Time(Scalar { bits: float_difference(self@, rhs@) })
    }
}

/// A two-dimensional vector.
#[derive(Clone, Copy, Debug)]
pub struct Vector2 {
    pub x: Scalar,
    pub y: Scalar,
}

impl View for Vector2 {
    type V = Components;

    open spec fn view(&self) -> Components {
        Components { x: self.x@, y: self.y@ }
    }
}

impl Vector2 {
    pub fn new(x: Scalar, y: Scalar) -> (r: Vector2)
        ensures
            r@ == (Components { x: x@, y: y@ }),
    {
        Vector2 { x, y }
    }
}

impl PartialEq for Vector2 {
    fn eq(&self, other: &Vector2) -> (r: bool) {
        self.x == other.x && self.y == other.y
    }
}

impl vstd::std_specs::cmp::PartialEqSpecImpl for Vector2 {
    open spec fn obeys_eq_spec() -> bool {
        true
    }

    open spec fn eq_spec(&self, other: &Vector2) -> bool {
        components_eq(self@, other@)
    }
}

/// Scalar multiplication, the vector on the left.
impl core::ops::Mul<Scalar> for Vector2 {
    type Output = Vector2;

    fn mul(self, rhs: Scalar) -> (r: Vector2)
        ensures
            r@ == components_scale(self@, rhs@),
    {
        Vector2 { x: self.x * rhs, y: self.y * rhs }
    }
}

impl vstd::std_specs::ops::MulSpecImpl<Scalar> for Vector2 {
    open spec fn obeys_mul_spec() -> bool {
        true
    }

    open spec fn mul_req(self, rhs: Scalar) -> bool {
        true
    }

    open spec fn mul_spec(self, rhs: Scalar) -> Vector2 {
        vector_of(components_scale(self@, rhs@))
    }
}

/// Scalar multiplication, the vector on the right.
impl core::ops::Mul<Vector2> for Scalar {
    type Output = Vector2;

    fn mul(self, rhs: Vector2) -> (r: Vector2)
        ensures
            r@ == components_scale(rhs@, self@),
    {
        Vector2 { x: rhs.x * self, y: rhs.y * self }
    }
}

impl vstd::std_specs::ops::MulSpecImpl<Vector2> for Scalar {
    open spec fn obeys_mul_spec() -> bool {
        true
    }

    open spec fn mul_req(self, rhs: Vector2) -> bool {
        true
    }

    open spec fn mul_spec(self, rhs: Vector2) -> Vector2 {
        vector_of(components_scale(rhs@, self@))
    }
}

/// Scalar division.
impl core::ops::Div<Scalar> for Vector2 {
    type Output = Vector2;

    fn div(self, rhs: Scalar) -> (r: Vector2)
        ensures
            r@ == components_divide(self@, rhs@),
    {
        Vector2 { x: self.x / rhs, y: self.y / rhs }
    }
}

impl vstd::std_specs::ops::DivSpecImpl<Scalar> for Vector2 {
    open spec fn obeys_div_spec() -> bool {
        true
    }

    open spec fn div_req(self, rhs: Scalar) -> bool {
        true
    }

    open spec fn div_spec(self, rhs: Scalar) -> Vector2 {
        vector_of(components_divide(self@, rhs@))
    }
}

/// Vector addition.
impl core::ops::Add for Vector2 {
    type Output = Vector2;

    fn add(self, rhs: Vector2) -> (r: Vector2)
        ensures
            r@ == components_add(self@, rhs@),
    {
        Vector2 { x: self.x + rhs.x, y: self.y + rhs.y }
    }
}

impl vstd::std_specs::ops::AddSpecImpl for Vector2 {
    open spec fn obeys_add_spec() -> bool {
        true
    }

    open spec fn add_req(self, rhs: Vector2) -> bool {
        true
    }

    open spec fn add_spec(self, rhs: Vector2) -> Vector2 {
        vector_of(components_add(self@, rhs@))
    }
}

/// Vector subtraction.
impl core::ops::Sub for Vector2 {
    type Output = Vector2;

    fn sub(self, rhs: Vector2) -> (r: Vector2)
        ensures
            r@ == components_sub(self@, rhs@),
    {
        Vector2 { x: self.x - rhs.x, y: self.y - rhs.y }
    }
}

impl vstd::std_specs::ops::SubSpecImpl for Vector2 {
    open spec fn obeys_sub_spec() -> bool {
        true
    }

    open spec fn sub_req(self, rhs: Vector2) -> bool {
        true
    }

    open spec fn sub_spec(self, rhs: Vector2) -> Vector2 {
        vector_of(components_sub(self@, rhs@))
    }
}

/// Why a quantity could not be made.
#[derive(Clone, Copy, Debug, PartialEq, Eq, Structural)]
pub enum QuantityError {
    /// A mass must be greater than zero.
    MassNotPositive,
}

impl QuantityError {
    /// The complaint in words.
    pub fn message(&self) -> (r: &'static str)
        ensures
            r@ == "Mass must be positive."@,
    {
        "Mass must be positive."
    }
}

/// A mass. No value of this type is zero or negative.
#[derive(Clone, Copy, Debug)]
pub struct Mass(Scalar);

impl View for Mass {
    type V = u64;

    closed spec fn view(&self) -> u64 {
        self.0@
    }
}

impl Mass {
    #[verifier::type_invariant]
    spec fn positive(self) -> bool {
        !float_le(self.0@, 0)
    }

    /// A mass of `m`, which is refused exactly when `m <= 0`.
    pub fn new(m: Scalar) -> (r: Result<Mass, QuantityError>)
        ensures
            r is Err <==> float_le(m@, 0),
            r matches Ok(mass) ==> mass@ == m@,
            r matches Err(e) ==> e == QuantityError::MassNotPositive,
    {
        if m.le(Scalar::zero()) {
            Err(QuantityError::MassNotPositive)
        } else {
            Ok(Mass(m))
        }
    }

    pub fn get_number(&self) -> (r: Scalar)
        ensures
            r@ == self@,
            !float_le(r@, 0),
    {
        proof {
            use_type_invariant(self);
        }
        self.0
    }
}

impl PartialEq for Mass {
    fn eq(&self, other: &Mass) -> (r: bool) {
        self.0 == other.0
    }
}

impl vstd::std_specs::cmp::PartialEqSpecImpl for Mass {
    open spec fn obeys_eq_spec() -> bool {
        true
    }

    open spec fn eq_spec(&self, other: &Mass) -> bool {
        float_eq(self@, other@)
    }
}

/// Mass times acceleration is force.
impl core::ops::Mul<Acceleration> for Mass {
    type Output = Force;

    fn mul(self, rhs: Acceleration) -> (r: Force)
        ensures
            r@ == components_scale(rhs@, self@),
    {
        Force::new(rhs.x() * self.0, rhs.y() * self.0)
    }
}

impl vstd::std_specs::ops::MulSpecImpl<Acceleration> for Mass {
    open spec fn obeys_mul_spec() -> bool {
        true
    }

    open spec fn mul_req(self, rhs: Acceleration) -> bool {
        true
    }

    closed spec fn mul_spec(self, rhs: Acceleration) -> Force {
        Force(vector_of(components_scale(rhs@, self@)))
    }
}

/// A position (the displacement from the origin), or the displacement from
/// one position to another.
#[derive(Clone, Copy, Debug)]
pub struct Displacement(pub Vector2);

impl View for Displacement {
    type V = Components;

    open spec fn view(&self) -> Components {
        self.0@
    }
}

impl Displacement {
    pub fn new(x: Scalar, y: Scalar) -> (r: Displacement)
        ensures
            r@ == (Components { x: x@, y: y@ }),
    {
        Displacement(Vector2::new(x, y))
    }

    pub fn x(&self) -> (r: Scalar)
        ensures
            r@ == self@.x,
    {
        self.0.x
    }

    pub fn y(&self) -> (r: Scalar)
        ensures
            r@ == self@.y,
    {
        self.0.y
    }
}

impl PartialEq for Displacement {
    fn eq(&self, other: &Displacement) -> (r: bool) {
        self.0 == other.0
    }
}

impl vstd::std_specs::cmp::PartialEqSpecImpl for Displacement {
    open spec fn obeys_eq_spec() -> bool {
        true
    }

    open spec fn eq_spec(&self, other: &Displacement) -> bool {
        components_eq(self@, other@)
    }
}

/// The sum of two displacements.
impl core::ops::Add for Displacement {
    type Output = Displacement;

    fn add(self, rhs: Displacement) -> (r: Displacement)
        ensures
            r@ == components_add(self@, rhs@),
    {
        Displacement(self.0 + rhs.0)
    }
}

impl vstd::std_specs::ops::AddSpecImpl for Displacement {
    open spec fn obeys_add_spec() -> bool {
        true
    }

    open spec fn add_req(self, rhs: Displacement) -> bool {
        true
    }

    open spec fn add_spec(self, rhs: Displacement) -> Displacement {
        Displacement(vector_of(components_add(self@, rhs@)))
    }
}

/// The difference of two displacements.
impl core::ops::Sub for Displacement {
    type Output = Displacement;

    fn sub(self, rhs: Displacement) -> (r: Displacement)
        ensures
            r@ == components_sub(self@, rhs@),
    {
        Displacement(self.0 - rhs.0)
    }
}

impl vstd::std_specs::ops::SubSpecImpl for Displacement {
    open spec fn obeys_sub_spec() -> bool {
        true
    }

    open spec fn sub_req(self, rhs: Displacement) -> bool {
        true
    }

    open spec fn sub_spec(self, rhs: Displacement) -> Displacement {
        Displacement(vector_of(components_sub(self@, rhs@)))
    }
}

/// `+=` on displacements.
impl core::ops::AddAssign for Displacement {
    fn add_assign(&mut self, other: Displacement)
        ensures
            final(self)@ == components_add(old(self)@, other@),
    {
        *self = *self + other;
    }
}

/// `-=` on displacements.
impl core::ops::SubAssign for Displacement {
    fn sub_assign(&mut self, other: Displacement)
        ensures
            final(self)@ == components_sub(old(self)@, other@),
    {
        *self = *self - other;
    }
}

/// A velocity.
#[derive(Clone, Copy, Debug)]
pub struct Velocity(pub Vector2);

impl View for Velocity {
    type V = Components;

    open spec fn view(&self) -> Components {
        self.0@
    }
}

impl Velocity {
    pub fn new(x: Scalar, y: Scalar) -> (r: Velocity)
        ensures
            r@ == (Components { x: x@, y: y@ }),
    {
        Velocity(Vector2::new(x, y))
    }

    pub fn x(&self) -> (r: Scalar)
        ensures
            r@ == self@.x,
    {
        self.0.x
    }

    pub fn y(&self) -> (r: Scalar)
        ensures
            r@ == self@.y,
    {
        self.0.y
    }
}

impl PartialEq for Velocity {
    fn eq(&self, other: &Velocity) -> (r: bool) {
        self.0 == other.0
    }
}

impl vstd::std_specs::cmp::PartialEqSpecImpl for Velocity {
    open spec fn obeys_eq_spec() -> bool {
        true
    }

    open spec fn eq_spec(&self, other: &Velocity) -> bool {
        components_eq(self@, other@)
    }
}

/// Velocity times time is displacement.
impl core::ops::Mul<Time> for Velocity {
    type Output = Displacement;

    fn mul(self, rhs: Time) -> (r: Displacement)
        ensures
            r@ == components_scale(self@, rhs@),
    {
        Displacement(self.0 * rhs.0)
    }
}

impl vstd::std_specs::ops::MulSpecImpl<Time> for Velocity {
    open spec fn obeys_mul_spec() -> bool {
        true
    }

    open spec fn mul_req(self, rhs: Time) -> bool {
        true
    }

    open spec fn mul_spec(self, rhs: Time) -> Displacement {
        Displacement(vector_of(components_scale(self@, rhs@)))
    }
}

/// Time times velocity is displacement.
impl core::ops::Mul<Velocity> for Time {
    type Output = Displacement;

    fn mul(self, rhs: Velocity) -> (r: Displacement)
        ensures
            r@ == components_scale(rhs@, self@),
    {
        Displacement(self.0 * rhs.0)
    }
}

impl vstd::std_specs::ops::MulSpecImpl<Velocity> for Time {
    open spec fn obeys_mul_spec() -> bool {
        true
    }

    open spec fn mul_req(self, rhs: Velocity) -> bool {
        true
    }

    open spec fn mul_spec(self, rhs: Velocity) -> Displacement {
        Displacement(vector_of(components_scale(rhs@, self@)))
    }
}

/// The sum of two velocitys.
impl core::ops::Add for Velocity {
    type Output = Velocity;

    fn add(self, rhs: Velocity) -> (r: Velocity)
        ensures
            r@ == components_add(self@, rhs@),
    {
        Velocity(self.0 + rhs.0)
    }
}

impl vstd::std_specs::ops::AddSpecImpl for Velocity {
    open spec fn obeys_add_spec() -> bool {
        true
    }

    open spec fn add_req(self, rhs: Velocity) -> bool {
        true
    }

    open spec fn add_spec(self, rhs: Velocity) -> Velocity {
        Velocity(vector_of(components_add(self@, rhs@)))
    }
}

/// The difference of two velocitys.
impl core::ops::Sub for Velocity {
    type Output = Velocity;

    fn sub(self, rhs: Velocity) -> (r: Velocity)
        ensures
            r@ == components_sub(self@, rhs@),
    {
        Velocity(self.0 - rhs.0)
    }
}

impl vstd::std_specs::ops::SubSpecImpl for Velocity {
    open spec fn obeys_sub_spec() -> bool {
        true
    }

    open spec fn sub_req(self, rhs: Velocity) -> bool {
        true
    }

    open spec fn sub_spec(self, rhs: Velocity) -> Velocity {
        Velocity(vector_of(components_sub(self@, rhs@)))
    }
}

/// `+=` on velocitys.
impl core::ops::AddAssign for Velocity {
    fn add_assign(&mut self, other: Velocity)
        ensures
            final(self)@ == components_add(old(self)@, other@),
    {
        *self = *self + other;
    }
}

/// `-=` on velocitys.
impl core::ops::SubAssign for Velocity {
    fn sub_assign(&mut self, other: Velocity)
        ensures
            final(self)@ == components_sub(old(self)@, other@),
    {
        *self = *self - other;
    }
}

/// An acceleration.
#[derive(Clone, Copy, Debug)]
pub struct Acceleration(pub Vector2);

impl View for Acceleration {
    type V = Components;

    open spec fn view(&self) -> Components {
        self.0@
    }
}

impl Acceleration {
    pub fn new(x: Scalar, y: Scalar) -> (r: Acceleration)
        ensures
            r@ == (Components { x: x@, y: y@ }),
    {
        Acceleration(Vector2::new(x, y))
    }

    pub fn x(&self) -> (r: Scalar)
        ensures
            r@ == self@.x,
    {
        self.0.x
    }

    pub fn y(&self) -> (r: Scalar)
        ensures
            r@ == self@.y,
    {
        self.0.y
    }
}

impl PartialEq for Acceleration {
    fn eq(&self, other: &Acceleration) -> (r: bool) {
        self.0 == other.0
    }
}

impl vstd::std_specs::cmp::PartialEqSpecImpl for Acceleration {
    open spec fn obeys_eq_spec() -> bool {
        true
    }

    open spec fn eq_spec(&self, other: &Acceleration) -> bool {
        components_eq(self@, other@)
    }
}

/// Acceleration scaled by a coefficient on the right.
impl core::ops::Mul<Scalar> for Acceleration {
    type Output = Acceleration;

    fn mul(self, rhs: Scalar) -> (r: Acceleration)
        ensures
            r@ == components_scale(self@, rhs@),
    {
        Acceleration(self.0 * rhs)
    }
}

impl vstd::std_specs::ops::MulSpecImpl<Scalar> for Acceleration {
    open spec fn obeys_mul_spec() -> bool {
        true
    }

    open spec fn mul_req(self, rhs: Scalar) -> bool {
        true
    }

    open spec fn mul_spec(self, rhs: Scalar) -> Acceleration {
        Acceleration(vector_of(components_scale(self@, rhs@)))
    }
}

/// Acceleration scaled by a coefficient on the left.
impl core::ops::Mul<Acceleration> for Scalar {
    type Output = Acceleration;

    fn mul(self, rhs: Acceleration) -> (r: Acceleration)
        ensures
            r@ == components_scale(rhs@, self@),
    {
        Acceleration(rhs.0 * self)
    }
}

impl vstd::std_specs::ops::MulSpecImpl<Acceleration> for Scalar {
    open spec fn obeys_mul_spec() -> bool {
        true
    }

    open spec fn mul_req(self, rhs: Acceleration) -> bool {
        true
    }

    open spec fn mul_spec(self, rhs: Acceleration) -> Acceleration {
        Acceleration(vector_of(components_scale(rhs@, self@)))
    }
}

/// Acceleration times time is velocity.
impl core::ops::Mul<Time> for Acceleration {
    type Output = Velocity;

    fn mul(self, rhs: Time) -> (r: Velocity)
        ensures
            r@ == components_scale(self@, rhs@),
    {
        Velocity(self.0 * rhs.0)
    }
}

impl vstd::std_specs::ops::MulSpecImpl<Time> for Acceleration {
    open spec fn obeys_mul_spec() -> bool {
        true
    }

    open spec fn mul_req(self, rhs: Time) -> bool {
        true
    }

    open spec fn mul_spec(self, rhs: Time) -> Velocity {
        Velocity(vector_of(components_scale(self@, rhs@)))
    }
}

/// Time times acceleration is velocity.
impl core::ops::Mul<Acceleration> for Time {
    type Output = Velocity;

    fn mul(self, rhs: Acceleration) -> (r: Velocity)
        ensures
            r@ == components_scale(rhs@, self@),
    {
        Velocity(self.0 * rhs.0)
    }
}

impl vstd::std_specs::ops::MulSpecImpl<Acceleration> for Time {
    open spec fn obeys_mul_spec() -> bool {
        true
    }

    open spec fn mul_req(self, rhs: Acceleration) -> bool {
        true
    }

    open spec fn mul_spec(self, rhs: Acceleration) -> Velocity {
        Velocity(vector_of(components_scale(rhs@, self@)))
    }
}

/// The sum of two accelerations.
impl core::ops::Add for Acceleration {
    type Output = Acceleration;

    fn add(self, rhs: Acceleration) -> (r: Acceleration)
        ensures
            r@ == components_add(self@, rhs@),
    {
        Acceleration(self.0 + rhs.0)
    }
}

impl vstd::std_specs::ops::AddSpecImpl for Acceleration {
    open spec fn obeys_add_spec() -> bool {
        true
    }

    open spec fn add_req(self, rhs: Acceleration) -> bool {
        true
    }

    open spec fn add_spec(self, rhs: Acceleration) -> Acceleration {
        Acceleration(vector_of(components_add(self@, rhs@)))
    }
}

/// The difference of two accelerations.
impl core::ops::Sub for Acceleration {
    type Output = Acceleration;

    fn sub(self, rhs: Acceleration) -> (r: Acceleration)
        ensures
            r@ == components_sub(self@, rhs@),
    {
        Acceleration(self.0 - rhs.0)
    }
}

impl vstd::std_specs::ops::SubSpecImpl for Acceleration {
    open spec fn obeys_sub_spec() -> bool {
        true
    }

    open spec fn sub_req(self, rhs: Acceleration) -> bool {
        true
    }

    open spec fn sub_spec(self, rhs: Acceleration) -> Acceleration {
        Acceleration(vector_of(components_sub(self@, rhs@)))
    }
}

/// A force.
#[derive(Clone, Copy, Debug)]
pub struct Force(pub Vector2);

impl View for Force {
    type V = Components;

    open spec fn view(&self) -> Components {
        self.0@
    }
}

impl Force {
    pub fn new(x: Scalar, y: Scalar) -> (r: Force)
        ensures
            r@ == (Components { x: x@, y: y@ }),
    {
        Force(Vector2::new(x, y))
    }

    pub fn x(&self) -> (r: Scalar)
        ensures
            r@ == self@.x,
    {
        self.0.x
    }

    pub fn y(&self) -> (r: Scalar)
        ensures
            r@ == self@.y,
    {
        self.0.y
    }
}

impl PartialEq for Force {
    fn eq(&self, other: &Force) -> (r: bool) {
        self.0 == other.0
    }
}

impl vstd::std_specs::cmp::PartialEqSpecImpl for Force {
    open spec fn obeys_eq_spec() -> bool {
        true
    }

    open spec fn eq_spec(&self, other: &Force) -> bool {
        components_eq(self@, other@)
    }
}

/// Force over mass is acceleration.
impl core::ops::Div<Mass> for Force {
    type Output = Acceleration;

    fn div(self, rhs: Mass) -> (r: Acceleration)
        ensures
            r@ == components_divide(self@, rhs@),
    {
        Acceleration::new(self.x() / rhs.0, self.y() / rhs.0)
    }
}

impl vstd::std_specs::ops::DivSpecImpl<Mass> for Force {
    open spec fn obeys_div_spec() -> bool {
        true
    }

    open spec fn div_req(self, rhs: Mass) -> bool {
        true
    }

    closed spec fn div_spec(self, rhs: Mass) -> Acceleration {
        Acceleration(vector_of(components_divide(self@, rhs@)))
    }
}

/// The sum of two forces.
impl core::ops::Add for Force {
    type Output = Force;

    fn add(self, rhs: Force) -> (r: Force)
        ensures
            r@ == components_add(self@, rhs@),
    {
        Force(self.0 + rhs.0)
    }
}

impl vstd::std_specs::ops::AddSpecImpl for Force {
    open spec fn obeys_add_spec() -> bool {
        true
    }

    open spec fn add_req(self, rhs: Force) -> bool {
        true
    }

    open spec fn add_spec(self, rhs: Force) -> Force {
        Force(vector_of(components_add(self@, rhs@)))
    }
}

/// The difference of two forces.
impl core::ops::Sub for Force {
    type Output = Force;

    fn sub(self, rhs: Force) -> (r: Force)
        ensures
            r@ == components_sub(self@, rhs@),
    {
        Force(self.0 - rhs.0)
    }
}

impl vstd::std_specs::ops::SubSpecImpl for Force {
    open spec fn obeys_sub_spec() -> bool {
        true
    }

    open spec fn sub_req(self, rhs: Force) -> bool {
        true
    }

    open spec fn sub_spec(self, rhs: Force) -> Force {
        Force(vector_of(components_sub(self@, rhs@)))
    }
}

/// A number of ticks.
#[derive(Clone, Copy, Debug, PartialEq, Eq, Structural)]
pub struct Ticks(pub u64);

impl View for Ticks {
    type V = nat;

    open spec fn view(&self) -> nat {
        self.0 as nat
    }
}

impl Ticks {
    pub fn new(n: u64) -> (r: Ticks)
        ensures
            r@ == n,
    {
        Ticks(n)
    }

    pub fn get_number(&self) -> (r: u64)
        ensures
            r == self@,
    {
        self.0
    }
}

} // verus!
