//! Distances between positions.

use crate::physical_quantities::{components_sub, Components, Displacement};
use crate::scalar::{
    binary64_sqrt, float_difference, float_le, float_lt, float_product, float_sum, magnitude, Scalar,
};
use vstd::prelude::*;

verus! {

/// The Euclidean distance between two points: the rounded square root of the
/// rounded sum of the rounded squares of the coordinate differences.
pub open spec fn distance(a: Components, b: Components) -> u64 {
    let dx = float_difference(a.x, b.x);
    let dy = float_difference(a.y, b.y);
    binary64_sqrt(float_sum(float_product(dx, dx), float_product(dy, dy)))
}

/// Whether `point` lies in the disc of the given radius around `center`. The
/// sign of the radius is ignored. The rim belongs to the disc unless `strict`
/// is set.
pub open spec fn within_radius(point: Components, radius: u64, center: Components, strict: bool) -> bool {
    if strict {
        float_lt(distance(point, center), magnitude(radius))
    } else {
        float_le(distance(point, center), magnitude(radius))
    }
}

/// Determines whether a point is within a radius of another point.
///
/// The absolute value of `radius` is used. A point on the rim counts as
/// inside, unless `use_strict_inequality` is set.
pub fn is_within_radius(
    point: Displacement,
    radius: Scalar,
    center_of_radius: Displacement,
    use_strict_inequality: bool,
) -> (r: bool)
    ensures
        r == within_radius(point@, radius@, center_of_radius@, use_strict_inequality),
{
    let distance = measure_distance(point, center_of_radius);
    if use_strict_inequality {
        distance.lt(radius.abs())
    } else {
        distance.le(radius.abs())
    }
}

/// The distance between two points.
pub fn measure_distance(point1: Displacement, point2: Displacement) -> (r: Scalar)
    ensures
        r@ == distance(point1@, point2@),
{
    let dx = point1.x() - point2.x();
    let dy = point1.y() - point2.y();
    (dx * dx + dy * dy).sqrt()
}

/// The displacement that leads from `from` to `to`.
pub fn get_displacement_vector(from: Displacement, to: Displacement) -> (r: Displacement)
    ensures
        r@ == components_sub(to@, from@),
{
    to - from
}

} // verus!
