//! Random numbers, drawn from the thread-local generator.

use crate::rect::Rect;
use crate::vector::Vec2;
use vstd::prelude::*;

verus! {

/// Draws a number with `nannou::rand::random_range`, which swaps the bounds
/// where they are out of order and then samples the half-open range between
/// them: the result is at least the smaller bound and less than the larger.
/// Equal bounds make an empty range, which the sampler does not accept.
#[verifier::external_body]
fn sample_range(min: i64, max: i64) -> (r: i64)
    requires
        min != max,
    ensures
        min < max ==> min <= r < max,
        max < min ==> max <= r < min,
{
    nannou::rand::random_range(min, max)
}

/// Draws a random number between two bounds, in either order: at least the
/// smaller and less than the larger, or the bound itself where both are equal.
pub fn random_range(min: i64, max: i64) -> (r: i64)
    ensures
        min < max ==> min <= r < max,
        max < min ==> max <= r < min,
        min == max ==> r == min,
{
    if min == max {
        min
    } else {
        sample_range(min, max)
    }
}

/// Draws a random point of a rectangle.
pub fn random_point(rect: &Rect) -> (p: Vec2)
    ensures
        rect.left <= rect.right && rect.bottom <= rect.top ==> rect.contains(p@),
        rect.left < rect.right ==> p.x < rect.right,
        rect.bottom < rect.top ==> p.y < rect.top,
{
    Vec2 { x: random_range(rect.left, rect.right), y: random_range(rect.bottom, rect.top) }
}

/// Draws a random vector whose coordinates are at least `-reach` and, unless
/// `reach` is zero, less than `reach`.
pub fn random_heading(reach: i64) -> (v: Vec2)
    requires
        0 <= reach,
    ensures
        v@.within(reach as int),
        0 < reach ==> v.x < reach && v.y < reach,
{
    Vec2 { x: random_range(-reach, reach), y: random_range(-reach, reach) }
}

} // verus!
