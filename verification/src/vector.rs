//! Points and vectors of the plane, in fixed-point coordinates.

use crate::math::{
    ceil_sqrt, fixed_mul, fixed_product, floor_sqrt, isqrt, isqrt_ceil, lemma_ceil_sqrt,
    lemma_trunc_div_bounds, magnitude, trunc_div, SCALE,
};
use vstd::prelude::*;

verus! {

/// A vector with unbounded integer coordinates: what a `Vec2` stands for.
pub struct Vector {
    pub x: int,
    pub y: int,
}

impl Vector {
    /// The vector of length zero.
    pub open spec fn zero() -> Vector {
        Vector { x: 0, y: 0 }
    }

    /// Coordinate-wise sum.
    pub open spec fn plus(self, other: Vector) -> Vector {
        Vector { x: self.x + other.x, y: self.y + other.y }
    }

    /// Coordinate-wise difference.
    pub open spec fn minus(self, other: Vector) -> Vector {
        Vector { x: self.x - other.x, y: self.y - other.y }
    }

    /// The squared length.
    pub open spec fn length_sq(self) -> int {
        self.x * self.x + self.y * self.y
    }

    /// Both coordinates are at most `limit` in magnitude.
    pub open spec fn within(self, limit: int) -> bool {
        -limit <= self.x <= limit && -limit <= self.y <= limit
    }

    /// Each coordinate divided by `n`, rounded toward zero.
    pub open spec fn divided(self, n: int) -> Vector {
        Vector { x: trunc_div(self.x, n), y: trunc_div(self.y, n) }
    }

    /// Each coordinate multiplied by the fixed-point number `factor`.
    pub open spec fn scaled(self, factor: int) -> Vector {
        Vector { x: fixed_product(self.x, factor), y: fixed_product(self.y, factor) }
    }

    /// The vector that points the same way and has length `length`, or a
    /// little less: each coordinate is multiplied by `length` and divided by
    /// the present length, which is rounded up, and the quotient is rounded
    /// toward zero. The zero vector points nowhere: it becomes the vector of
    /// that length along the positive x axis.
    pub open spec fn with_length(self, length: int) -> Vector {
        if self.length_sq() == 0 {
            Vector { x: length, y: 0 }
        } else {
            Vector {
                x: trunc_div(self.x * length, ceil_sqrt(self.length_sq())),
                y: trunc_div(self.y * length, ceil_sqrt(self.length_sq())),
            }
        }
    }

    /// The vector itself where it is no longer than `max`, else the vector
    /// that points the same way and has length `max`.
    pub open spec fn clamp_length_max(self, max: int) -> Vector {
        if self.length_sq() <= max * max {
            self
        } else {
            self.with_length(max)
        }
    }
}

/// A squared length is zero only for the zero vector, and bounds each coordinate.
pub proof fn lemma_length_sq(v: Vector)
    ensures
        v.length_sq() >= 0,
        v.length_sq() == 0 <==> v == Vector::zero(),
        v.x * v.x <= v.length_sq(),
        v.y * v.y <= v.length_sq(),
        magnitude(v.x) <= v.length_sq(),
        magnitude(v.y) <= v.length_sq(),
{
    let x = v.x;
    let y = v.y;
    assert(x * x >= 0 && (x * x == 0 <==> x == 0) && magnitude(x) <= x * x) by (nonlinear_arith);
    assert(y * y >= 0 && (y * y == 0 <==> y == 0) && magnitude(y) <= y * y) by (nonlinear_arith);
}

/// A vector set to a length is no longer than that length.
pub proof fn lemma_with_length(v: Vector, length: int)
    requires
        0 <= length,
    ensures
        v.with_length(length).length_sq() <= length * length,
        v.with_length(length).within(length),
{
    lemma_length_sq(v);
    let n = v.length_sq();
    if n == 0 {
        assert(0 * 0 == 0);
    } else {
        lemma_ceil_sqrt(n);
        let root = ceil_sqrt(n);
        let r = v.with_length(length);
        lemma_trunc_div_bounds(v.x * length, root);
        lemma_trunc_div_bounds(v.y * length, root);
        let rx = magnitude(r.x);
        let ry = magnitude(r.y);
        let vx = magnitude(v.x);
        let vy = magnitude(v.y);
        assert(magnitude(v.x * length) == vx * length && magnitude(v.y * length) == vy * length)
            by (nonlinear_arith)
            requires
                length >= 0,
                vx == magnitude(v.x),
                vy == magnitude(v.y),
        ;
        assert(rx * root <= vx * length);
        assert(ry * root <= vy * length);
        assert((rx * root) * (rx * root) <= (vx * length) * (vx * length)) by (nonlinear_arith)
            requires
                0 <= rx * root <= vx * length,
        ;
        assert((ry * root) * (ry * root) <= (vy * length) * (vy * length)) by (nonlinear_arith)
            requires
                0 <= ry * root <= vy * length,
        ;
        assert(vx * vx == v.x * v.x && vy * vy == v.y * v.y && rx * rx == r.x * r.x && ry * ry
            == r.y * r.y) by (nonlinear_arith)
            requires
                vx == magnitude(v.x),
                vy == magnitude(v.y),
                rx == magnitude(r.x),
                ry == magnitude(r.y),
        ;
        let rr = rx * rx + ry * ry;
        assert(rr * (root * root) == (rx * root) * (rx * root) + (ry * root) * (ry * root))
            by (nonlinear_arith)
            requires
                rr == rx * rx + ry * ry,
        ;
        assert((vx * length) * (vx * length) + (vy * length) * (vy * length) == n * (length
            * length)) by (nonlinear_arith)
            requires
                n == vx * vx + vy * vy,
        ;
        assert(rr * (root * root) <= n * (length * length));
        assert(n * (length * length) <= (root * root) * (length * length)) by (nonlinear_arith)
            requires
                n <= root * root,
                0 <= length * length,
        ;
        assert(rr <= length * length) by (nonlinear_arith)
            requires
                rr * (root * root) <= (root * root) * (length * length),
                root * root > 0,
        ;
        lemma_length_sq(r);
        lemma_square_bound(r.x, length);
        lemma_square_bound(r.y, length);
    }
}

/// A vector set to a length is not much shorter than that length: with
/// both coordinates moved one step away from zero it is longer than the
/// length times `(root - 1) / root`, where `root` is the length that the
/// vector had, rounded up.
pub proof fn lemma_with_length_close(v: Vector, length: int)
    requires
        0 <= length,
        v.length_sq() > 0,
    ensures
        ({
            let r = v.with_length(length);
            let root = ceil_sqrt(v.length_sq());
            ((magnitude(r.x) + 1) * (magnitude(r.x) + 1) + (magnitude(r.y) + 1) * (magnitude(r.y)
                + 1)) * (root * root) >= ((root - 1) * (root - 1)) * (length * length)
        }),
{
    lemma_length_sq(v);
    let n = v.length_sq();
    lemma_ceil_sqrt(n);
    let root = ceil_sqrt(n);
    let r = v.with_length(length);
    lemma_trunc_div_bounds(v.x * length, root);
    lemma_trunc_div_bounds(v.y * length, root);
    let sx = magnitude(r.x) + 1;
    let sy = magnitude(r.y) + 1;
    let vx = magnitude(v.x);
    let vy = magnitude(v.y);
    assert(magnitude(v.x * length) == vx * length && magnitude(v.y * length) == vy * length)
        by (nonlinear_arith)
        requires
            length >= 0,
            vx == magnitude(v.x),
            vy == magnitude(v.y),
    ;
    assert((sx * root) * (sx * root) >= (vx * length) * (vx * length)) by (nonlinear_arith)
        requires
            0 <= vx * length < sx * root,
    ;
    assert((sy * root) * (sy * root) >= (vy * length) * (vy * length)) by (nonlinear_arith)
        requires
            0 <= vy * length < sy * root,
    ;
    assert(vx * vx == v.x * v.x && vy * vy == v.y * v.y) by (nonlinear_arith)
        requires
            vx == magnitude(v.x),
            vy == magnitude(v.y),
    ;
    let ss = sx * sx + sy * sy;
    assert(ss * (root * root) == (sx * root) * (sx * root) + (sy * root) * (sy * root))
        by (nonlinear_arith)
        requires
            ss == sx * sx + sy * sy,
    ;
    assert((vx * length) * (vx * length) + (vy * length) * (vy * length) == n * (length * length))
        by (nonlinear_arith)
        requires
            n == vx * vx + vy * vy,
    ;
    assert(n * (length * length) >= ((root - 1) * (root - 1)) * (length * length))
        by (nonlinear_arith)
        requires
            (root - 1) * (root - 1) < n,
            0 <= length * length,
    ;
}

/// An integer whose square is at most `b * b` is at most `b` in magnitude.
pub proof fn lemma_square_bound(a: int, b: int)
    requires
        0 <= b,
        a * a <= b * b,
    ensures
        -b <= a <= b,
{
    if a > b {
        assert(a * a > b * b) by (nonlinear_arith)
            requires
                a > b,
                b >= 0,
        ;
    }
    if a < -b {
        assert(a * a > b * b) by (nonlinear_arith)
            requires
                a < -b,
                b >= 0,
        ;
    }
}

/// A vector clamped to a length is no longer than that length.
pub proof fn lemma_clamp_length_max(v: Vector, max: int)
    requires
        0 <= max,
    ensures
        v.clamp_length_max(max).length_sq() <= max * max,
        v.clamp_length_max(max).within(max),
{
    lemma_with_length(v, max);
    let r = v.clamp_length_max(max);
    lemma_length_sq(r);
    lemma_square_bound(r.x, max);
    lemma_square_bound(r.y, max);
}

/// A point or vector of the plane in fixed-point coordinates.
#[derive(Clone, Copy, PartialEq, Eq, Structural, Debug)]
pub struct Vec2 {
    pub x: i64,
    pub y: i64,
}

impl View for Vec2 {
    type V = Vector;

    open spec fn view(&self) -> Vector {
        Vector { x: self.x as int, y: self.y as int }
    }
}

impl Vector {
    /// Both coordinates can be stored in a `Vec2`.
    pub open spec fn storable(self) -> bool {
        i64::MIN <= self.x <= i64::MAX && i64::MIN <= self.y <= i64::MAX
    }
}

impl Vec2 {
    /// The vector with the given coordinates.
    pub fn new(x: i64, y: i64) -> (v: Vec2)
        ensures
            v == (Vec2 { x, y }),
    {
        Vec2 { x, y }
    }

    /// The vector of length zero.
    pub fn zero() -> (v: Vec2)
        ensures
            v == (Vec2 { x: 0, y: 0 }),
            v@ == Vector::zero(),
    {
        Vec2 { x: 0, y: 0 }
    }

    /// Whether both coordinates are at most `limit` in magnitude.
    pub fn is_within(self, limit: i64) -> (b: bool)
        requires
            0 <= limit,
        ensures
            b == self@.within(limit as int),
    {
        -limit <= self.x && self.x <= limit && -limit <= self.y && self.y <= limit
    }

    /// Coordinate-wise sum.
    pub fn plus(self, other: Vec2) -> (r: Vec2)
        requires
            self@.plus(other@).storable(),
        ensures
            r@ == self@.plus(other@),
    {
        Vec2 { x: self.x + other.x, y: self.y + other.y }
    }

    /// Coordinate-wise difference.
    pub fn minus(self, other: Vec2) -> (r: Vec2)
        requires
            self@.minus(other@).storable(),
        ensures
            r@ == self@.minus(other@),
    {
        Vec2 { x: self.x - other.x, y: self.y - other.y }
    }

    /// The squared length.
    pub fn length_squared(self) -> (r: u128)
        ensures
            r == self@.length_sq(),
            r <= 0x8000_0000_0000_0000_0000_0000_0000_0000,
    {
        let x: i128 = self.x as i128;
        let y: i128 = self.y as i128;
        assert(0 <= x * x <= 0x4000_0000_0000_0000_0000_0000_0000_0000) by (nonlinear_arith)
            requires
                -0x8000_0000_0000_0000 <= x <= 0x8000_0000_0000_0000,
        ;
        assert(0 <= y * y <= 0x4000_0000_0000_0000_0000_0000_0000_0000) by (nonlinear_arith)
            requires
                -0x8000_0000_0000_0000 <= y <= 0x8000_0000_0000_0000,
        ;
        (x * x) as u128 + (y * y) as u128
    }

    /// The length, rounded down.
    pub fn length(self) -> (r: u64)
        ensures
            r == floor_sqrt(self@.length_sq()),
    {
        isqrt(self.length_squared()) as u64
    }

    /// The squared distance between two points that are less than the whole
    /// range of a coordinate apart.
    pub fn distance_squared(self, other: Vec2) -> (r: u128)
        requires
            self@.minus(other@).storable(),
        ensures
            r == self@.minus(other@).length_sq(),
    {
        self.minus(other).length_squared()
    }

    /// The vector that points the same way and has the given length, or a
    /// little less for the rounding; for the zero vector, the vector of that
    /// length along the positive x axis.
    pub fn with_length(self, length: i64) -> (r: Vec2)
        requires
            0 <= length,
        ensures
            r@ == self@.with_length(length as int),
            r@.length_sq() <= length * length,
    {
        let n: u128 = self.length_squared();
        proof {
            lemma_with_length(self@, length as int);
        }
        if n == 0 {
            return Vec2 { x: length, y: 0 };
        }
        let root: i128 = isqrt_ceil(n) as i128;
        let wide: i128 = length as i128;
        let x: i128 = self.x as i128;
        let y: i128 = self.y as i128;
        proof {
            lemma_ceil_sqrt(n as int);
        }
        assert(-0x4000_0000_0000_0000_0000_0000_0000_0000 <= x * wide
            <= 0x4000_0000_0000_0000_0000_0000_0000_0000) by (nonlinear_arith)
            requires
                -0x8000_0000_0000_0000 <= x <= 0x8000_0000_0000_0000,
                0 <= wide <= 0x8000_0000_0000_0000,
        ;
        assert(-0x4000_0000_0000_0000_0000_0000_0000_0000 <= y * wide
            <= 0x4000_0000_0000_0000_0000_0000_0000_0000) by (nonlinear_arith)
            requires
                -0x8000_0000_0000_0000 <= y <= 0x8000_0000_0000_0000,
                0 <= wide <= 0x8000_0000_0000_0000,
        ;
        Vec2 { x: ((x * wide) / root) as i64, y: ((y * wide) / root) as i64 }
    }

    /// The vector of length one that points the same way; for the zero
    /// vector, the unit vector along the positive x axis.
    pub fn normalize(self) -> (r: Vec2)
        ensures
            r@ == self@.with_length(SCALE as int),
    {
        self.with_length(SCALE)
    }

    /// The vector itself where it is no longer than `max`, else the vector
    /// that points the same way and has length `max`.
    pub fn clamp_length_max(self, max: i64) -> (r: Vec2)
        requires
            0 <= max,
        ensures
            r@ == self@.clamp_length_max(max as int),
            r@.length_sq() <= max * max,
    {
        let wide: u128 = max as u128;
        assert(wide * wide <= 0x4000_0000_0000_0000_0000_0000_0000_0000) by (nonlinear_arith)
            requires
                0 <= wide <= 0x8000_0000_0000_0000,
        ;
        if self.length_squared() <= wide * wide {
            self
        } else {
            self.with_length(max)
        }
    }

    /// Each coordinate multiplied by the fixed-point number `factor`, where
    /// the products can be stored.
    pub fn scaled(self, factor: i64) -> (r: Option<Vec2>)
        ensures
            r is Some <==> self@.scaled(factor as int).storable(),
            r is Some ==> r.unwrap()@ == self@.scaled(factor as int),
    {
        let x: i128 = fixed_mul(self.x, factor);
        let y: i128 = fixed_mul(self.y, factor);
        if x < i64::MIN as i128 || x > i64::MAX as i128 || y < i64::MIN as i128 || y
            > i64::MAX as i128 {
            None
        } else {
            Some(Vec2 { x: x as i64, y: y as i64 })
        }
    }
}

} // verus!
