//! Fixed-point scalars: truncating division, integer square roots and range mapping.
//!
//! A stored `i64` value `v` stands for the real number `v / SCALE`.

use vstd::prelude::*;
use vstd::std_specs::ops::{AddSpec, DivSpec, MulSpec, SubSpec};

verus! {

/// Fixed-point units in one world unit.
pub const SCALE: i64 = 1_000_000;

/// Largest magnitude that a stored parameter or boundary edge may have.
pub const LIMIT: i64 = 1_000_000_000_000;

/// Absolute value of an integer.
pub open spec fn magnitude(a: int) -> int {
    if a < 0 {
        -a
    } else {
        a
    }
}

/// Quotient of `a` by `b`, rounded toward zero; zero where `b` is zero.
pub open spec fn trunc_div(a: int, b: int) -> int {
    if b == 0 {
        0
    } else if (a >= 0) == (b > 0) {
        magnitude(a) / magnitude(b)
    } else {
        -(magnitude(a) / magnitude(b))
    }
}

/// `r` is the integer square root of `n`, rounded down.
pub open spec fn is_floor_sqrt(n: int, r: int) -> bool {
    0 <= r && r * r <= n && n < (r + 1) * (r + 1)
}

/// The integer square root of `n`, rounded down.
pub open spec fn floor_sqrt(n: int) -> int {
    choose|r: int| is_floor_sqrt(n, r)
}

/// The integer square root of `n`, rounded up.
pub open spec fn ceil_sqrt(n: int) -> int {
    if floor_sqrt(n) * floor_sqrt(n) == n {
        floor_sqrt(n)
    } else {
        floor_sqrt(n) + 1
    }
}

// Every number that is not negative has an integer square root.
proof fn lemma_floor_sqrt_witness(n: int) -> (r: int)
    requires
        0 <= n,
    ensures
        is_floor_sqrt(n, r),
    decreases n,
{
    if n == 0 {
        0
    } else {
        let p = lemma_floor_sqrt_witness(n - 1);
        let q = p + 1;
        if q * q <= n {
            assert(n < (q + 1) * (q + 1)) by (nonlinear_arith)
                requires
                    n - 1 < q * q,
                    0 <= q,
            ;
            q
        } else {
            p
        }
    }
}

/// Two integer square roots of one number are equal.
pub proof fn lemma_floor_sqrt_unique(n: int, a: int, b: int)
    requires
        is_floor_sqrt(n, a),
        is_floor_sqrt(n, b),
    ensures
        a == b,
{
    if a < b {
        assert((a + 1) * (a + 1) <= b * b) by (nonlinear_arith)
            requires
                0 <= a,
                a + 1 <= b,
        ;
    } else if b < a {
        assert((b + 1) * (b + 1) <= a * a) by (nonlinear_arith)
            requires
                0 <= b,
                b + 1 <= a,
        ;
    }
}

/// `floor_sqrt(n)` squared is at most `n`, and the next integer squared exceeds it.
pub proof fn lemma_floor_sqrt(n: int)
    requires
        0 <= n,
    ensures
        is_floor_sqrt(n, floor_sqrt(n)),
{
    let r = lemma_floor_sqrt_witness(n);
    assert(is_floor_sqrt(n, r));
}

/// Any `r` with `r * r <= n < (r + 1) * (r + 1)` is `floor_sqrt(n)`.
pub proof fn lemma_floor_sqrt_is(n: int, r: int)
    requires
        is_floor_sqrt(n, r),
    ensures
        floor_sqrt(n) == r,
{
    lemma_floor_sqrt(n);
    lemma_floor_sqrt_unique(n, r, floor_sqrt(n));
}

/// The square of `ceil_sqrt(n)` is the least square that is at least `n`.
pub proof fn lemma_ceil_sqrt(n: int)
    requires
        0 <= n,
    ensures
        0 <= ceil_sqrt(n),
        n <= ceil_sqrt(n) * ceil_sqrt(n),
        ceil_sqrt(n) > 0 ==> (ceil_sqrt(n) - 1) * (ceil_sqrt(n) - 1) < n,
        ceil_sqrt(n) == 0 <==> n == 0,
{
    lemma_floor_sqrt(n);
    let f = floor_sqrt(n);
    if f * f == n {
        assert((f - 1) * (f - 1) < f * f || f == 0) by (nonlinear_arith)
            requires
                0 <= f,
        ;
    } else {
        assert((f + 1 - 1) * (f + 1 - 1) == f * f);
    }
}

/// Computes the integer square root of `n`, rounded down.
pub fn isqrt(n: u128) -> (r: u128)
    ensures
        r == floor_sqrt(n as int),
        r < 0x1_0000_0000_0000_0000,
{
    let mut low: u128 = 0;
    let mut high: u128 = 0x1_0000_0000_0000_0000;
    assert(0x1_0000_0000_0000_0000int * 0x1_0000_0000_0000_0000int == u128::MAX + 1);
    while high - low > 1
        invariant
            low < high <= 0x1_0000_0000_0000_0000,
            low * low <= n,
            n < high * high,
            0x1_0000_0000_0000_0000int * 0x1_0000_0000_0000_0000int == u128::MAX + 1,
        decreases high - low,
    {
        let mid: u128 = low + (high - low) / 2;
        assert(mid * mid < 0x1_0000_0000_0000_0000int * 0x1_0000_0000_0000_0000int) by (nonlinear_arith)
            requires
                0 <= mid < 0x1_0000_0000_0000_0000int,
        ;
        if mid * mid <= n {
            low = mid;
        } else {
            high = mid;
        }
    }
    proof {
        lemma_floor_sqrt_is(n as int, low as int);
    }
    low
}

/// Computes the integer square root of `n`, rounded up.
pub fn isqrt_ceil(n: u128) -> (r: u128)
    ensures
        r == ceil_sqrt(n as int),
        r <= 0x1_0000_0000_0000_0000,
{
    let root: u128 = isqrt(n);
    proof {
        lemma_floor_sqrt(n as int);
    }
    if root * root == n {
        root
    } else {
        root + 1
    }
}

/// A truncated quotient by a positive divisor has the sign of the dividend
/// and, multiplied back, does not exceed the dividend in magnitude.
pub proof fn lemma_trunc_div_bounds(a: int, b: int)
    requires
        b > 0,
    ensures
        magnitude(trunc_div(a, b)) * b <= magnitude(a),
        magnitude(a) < (magnitude(trunc_div(a, b)) + 1) * b,
        a >= 0 ==> trunc_div(a, b) >= 0,
        a <= 0 ==> trunc_div(a, b) <= 0,
        magnitude(trunc_div(a, b)) == magnitude(a) / b,
{
    let m = magnitude(a);
    assert((m / b) * b <= m && m < (m / b + 1) * b && m / b >= 0) by (nonlinear_arith)
        requires
            m >= 0,
            b > 0,
    ;
}

/// A truncated quotient is at most `k` in magnitude where the dividend is at most `k * b`.
pub proof fn lemma_trunc_div_le(a: int, b: int, k: int)
    requires
        b > 0,
        0 <= k,
        magnitude(a) <= k * b,
    ensures
        magnitude(trunc_div(a, b)) <= k,
{
    lemma_trunc_div_bounds(a, b);
    let q = magnitude(trunc_div(a, b));
    if q > k {
        assert(q * b >= (k + 1) * b) by (nonlinear_arith)
            requires
                q >= k + 1,
                b > 0,
        ;
        assert((k + 1) * b == k * b + b) by (nonlinear_arith);
    }
}

/// The product of two fixed-point numbers: `a * b / SCALE`, rounded toward zero.
pub open spec fn fixed_product(a: int, b: int) -> int {
    trunc_div(a * b, SCALE as int)
}

/// Multiplies two fixed-point numbers; the result is widened so that it always fits.
pub fn fixed_mul(a: i64, b: i64) -> (r: i128)
    ensures
        r == fixed_product(a as int, b as int),
{
    let wide_a: i128 = a as i128;
    let wide_b: i128 = b as i128;
    assert(-0x4000_0000_0000_0000_0000_0000_0000_0000 <= wide_a * wide_b
        <= 0x4000_0000_0000_0000_0000_0000_0000_0000) by (nonlinear_arith)
        requires
            -0x8000_0000_0000_0000 <= wide_a <= 0x8000_0000_0000_0000,
            -0x8000_0000_0000_0000 <= wide_b <= 0x8000_0000_0000_0000,
    ;
    (wide_a * wide_b) / (SCALE as i128)
}

/// Where `num` falls in the second range when it is carried over from the
/// first range in proportion, rounded toward the start of the second range.
pub open spec fn map_value(
    num: int,
    start_one: int,
    stop_one: int,
    start_two: int,
    stop_two: int,
) -> int {
    trunc_div((num - start_one) * (stop_two - start_two), stop_one - start_one) + start_two
}

/// Maps a fixed-point number within one range to the matching number within
/// another range, multiplying before it divides so that nothing is lost
/// but the last rounding.
///
/// Gives `None` where the first range is empty or the mapped number does not fit.
pub fn map_fixed(num: i64, start_one: i64, stop_one: i64, start_two: i64, stop_two: i64) -> (r:
    Option<i64>)
    ensures
        r is Some <==> start_one != stop_one && i64::MIN <= map_value(
            num as int,
            start_one as int,
            stop_one as int,
            start_two as int,
            stop_two as int,
        ) <= i64::MAX,
        r is Some ==> r.unwrap() == map_value(
            num as int,
            start_one as int,
            stop_one as int,
            start_two as int,
            stop_two as int,
        ),
{
    let span: i128 = stop_one as i128 - start_one as i128;
    if span == 0 {
        return None;
    }
    let offset: i128 = num as i128 - start_one as i128;
    let width: i128 = stop_two as i128 - start_two as i128;
    let span_size: u128 = if span < 0 {
        (-span) as u128
    } else {
        span as u128
    };
    let offset_size: u128 = if offset < 0 {
        (-offset) as u128
    } else {
        offset as u128
    };
    let width_size: u128 = if width < 0 {
        (-width) as u128
    } else {
        width as u128
    };
    assert(offset_size * width_size <= 0xffff_ffff_ffff_ffff * 0xffff_ffff_ffff_ffff)
        by (nonlinear_arith)
        requires
            0 <= offset_size <= 0xffff_ffff_ffff_ffff,
            0 <= width_size <= 0xffff_ffff_ffff_ffff,
    ;
    let size: u128 = (offset_size * width_size) / span_size;
    let positive: bool = ((offset < 0) == (width < 0)) == (span > 0);
    proof {
        let a = (offset as int) * (width as int);
        assert(magnitude(a) == offset_size * width_size && (a > 0 ==> (offset < 0) == (width < 0))
            && (a < 0 ==> (offset < 0) != (width < 0))) by (nonlinear_arith)
            requires
                a == (offset as int) * (width as int),
                offset_size == magnitude(offset as int),
                width_size == magnitude(width as int),
        ;
        assert(size == magnitude(a) / magnitude(span as int));
        assert(a == 0 ==> size == 0);
        assert(trunc_div(a, span as int) == if positive {
            size as int
        } else {
            -(size as int)
        });
    }
    if size > 0x1_0000_0000_0000_0000 {
        return None;
    }
    let quotient: i128 = if positive {
        size as i128
    } else {
        -(size as i128)
    };
    let mapped: i128 = quotient + start_two as i128;
    if mapped < i64::MIN as i128 || mapped > i64::MAX as i128 {
        None
    } else {
        Some(mapped as i64)
    }
}

/// Maps a number within a range to within another range, for any type of
/// number with the four operations: the offset from the start of the first
/// range is divided by the width of the first range, multiplied by the width
/// of the second and added to the start of the second, in this order. On
/// whole numbers the division rounds before the multiplication.
///
/// The first range must not be empty, and no operation may leave the type.
pub fn map<T>(num: T, start_one: T, stop_one: T, start_two: T, stop_two: T) -> (r: T) where
    T: core::ops::Mul<Output = T> + core::ops::Div<Output = T> + core::ops::Add<Output = T>
        + core::ops::Sub<Output = T> + Copy,

    requires
        T::obeys_sub_spec(),
        T::obeys_div_spec(),
        T::obeys_mul_spec(),
        T::obeys_add_spec(),
        num.sub_req(start_one),
        stop_one.sub_req(start_one),
        stop_two.sub_req(start_two),
        num.sub_spec(start_one).div_req(stop_one.sub_spec(start_one)),
        num.sub_spec(start_one).div_spec(stop_one.sub_spec(start_one)).mul_req(
            stop_two.sub_spec(start_two),
        ),
        num.sub_spec(start_one).div_spec(stop_one.sub_spec(start_one)).mul_spec(
            stop_two.sub_spec(start_two),
        ).add_req(start_two),
    ensures
        r == num.sub_spec(start_one).div_spec(stop_one.sub_spec(start_one)).mul_spec(
            stop_two.sub_spec(start_two),
        ).add_spec(start_two),
{
    (num - start_one) / (stop_one - start_one) * (stop_two - start_two) + start_two
}

} // verus!
