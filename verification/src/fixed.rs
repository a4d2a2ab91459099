//! Fixed-point arithmetic for pixel lengths and scale factors.
//!
//! A length is an `i64` that counts millionths of a pixel, a scale factor an
//! `i64` that counts millionths of one. Products are formed in `i128` and
//! divided with rounding toward negative infinity, so that every result is the
//! floor of the exact rational value.

use vstd::prelude::*;
use vstd::arithmetic::div_mod::{
    lemma_div_is_ordered, lemma_fundamental_div_mod, lemma_fundamental_div_mod_converse,
};

verus! {

/// The fixed-point representation of `1.0`.
pub const ONE: i64 = 1_000_000;

/// Largest magnitude of a coordinate of a laid-out box: ten million pixels.
pub const COORD_MAX: i64 = 10_000_000_000_000;

/// Largest scale-correction factor of a laid-out box: `1000.0`.
pub const SCALE_MAX: i64 = 1_000_000_000;

/// The quotient `n / d` rounded toward negative infinity; `0` where `d` is `0`.
pub open spec fn floor_div(n: int, d: int) -> int {
    if d > 0 {
        n / d
    } else if d < 0 {
        (-n) / (-d)
    } else {
        0
    }
}

/// The length `v` multiplied by the scale factor `factor`.
pub open spec fn scaled(v: int, factor: int) -> int {
    floor_div(v * factor, ONE as int)
}

/// Whether `v` can be held in an `i64`.
pub open spec fn fits_i64(v: int) -> bool {
    i64::MIN <= v <= i64::MAX
}

/// Whether `v` is a coordinate within the supported range.
pub open spec fn in_coord_range(v: int) -> bool {
    -COORD_MAX <= v <= COORD_MAX
}

/// Whether `factor` is a scale factor within the supported range.
pub open spec fn in_scale_range(factor: int) -> bool {
    0 < factor <= SCALE_MAX
}

/// `floor_div` is the one quotient whose remainder lies between zero and the
/// divisor.
pub proof fn lemma_floor_div_bounds(n: int, d: int)
    requires
        d != 0,
    ensures
        d > 0 ==> floor_div(n, d) * d <= n < floor_div(n, d) * d + d,
        d < 0 ==> floor_div(n, d) * d >= n > floor_div(n, d) * d + d,
{
    if d > 0 {
        lemma_fundamental_div_mod(n, d);
        assert(d * (n / d) == (n / d) * d) by (nonlinear_arith);
    } else {
        lemma_fundamental_div_mod(-n, -d);
        assert((-d) * ((-n) / (-d)) == -(((-n) / (-d)) * d)) by (nonlinear_arith);
    }
}

/// A quotient that leaves a remainder between zero and the divisor is
/// `floor_div`.
pub proof fn lemma_floor_div_unique(n: int, d: int, q: int)
    requires
        d > 0 && q * d <= n < q * d + d || d < 0 && q * d >= n > q * d + d,
    ensures
        floor_div(n, d) == q,
{
    if d > 0 {
        lemma_fundamental_div_mod_converse(n, d, q, n - q * d);
    } else {
        assert(q * (-d) == -(q * d)) by (nonlinear_arith);
        lemma_fundamental_div_mod_converse(-n, -d, q, -n - q * (-d));
    }
}

/// `floor_div` of a numerator that is not negative by a positive divisor is
/// not negative.
pub proof fn lemma_floor_div_non_negative(n: int, d: int)
    requires
        0 <= n,
        0 < d,
    ensures
        0 <= floor_div(n, d),
{
    lemma_floor_div_bounds(n, d);
    let q = floor_div(n, d);
    assert(0 <= q) by (nonlinear_arith)
        requires
            n < q * d + d,
            0 <= n,
            0 < d,
    ;
}

/// `floor_div` does not decrease when the numerator grows over a positive
/// divisor.
pub proof fn lemma_floor_div_monotonic(a: int, b: int, d: int)
    requires
        a <= b,
        d > 0,
    ensures
        floor_div(a, d) <= floor_div(b, d),
{
    lemma_div_is_ordered(a, b, d);
}

/// Scaling by a factor that is not negative keeps the order of two lengths.
pub proof fn lemma_scaled_monotonic(a: int, b: int, factor: int)
    requires
        a <= b,
        factor >= 0,
    ensures
        scaled(a, factor) <= scaled(b, factor),
{
    assert(a * factor <= b * factor) by (nonlinear_arith)
        requires
            a <= b,
            factor >= 0,
    ;
    lemma_floor_div_monotonic(a * factor, b * factor, ONE as int);
}

/// Largest magnitude that `floor_div_wide` takes: the square of `i64::MIN`.
pub(crate) const WIDE_MAX: i128 = 0x4000_0000_0000_0000_0000_0000_0000_0000;

/// Divides two wide integers, rounding toward negative infinity.
pub(crate) fn floor_div_wide(n: i128, d: i128) -> (q: i128)
    requires
        d != 0,
        -WIDE_MAX <= n <= WIDE_MAX,
        -WIDE_MAX <= d <= WIDE_MAX,
    ensures
        q == floor_div(n as int, d as int),
{
    let (a, b): (i128, i128) = if d > 0 {
        (n, d)
    } else {
        (-n, -d)
    };
    assert(floor_div(n as int, d as int) == a as int / b as int);
    if a >= 0 {
        a / b
    } else {
        let m: i128 = -a;
        let q: i128 = m / b;
        let r: i128 = m % b;
        proof {
            lemma_fundamental_div_mod(m as int, b as int);
            assert(b * q == q * b) by (nonlinear_arith);
            assert((-q) * b == -(q * b)) by (nonlinear_arith);
            assert((-q - 1) * b == -(q * b) - b) by (nonlinear_arith);
            if r == 0 {
                lemma_fundamental_div_mod_converse(a as int, b as int, -q as int, 0);
            } else {
                lemma_fundamental_div_mod_converse(a as int, b as int, -q - 1, b - r);
            }
        }
        if r == 0 {
            -q
        } else {
            -q - 1
        }
    }
}

/// Computes `a * b / d`, rounded toward negative infinity.
///
/// The product is formed exactly; `None` is returned where `d` is zero or the
/// quotient does not fit in an `i64`.
pub fn mul_div(a: i64, b: i64, d: i64) -> (r: Option<i64>)
    ensures
        r.is_some() <==> d != 0 && fits_i64(floor_div(a * b, d as int)),
        r.is_some() ==> r.unwrap() == floor_div(a * b, d as int),
{
    if d == 0 {
        return None;
    }
    assert(-WIDE_MAX <= a * b <= WIDE_MAX) by (nonlinear_arith)
        requires
            -0x8000_0000_0000_0000 <= a <= 0x7fff_ffff_ffff_ffff,
            -0x8000_0000_0000_0000 <= b <= 0x7fff_ffff_ffff_ffff,
    ;
    let product: i128 = (a as i128) * (b as i128);
    let q: i128 = floor_div_wide(product, d as i128);
    narrow(q)
}

/// Scales a coordinate by a scale factor, both within their supported ranges.
pub fn scale(v: i64, factor: i64) -> (r: i64)
    requires
        in_coord_range(v as int),
        in_scale_range(factor as int),
    ensures
        r == scaled(v as int, factor as int),
        -(COORD_MAX * 1000) <= r <= COORD_MAX * 1000,
{
    proof {
        assert(-(COORD_MAX * SCALE_MAX) <= v * factor <= COORD_MAX * SCALE_MAX) by (nonlinear_arith)
            requires
                -COORD_MAX <= v <= COORD_MAX,
                0 < factor <= SCALE_MAX,
        ;
        lemma_floor_div_bounds(v * factor, ONE as int);
    }
    let q: i128 = floor_div_wide((v as i128) * (factor as i128), ONE as i128);
    q as i64
}

/// Converts a wide integer to an `i64` where it fits.
pub fn narrow(v: i128) -> (r: Option<i64>)
    ensures
        r.is_some() <==> fits_i64(v as int),
        r.is_some() ==> r.unwrap() == v,
{
    if v < i64::MIN as i128 || v > i64::MAX as i128 {
        None
    } else {
        Some(v as i64)
    }
}

} // verus!
