//! Fixed-point arithmetic on `i64` values that count millionths of a unit.
//!
//! Every physical quantity in this crate (metres, seconds, kelvin, pascal,
//! newton, radians, degrees of latitude, ...) is an `i64` holding the quantity
//! multiplied by [`SCALE`]. Sums saturate at the ends of the `i64` range and
//! quotients round toward zero, so every operation is total and symmetric
//! under negation.
use vstd::prelude::*;

verus! {

/// The fixed-point representation of 1.
pub const SCALE: i64 = 1_000_000;

/// Clamps a mathematical integer into the `i64` range.
pub open spec fn sat(x: int) -> int {
    if x < i64::MIN as int {
        i64::MIN as int
    } else if x > i64::MAX as int {
        i64::MAX as int
    } else {
        x
    }
}

/// Absolute value of a mathematical integer.
pub open spec fn magnitude(x: int) -> int {
    if x < 0 {
        -x
    } else {
        x
    }
}

/// Quotient rounded toward zero.
pub open spec fn trunc_div(n: int, d: int) -> int
    recommends
        d != 0,
{
    if (n >= 0) == (d > 0) {
        magnitude(n) / magnitude(d)
    } else {
        -(magnitude(n) / magnitude(d))
    }
}

/// `a * b / d`, rounded toward zero and saturated.
pub open spec fn mul_div(a: int, b: int, d: int) -> int
    recommends
        d != 0,
{
    sat(trunc_div(a * b, d))
}

/// Product of two fixed-point numbers.
pub open spec fn scaled_mul(a: int, b: int) -> int {
    mul_div(a, b, SCALE as int)
}

/// Quotient of two fixed-point numbers.
pub open spec fn scaled_div(a: int, b: int) -> int
    recommends
        b != 0,
{
    mul_div(a, SCALE as int, b)
}

/// `x` limited to the interval `[lo, hi]`: `lo` for what lies below it, and
/// for the rest the smaller of `x` and `hi`.
pub open spec fn clamp(x: int, lo: int, hi: int) -> int {
    if x < lo {
        lo
    } else if x > hi {
        hi
    } else {
        x
    }
}

pub open spec fn min2(a: int, b: int) -> int {
    if a <= b {
        a
    } else {
        b
    }
}

pub open spec fn max2(a: int, b: int) -> int {
    if a >= b {
        a
    } else {
        b
    }
}

/// `r` is the integer square root of `n`.
pub open spec fn is_sqrt(n: int, r: int) -> bool {
    0 <= r && r * r <= n && n < (r + 1) * (r + 1)
}

/// The integer square root: the largest `r` with `r * r <= n`.
pub closed spec fn isqrt(n: int) -> int {
    choose|r: int| is_sqrt(n, r)
}

/// Square root of a fixed-point number; zero for negative arguments.
pub open spec fn scaled_sqrt(a: int) -> int {
    if a <= 0 {
        0
    } else {
        isqrt(a * SCALE as int)
    }
}

/// Two integer square roots of the same number are equal.
pub proof fn lemma_sqrt_unique(n: int, r1: int, r2: int)
    requires
        is_sqrt(n, r1),
        is_sqrt(n, r2),
    ensures
        r1 == r2,
{
    if r1 < r2 {
        assert((r1 + 1) * (r1 + 1) <= r2 * r2) by (nonlinear_arith)
            requires
                0 <= r1,
                r1 + 1 <= r2,
        ;
    } else if r2 < r1 {
        assert((r2 + 1) * (r2 + 1) <= r1 * r1) by (nonlinear_arith)
            requires
                0 <= r2,
                r2 + 1 <= r1,
        ;
    }
}

/// Any `r` that passes [`is_sqrt`] is the value of [`isqrt`].
pub proof fn lemma_isqrt_is(n: int, r: int)
    requires
        is_sqrt(n, r),
    ensures
        isqrt(n) == r,
{
    lemma_sqrt_unique(n, r, isqrt(n));
}

/// Every number that is not negative has an integer square root.
pub proof fn lemma_isqrt_exists(n: int)
    requires
        n >= 0,
    ensures
        is_sqrt(n, isqrt(n)),
    decreases n,
{
    if n == 0 {
        assert(is_sqrt(0, 0));
    } else {
        lemma_isqrt_exists(n - 1);
        let r = isqrt(n - 1);
        if (r + 1) * (r + 1) <= n {
            assert(n < (r + 2) * (r + 2)) by (nonlinear_arith)
                requires
                    n - 1 < (r + 1) * (r + 1),
                    r >= 0,
            ;
            assert(is_sqrt(n, r + 1));
        } else {
            assert(is_sqrt(n, r));
        }
    }
}

/// The integer square root of a number is at least as large as any number
/// whose square the number reaches.
pub proof fn lemma_isqrt_reaches(n: int, x: int)
    requires
        x * x <= n,
    ensures
        magnitude(x) <= isqrt(n),
{
    assert(x * x >= 0) by (nonlinear_arith);
    lemma_isqrt_exists(n);
    let r = isqrt(n);
    let m = magnitude(x);
    if m > r {
        assert(m * m >= (r + 1) * (r + 1)) by (nonlinear_arith)
            requires
                m >= r + 1,
                r >= 0,
        ;
        assert(m * m == x * x) by (nonlinear_arith)
            requires
                m == x || m == -x,
        ;
    }
}

/// A quotient rounded toward zero is no larger in magnitude than its numerator.
pub proof fn lemma_trunc_div_bound(n: int, d: int)
    requires
        d != 0,
    ensures
        magnitude(trunc_div(n, d)) <= magnitude(n),
        n >= 0 && d > 0 ==> trunc_div(n, d) >= 0,
        n == 0 ==> trunc_div(n, d) == 0,
{
    let m = magnitude(n);
    let e = magnitude(d);
    assert(0 <= m / e <= m) by (nonlinear_arith)
        requires
            m >= 0,
            e >= 1,
    ;
}

/// Dividing by a divisor of at least the multiplier does not grow a product:
/// `|a * b / d| <= |a|` whenever `|b| <= |d|`.
pub proof fn lemma_mul_div_shrinks(a: int, b: int, d: int)
    requires
        d != 0,
        magnitude(b) <= magnitude(d),
    ensures
        magnitude(trunc_div(a * b, d)) <= magnitude(a),
        (a >= 0 && b >= 0 && d > 0) ==> 0 <= trunc_div(a * b, d) <= a,
{
    let ma = magnitude(a);
    let mb = magnitude(b);
    let md = magnitude(d);
    assert(magnitude(a * b) == ma * mb) by (nonlinear_arith)
        requires
            ma == magnitude(a),
            mb == magnitude(b),
    ;
    assert(0 <= (ma * mb) / md <= ma) by (nonlinear_arith)
        requires
            ma >= 0,
            0 <= mb <= md,
            md >= 1,
    ;
    assert(a >= 0 && b >= 0 ==> a * b >= 0) by (nonlinear_arith);
}

/// Multiplying by the divisor and dividing again gives the number back.
pub proof fn lemma_mul_div_cancel(a: int, d: int)
    requires
        d != 0,
    ensures
        trunc_div(a * d, d) == a,
{
    let ma = magnitude(a);
    let md = magnitude(d);
    assert(magnitude(a * d) == ma * md) by (nonlinear_arith)
        requires
            ma == magnitude(a),
            md == magnitude(d),
    ;
    assert((ma * md) / md == ma) by (nonlinear_arith)
        requires
            md >= 1,
            ma >= 0,
    ;
    assert(a > 0 && d > 0 ==> a * d > 0) by (nonlinear_arith);
    assert(a < 0 && d > 0 ==> a * d < 0) by (nonlinear_arith);
    assert(a > 0 && d < 0 ==> a * d < 0) by (nonlinear_arith);
    assert(a < 0 && d < 0 ==> a * d > 0) by (nonlinear_arith);
    assert(a == 0 ==> a * d == 0) by (nonlinear_arith);
}

/// A product with a zero factor stays zero when divided.
pub proof fn lemma_mul_div_zero(a: int, d: int)
    requires
        d != 0,
    ensures
        mul_div(a, 0, d) == 0,
        mul_div(0, a, d) == 0,
{
    assert(a * 0 == 0) by (nonlinear_arith);
    assert(0 * a == 0) by (nonlinear_arith);
    lemma_trunc_div_bound(0, d);
}

/// Sign and size of `a * b / d` for a positive divisor: the quotient has the
/// sign of the product or is zero, and its magnitude times the divisor is
/// no more than the magnitude of the product.
pub proof fn lemma_mul_div_sign(a: int, b: int, d: int)
    requires
        d > 0,
    ensures
        (a >= 0 && b >= 0) || (a <= 0 && b <= 0) ==> mul_div(a, b, d) >= 0,
        (a >= 0 && b <= 0) || (a <= 0 && b >= 0) ==> mul_div(a, b, d) <= 0,
        magnitude(mul_div(a, b, d)) * d <= magnitude(a) * magnitude(b),
        magnitude(mul_div(a, b, d)) <= magnitude(trunc_div(a * b, d)),
{
    let ma = magnitude(a);
    let mb = magnitude(b);
    assert(magnitude(a * b) == ma * mb) by (nonlinear_arith)
        requires
            ma == magnitude(a),
            mb == magnitude(b),
    ;
    assert((a >= 0 && b >= 0) || (a <= 0 && b <= 0) ==> a * b >= 0) by (nonlinear_arith);
    assert((a >= 0 && b <= 0) || (a <= 0 && b >= 0) ==> a * b <= 0) by (nonlinear_arith);
    let m = ma * mb;
    assert(0 <= m / d && (m / d) * d <= m) by (nonlinear_arith)
        requires
            m >= 0,
            d > 0,
    ;
    let q = magnitude(mul_div(a, b, d));
    assert(q <= m / d);
    assert(q * d <= (m / d) * d) by (nonlinear_arith)
        requires
            0 <= q <= m / d,
            d > 0,
    ;
}

/// A larger numerator gives no smaller a quotient, the divisor being
/// positive.
pub proof fn lemma_trunc_div_monotone(a: int, b: int, d: int)
    requires
        d > 0,
        a <= b,
    ensures
        trunc_div(a, d) <= trunc_div(b, d),
{
    if a >= 0 {
        assert(a / d <= b / d) by (nonlinear_arith)
            requires
                0 <= a <= b,
                d > 0,
        ;
    } else if b >= 0 {
        assert((-a) / d >= 0) by (nonlinear_arith)
            requires
                a < 0,
                d > 0,
        ;
        assert(b / d >= 0) by (nonlinear_arith)
            requires
                b >= 0,
                d > 0,
        ;
    } else {
        assert((-b) / d <= (-a) / d) by (nonlinear_arith)
            requires
                0 < -b <= -a,
                d > 0,
        ;
    }
}

/// A larger first factor gives no smaller a result, the second factor being
/// not negative and the divisor positive.
pub proof fn lemma_mul_div_monotone(a: int, b: int, c: int, d: int)
    requires
        a <= b,
        c >= 0,
        d > 0,
    ensures
        mul_div(a, c, d) <= mul_div(b, c, d),
{
    assert(a * c <= b * c) by (nonlinear_arith)
        requires
            a <= b,
            c >= 0,
    ;
    lemma_trunc_div_monotone(a * c, b * c, d);
}

/// Larger factors give no smaller a result, all factors being not negative
/// and the divisor positive.
pub proof fn lemma_mul_div_monotone_both(a: int, a2: int, c: int, c2: int, d: int)
    requires
        0 <= a <= a2,
        0 <= c <= c2,
        d > 0,
    ensures
        0 <= mul_div(a, c, d) <= mul_div(a2, c2, d),
{
    assert(0 <= a * c <= a2 * c2) by (nonlinear_arith)
        requires
            0 <= a <= a2,
            0 <= c <= c2,
    ;
    lemma_trunc_div_monotone(a * c, a2 * c2, d);
    lemma_trunc_div_monotone(0, a * c, d);
    lemma_trunc_div_bound(0, d);
}

/// Changing the sign of a factor changes the sign of the result, but for
/// what saturation takes away at the lower end.
pub proof fn lemma_mul_div_negated(a: int, c: int, d: int)
    requires
        d > 0,
    ensures
        mul_div(-a, c, d) <= -mul_div(a, c, d),
{
    assert((-a) * c == -(a * c)) by (nonlinear_arith);
}

/// Saturating sum.
pub fn fx_add(a: i64, b: i64) -> (r: i64)
    ensures
        r == sat(a + b),
{
    let s: i128 = a as i128 + b as i128;
    clamp_to_i64(s)
}

/// Saturating difference.
pub fn fx_sub(a: i64, b: i64) -> (r: i64)
    ensures
        r == sat(a - b),
{
    let s: i128 = a as i128 - b as i128;
    clamp_to_i64(s)
}

/// Saturating negation.
pub fn fx_neg(a: i64) -> (r: i64)
    ensures
        r == sat(-a),
{
    let s: i128 = -(a as i128);
    clamp_to_i64(s)
}

/// Saturating absolute value.
pub fn fx_abs(a: i64) -> (r: i64)
    ensures
        r == sat(magnitude(a as int)),
        r >= 0,
{
    if a < 0 {
        fx_neg(a)
    } else {
        a
    }
}

pub fn fx_min(a: i64, b: i64) -> (r: i64)
    ensures
        r == min2(a as int, b as int),
{
    if a <= b {
        a
    } else {
        b
    }
}

pub fn fx_max(a: i64, b: i64) -> (r: i64)
    ensures
        r == max2(a as int, b as int),
{
    if a >= b {
        a
    } else {
        b
    }
}

/// Limits `x` to `[lo, hi]`.
pub fn fx_clamp(x: i64, lo: i64, hi: i64) -> (r: i64)
    ensures
        r == clamp(x as int, lo as int, hi as int),
{
    if x < lo {
        lo
    } else if x > hi {
        hi
    } else {
        x
    }
}

/// Narrows a wide intermediate result, saturating at the ends of `i64`.
pub fn clamp_to_i64(x: i128) -> (r: i64)
    ensures
        r == sat(x as int),
{
    if x < i64::MIN as i128 {
        i64::MIN
    } else if x > i64::MAX as i128 {
        i64::MAX
    } else {
        x as i64
    }
}

/// `a * b / d` with a 128-bit intermediate product.
pub fn fx_mul_div(a: i64, b: i64, d: i64) -> (r: i64)
    requires
        d != 0,
    ensures
        r == mul_div(a as int, b as int, d as int),
{
    let wa: i128 = a as i128;
    let wb: i128 = b as i128;
    let wd: i128 = d as i128;
    assert(-0x4000_0000_0000_0000_0000_0000_0000_0000 <= wa * wb
        <= 0x4000_0000_0000_0000_0000_0000_0000_0000) by (nonlinear_arith)
        requires
            -0x8000_0000_0000_0000 <= wa <= 0x8000_0000_0000_0000,
            -0x8000_0000_0000_0000 <= wb <= 0x8000_0000_0000_0000,
    ;
    let p: i128 = wa * wb;
    let np: i128 = if p < 0 {
        -p
    } else {
        p
    };
    let nd: i128 = if wd < 0 {
        -wd
    } else {
        wd
    };
    let q: i128 = np / nd;
    assert(0 <= q <= np) by (nonlinear_arith)
        requires
            q == np / nd,
            np >= 0,
            nd >= 1,
    ;
    let signed: i128 = if (p >= 0) == (wd > 0) {
        q
    } else {
        -q
    };
    clamp_to_i64(signed)
}

/// Product of two fixed-point numbers.
pub fn fx_mul(a: i64, b: i64) -> (r: i64)
    ensures
        r == scaled_mul(a as int, b as int),
{
    fx_mul_div(a, b, SCALE)
}

/// Quotient of two fixed-point numbers.
pub fn fx_div(a: i64, b: i64) -> (r: i64)
    requires
        b != 0,
    ensures
        r == scaled_div(a as int, b as int),
{
    fx_mul_div(a, SCALE, b)
}

/// The fixed-point representation of a whole number of units.
pub fn fx_from_int(units: i64) -> (r: i64)
    ensures
        r == sat(units * SCALE),
{
    let w: i128 = units as i128 * 1_000_000;
    clamp_to_i64(w)
}

/// Integer square root of a 128-bit number by bisection.
pub fn isqrt_u128(n: u128) -> (r: u128)
    ensures
        r == isqrt(n as int),
        is_sqrt(n as int, r as int),
        r <= 0xFFFF_FFFF_FFFF_FFFF,
{
    let mut lo: u128 = 0;
    let mut hi: u128 = 0x1_0000_0000_0000_0000;
    assert(0x1_0000_0000_0000_0000int * 0x1_0000_0000_0000_0000int
        == 0x1_0000_0000_0000_0000_0000_0000_0000_0000int) by (nonlinear_arith);
    while hi - lo > 1
        invariant
            lo < hi <= 0x1_0000_0000_0000_0000,
            lo * lo <= n,
            n < hi * hi,
        decreases hi - lo,
    {
        let mid: u128 = lo + (hi - lo) / 2;
        assert(mid * mid <= 0xFFFF_FFFF_FFFF_FFFF_FFFF_FFFF_FFFF_FFFF) by (nonlinear_arith)
            requires
                mid <= 0xFFFF_FFFF_FFFF_FFFF,
        ;
        if mid * mid <= n {
            lo = mid;
        } else {
            hi = mid;
        }
    }
    proof {
        assert(hi == lo + 1);
        lemma_isqrt_is(n as int, lo as int);
    }
    lo
}

/// Square root of a fixed-point number; zero for negative arguments.
pub fn fx_sqrt(a: i64) -> (r: i64)
    ensures
        r == scaled_sqrt(a as int),
        r >= 0,
{
    if a <= 0 {
        0
    } else {
        let wide: u128 = a as u128 * 1_000_000;
        let root: u128 = isqrt_u128(wide);
        proof {
            // root * root <= a * SCALE < 2^83, so root < 2^42
            assert(root < 0x400_0000_0000) by (nonlinear_arith)
                requires
                    root * root <= wide,
                    wide < 0x8_0000_0000_0000_0000_0000,
            ;
        }
        root as i64
    }
}

} // verus!
