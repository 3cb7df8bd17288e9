//! The elementary functions that the flight model needs, on fixed-point
//! numbers: exponential, natural logarithm, power, cosine, sine and the
//! angle of a point of the plane.
//!
//! Each is defined as a truncated power series on a reduced argument,
//! evaluated with twelve decimal places and rounded toward zero to six.
use crate::fixed::{
    clamp_to_i64, fx_abs, fx_add, fx_mul_div, fx_neg, fx_sub, lemma_mul_div_cancel,
    lemma_mul_div_monotone_both, lemma_mul_div_shrinks, lemma_mul_div_sign, lemma_mul_div_zero,
    lemma_trunc_div_bound, lemma_trunc_div_monotone, magnitude, mul_div, sat, trunc_div, SCALE,
};
use crate::series::{
    lemma_atanh_sum_monotone, lemma_exp_series_bounds, lemma_sum_at_zero, Series, WIDE,
};
use vstd::arithmetic::power2::{lemma2_to64, lemma2_to64_rest, lemma_pow2_unfold, pow2};
use vstd::prelude::*;

verus! {

/// The natural logarithm of 2, with twelve decimal places.
pub const LN2_WIDE: i64 = 693_147_180_560;

/// Pi, with twelve decimal places.
pub const PI_WIDE: i64 = 3_141_592_653_590;

/// Twice pi, with twelve decimal places.
pub const TAU_WIDE: i64 = 6_283_185_307_180;

/// Half of pi, with twelve decimal places.
pub const HALF_PI_WIDE: i64 = 1_570_796_326_795;

/// A quarter of pi, with twelve decimal places.
pub const QUARTER_PI_WIDE: i64 = 785_398_163_397;

/// The tangent of an eighth of pi, with twelve decimal places.
pub const TAN_EIGHTH_PI_WIDE: i64 = 414_213_562_373;

/// Pi, in millionths.
pub const PI: i64 = 3_141_593;

/// `v` squared `n` times over.
pub open spec fn squared_times(v: int, n: nat) -> int
    decreases n,
{
    if n == 0 {
        v
    } else {
        let h = squared_times(v, (n - 1) as nat);
        mul_div(h, h, WIDE as int)
    }
}

/// The exponential of an argument with twelve decimal places, as a number
/// with six: the series of a thirty-second of the argument, squared five
/// times over. Below -32 the result is 0; from 16 on it is saturated.
pub open spec fn exp_wide(a: int) -> int {
    if a <= -32 * WIDE {
        0
    } else if a >= 16 * WIDE {
        i64::MAX as int
    } else {
        trunc_div(
            squared_times(Series::Exp.partial_sum(WIDE as int, trunc_div(a, 32), 24), 5),
            SCALE as int,
        )
    }
}

/// The exponential function.
pub open spec fn exp(x: int) -> int {
    exp_wide(sat(x * SCALE))
}

/// Mantissa and binary exponent of `m * 2^e` after at most `n` halvings or
/// doublings toward a mantissa between 1 and 2.
pub open spec fn normalized(m: int, e: int, n: nat) -> (int, int)
    decreases n,
{
    if n == 0 {
        (m, e)
    } else if m >= 2 * SCALE {
        normalized(m / 2, e + 1, (n - 1) as nat)
    } else if m < SCALE {
        normalized(2 * m, e - 1, (n - 1) as nat)
    } else {
        (m, e)
    }
}

/// The natural logarithm of a positive number, with twelve decimal places:
/// for `x == m * 2^e` it is `2 * atanh((m - 1) / (m + 1)) + e * ln 2`.
pub open spec fn ln_wide(x: int) -> int {
    let (m, e) = normalized(x, 0, 64);
    let mw = sat(m * SCALE);
    let z = mul_div(sat(mw - WIDE), WIDE as int, sat(mw + WIDE));
    let s = Series::Atanh.partial_sum(z, mul_div(z, z, WIDE as int), 16);
    sat(sat(s + s) + e * LN2_WIDE)
}

/// The natural logarithm; the most negative number for arguments that have
/// none.
pub open spec fn ln(x: int) -> int {
    if x <= 0 {
        i64::MIN as int
    } else {
        trunc_div(ln_wide(x), SCALE as int)
    }
}

/// `base` to the power of `exponent`, as `exp(exponent * ln(base))`; zero for
/// a base that is not positive.
pub open spec fn pow(base: int, exponent: int) -> int {
    if base <= 0 {
        0
    } else {
        exp_wide(mul_div(exponent, ln_wide(base), SCALE as int))
    }
}

/// An angle reduced to one turn, with twelve decimal places.
pub open spec fn reduced_angle(x: int) -> int {
    (magnitude(x) * SCALE) % (TAU_WIDE as int)
}

/// The cosine series of an angle with twelve decimal places.
pub open spec fn cos_series(y: int) -> int {
    Series::Cos.partial_sum(WIDE as int, mul_div(y, y, WIDE as int), 14)
}

/// The sine series of an angle with twelve decimal places.
pub open spec fn sin_series(y: int) -> int {
    Series::Sin.partial_sum(y, mul_div(y, y, WIDE as int), 14)
}

/// The cosine of an angle in radians.
pub open spec fn cos(x: int) -> int {
    let r = reduced_angle(x);
    let half = if r > PI_WIDE {
        TAU_WIDE - r
    } else {
        r
    };
    if half > HALF_PI_WIDE {
        trunc_div(sat(-cos_series(PI_WIDE - half)), SCALE as int)
    } else {
        trunc_div(cos_series(half), SCALE as int)
    }
}

/// The sine of an angle in radians.
pub open spec fn sin(x: int) -> int {
    let r = reduced_angle(x);
    let half = if r > PI_WIDE {
        r - PI_WIDE
    } else {
        r
    };
    let quarter = if half > HALF_PI_WIDE {
        PI_WIDE - half
    } else {
        half
    };
    let v = trunc_div(sin_series(quarter), SCALE as int);
    if (x < 0) != (r > PI_WIDE) {
        -v
    } else {
        v
    }
}

/// The arc tangent of a ratio between 0 and 1, both with twelve decimal
/// places. Above the tangent of an eighth of pi the series is taken at
/// `(z - 1) / (z + 1)` and a quarter of pi added.
pub open spec fn atan_unit(z: int) -> int {
    if z > TAN_EIGHTH_PI_WIDE {
        let w = mul_div(sat(z - WIDE), WIDE as int, sat(z + WIDE));
        sat(QUARTER_PI_WIDE + Series::Atan.partial_sum(w, mul_div(w, w, WIDE as int), 20))
    } else {
        Series::Atan.partial_sum(z, mul_div(z, z, WIDE as int), 20)
    }
}

/// The angle, in radians between minus pi and pi, of the point `(x, y)` as
/// seen from the origin, counted from the positive `x` axis toward the
/// positive `y` axis. The origin itself has the angle 0.
pub open spec fn atan2(y: int, x: int) -> int {
    let a = sat(magnitude(y));
    let b = sat(magnitude(x));
    if a == 0 && b == 0 {
        0
    } else {
        let first = if a <= b {
            atan_unit(mul_div(a, WIDE as int, b))
        } else {
            sat(HALF_PI_WIDE - atan_unit(mul_div(b, WIDE as int, a)))
        };
        let t = if x < 0 {
            sat(PI_WIDE - first)
        } else {
            first
        };
        let v = trunc_div(t, SCALE as int);
        if y < 0 {
            -v
        } else {
            v
        }
    }
}

/// Computes [`exp_wide`].
pub fn fx_exp_wide(a: i64) -> (r: i64)
    ensures
        r == exp_wide(a as int),
{
    if a <= -32 * WIDE {
        return 0;
    }
    if a >= 16 * WIDE {
        return i64::MAX;
    }
    let y: i64 = a / 32;
    let mut v: i64 = Series::Exp.sum(WIDE, y, 24);
    let ghost start = v as int;
    let mut k: u32 = 0;
    while k < 5
        invariant
            k <= 5,
            v == squared_times(start, k as nat),
        decreases 5 - k,
    {
        v = fx_mul_div(v, v, WIDE);
        k = k + 1;
    }
    v / 1_000_000
}

/// The exponential function.
pub fn fx_exp(x: i64) -> (r: i64)
    ensures
        r == exp(x as int),
{
    fx_exp_wide(clamp_to_i64(x as i128 * 1_000_000))
}

/// Computes [`ln_wide`].
pub fn fx_ln_wide(x: i64) -> (r: i64)
    requires
        x > 0,
    ensures
        r == ln_wide(x as int),
{
    let mut m: i64 = x;
    let mut e: i64 = 0;
    let mut n: i64 = 64;
    while n > 0 && (m >= 2 * SCALE || m < SCALE)
        invariant
            0 <= n <= 64,
            m > 0,
            -64 + n <= e <= 64 - n,
            normalized(x as int, 0, 64) == normalized(m as int, e as int, n as nat),
        decreases n,
    {
        if m >= 2 * SCALE {
            m = m / 2;
            e = e + 1;
        } else {
            m = 2 * m;
            e = e - 1;
        }
        n = n - 1;
    }
    let mw: i64 = clamp_to_i64(m as i128 * 1_000_000);
    let z: i64 = fx_mul_div(fx_sub(mw, WIDE), WIDE, fx_add(mw, WIDE));
    let s: i64 = Series::Atanh.sum(z, fx_mul_div(z, z, WIDE), 16);
    fx_add(fx_add(s, s), e * LN2_WIDE)
}

/// The natural logarithm.
pub fn fx_ln(x: i64) -> (r: i64)
    ensures
        r == ln(x as int),
{
    if x <= 0 {
        i64::MIN
    } else {
        fx_ln_wide(x) / 1_000_000
    }
}

/// `base` to the power of `exponent`.
pub fn fx_pow(base: i64, exponent: i64) -> (r: i64)
    ensures
        r == pow(base as int, exponent as int),
{
    if base <= 0 {
        0
    } else {
        fx_exp_wide(fx_mul_div(exponent, fx_ln_wide(base), SCALE))
    }
}

/// Computes [`reduced_angle`].
pub fn reduce_angle(x: i64) -> (r: i64)
    ensures
        r == reduced_angle(x as int),
        0 <= r < TAU_WIDE,
{
    let a: i128 = if x < 0 {
        -(x as i128)
    } else {
        x as i128
    };
    let wide: i128 = a * 1_000_000;
    (wide % 6_283_185_307_180) as i64
}

/// The cosine of an angle in radians.
pub fn fx_cos(x: i64) -> (r: i64)
    ensures
        r == cos(x as int),
{
    let r: i64 = reduce_angle(x);
    let half: i64 = if r > PI_WIDE {
        TAU_WIDE - r
    } else {
        r
    };
    if half > HALF_PI_WIDE {
        let y: i64 = PI_WIDE - half;
        fx_neg(Series::Cos.sum(WIDE, fx_mul_div(y, y, WIDE), 14)) / 1_000_000
    } else {
        Series::Cos.sum(WIDE, fx_mul_div(half, half, WIDE), 14) / 1_000_000
    }
}

/// The sine of an angle in radians.
pub fn fx_sin(x: i64) -> (r: i64)
    ensures
        r == sin(x as int),
{
    let r: i64 = reduce_angle(x);
    let half: i64 = if r > PI_WIDE {
        r - PI_WIDE
    } else {
        r
    };
    let quarter: i64 = if half > HALF_PI_WIDE {
        PI_WIDE - half
    } else {
        half
    };
    let v: i64 = Series::Sin.sum(quarter, fx_mul_div(quarter, quarter, WIDE), 14) / 1_000_000;
    proof {
        lemma_trunc_div_bound(sin_series(quarter as int), SCALE as int);
    }
    if (x < 0) != (r > PI_WIDE) {
        -v
    } else {
        v
    }
}

/// Computes [`atan_unit`].
pub fn fx_atan_unit(z: i64) -> (r: i64)
    requires
        0 <= z <= WIDE,
    ensures
        r == atan_unit(z as int),
{
    if z > TAN_EIGHTH_PI_WIDE {
        let w: i64 = fx_mul_div(fx_sub(z, WIDE), WIDE, fx_add(z, WIDE));
        fx_add(QUARTER_PI_WIDE, Series::Atan.sum(w, fx_mul_div(w, w, WIDE), 20))
    } else {
        Series::Atan.sum(z, fx_mul_div(z, z, WIDE), 20)
    }
}

/// The angle of the point `(x, y)`.
pub fn fx_atan2(y: i64, x: i64) -> (r: i64)
    ensures
        r == atan2(y as int, x as int),
{
    let a: i64 = fx_abs(y);
    let b: i64 = fx_abs(x);
    if a == 0 && b == 0 {
        return 0;
    }
    let first: i64 = if a <= b {
        let z: i64 = fx_mul_div(a, WIDE, b);
        proof {
            lemma_ratio_in_unit(a as int, b as int);
        }
        fx_atan_unit(z)
    } else {
        let z: i64 = fx_mul_div(b, WIDE, a);
        proof {
            lemma_ratio_in_unit(b as int, a as int);
        }
        fx_sub(HALF_PI_WIDE, fx_atan_unit(z))
    };
    let t: i64 = if x < 0 {
        fx_sub(PI_WIDE, first)
    } else {
        first
    };
    let v: i64 = t / 1_000_000;
    proof {
        lemma_trunc_div_bound(t as int, SCALE as int);
    }
    if y < 0 {
        -v
    } else {
        v
    }
}

/// The ratio of a number to one at least as large lies between 0 and 1.
pub proof fn lemma_ratio_in_unit(a: int, b: int)
    requires
        0 <= a <= b,
        0 < b <= i64::MAX,
    ensures
        0 <= mul_div(a, WIDE as int, b) <= WIDE,
{
    assert(a * 1_000_000_000_000 >= 0) by (nonlinear_arith)
        requires
            a >= 0,
    ;
    assert(0 <= (a * 1_000_000_000_000) / b <= 1_000_000_000_000) by (nonlinear_arith)
        requires
            0 <= a <= b,
            b > 0,
    ;
}

/// 1 with twelve decimal places rounds to 1 with six.
pub proof fn lemma_wide_to_scale()
    ensures
        trunc_div(WIDE as int, SCALE as int) == SCALE,
{
    assert(WIDE as int == SCALE as int * SCALE as int) by (nonlinear_arith)
        requires
            WIDE == 1_000_000_000_000,
            SCALE == 1_000_000,
    ;
    lemma_mul_div_cancel(SCALE as int, SCALE as int);
}

/// The exponential of 0 is exactly 1.
pub proof fn law_exp_of_zero()
    ensures
        exp(0) == SCALE,
        exp_wide(0) == SCALE,
{
    lemma_sum_at_zero(Series::Exp, WIDE as int, 24);
    lemma_mul_div_cancel(WIDE as int, WIDE as int);
    assert(squared_times(WIDE as int, 1) == WIDE) by {
        assert(squared_times(WIDE as int, 0) == WIDE);
    }
    assert(squared_times(WIDE as int, 2) == WIDE);
    assert(squared_times(WIDE as int, 3) == WIDE);
    assert(squared_times(WIDE as int, 4) == WIDE);
    assert(squared_times(WIDE as int, 5) == WIDE);
    lemma_wide_to_scale();
}

/// The exponential function and the power are never negative.
pub proof fn law_exp_never_negative(x: int, base: int, exponent: int)
    ensures
        exp(x) >= 0,
        exp_wide(x) >= 0,
        pow(base, exponent) >= 0,
{
    lemma_exp_wide_never_negative(x);
    lemma_exp_wide_never_negative(sat(x * SCALE));
    lemma_exp_wide_never_negative(mul_div(exponent, ln_wide(base), SCALE as int));
}

/// The exponential of an argument with twelve decimal places is never
/// negative.
pub proof fn lemma_exp_wide_never_negative(a: int)
    ensures
        exp_wide(a) >= 0,
{
    let start = Series::Exp.partial_sum(WIDE as int, trunc_div(a, 32), 24);
    let h = squared_times(start, 4);
    lemma_mul_div_sign(h, h, WIDE as int);
    assert(squared_times(start, 5) == mul_div(h, h, WIDE as int));
    lemma_trunc_div_bound(squared_times(start, 5), SCALE as int);
}

/// Halving brings a number of at least 1 and below `2 * 2^n` to a mantissa
/// between 1 and 2 in `n` steps.
pub proof fn lemma_normalized_from_above(m: int, e: int, n: nat)
    requires
        SCALE <= m < 2 * SCALE * pow2(n),
    ensures
        SCALE <= normalized(m, e, n).0 < 2 * SCALE,
    decreases n,
{
    if n == 0 {
        lemma2_to64();
    } else if m >= 2 * SCALE {
        lemma_pow2_unfold(n);
        let half = pow2((n - 1) as nat);
        assert(2 * SCALE * pow2(n) == 2 * (2 * SCALE * half)) by (nonlinear_arith)
            requires
                pow2(n) == 2 * half,
        ;
        lemma_normalized_from_above(m / 2, e + 1, (n - 1) as nat);
    }
}

/// Doubling brings a positive number below 1 and of at least `2^-n` to a
/// mantissa between 1 and 2 in `n` steps.
pub proof fn lemma_normalized_from_below(m: int, e: int, n: nat)
    requires
        0 < m < SCALE,
        m * pow2(n) >= SCALE,
    ensures
        SCALE <= normalized(m, e, n).0 < 2 * SCALE,
        normalized(m, e, n).1 <= e - 1,
    decreases n,
{
    if n == 0 {
        lemma2_to64();
    } else {
        lemma_pow2_unfold(n);
        let half = pow2((n - 1) as nat);
        assert(m * pow2(n) == (2 * m) * half) by (nonlinear_arith)
            requires
                pow2(n) == 2 * half,
        ;
        if 2 * m < SCALE {
            lemma_normalized_from_below(2 * m, e - 1, (n - 1) as nat);
        } else {
            assert(normalized(2 * m, e - 1, (n - 1) as nat) == (2 * m, e - 1));
        }
    }
}

/// The logarithm works on a mantissa between 1 and 2: the halvings and
/// doublings that it allows itself reach one from every positive number.
pub proof fn law_ln_mantissa_in_range(x: int)
    requires
        0 < x <= i64::MAX,
    ensures
        SCALE <= normalized(x, 0, 64).0 < 2 * SCALE,
{
    lemma2_to64();
    lemma2_to64_rest();
    if x >= SCALE {
        assert(2 * SCALE * pow2(64) > i64::MAX) by (nonlinear_arith)
            requires
                pow2(64) == 0x10000000000000000,
                SCALE == 1_000_000,
        ;
        lemma_normalized_from_above(x, 0, 64);
    } else {
        assert(x * pow2(64) >= SCALE) by (nonlinear_arith)
            requires
                x >= 1,
                pow2(64) == 0x10000000000000000,
        ;
        lemma_normalized_from_below(x, 0, 64);
    }
}

/// Squaring a number between 0 and 1 over and over keeps it between 0 and 1.
pub proof fn lemma_squares_stay_in_unit(v: int, n: nat)
    requires
        0 <= v <= WIDE,
    ensures
        0 <= squared_times(v, n) <= WIDE,
    decreases n,
{
    if n > 0 {
        lemma_squares_stay_in_unit(v, (n - 1) as nat);
        let h = squared_times(v, (n - 1) as nat);
        lemma_mul_div_shrinks(h, h, WIDE as int);
    }
}

/// The exponential of an argument that is not positive lies between 0 and
/// 1.
pub proof fn law_exp_at_most_one(x: int)
    requires
        x <= 0,
    ensures
        0 <= exp_wide(x) <= SCALE,
        0 <= exp(x) <= SCALE,
{
    lemma_exp_wide_at_most_one(x);
    assert(x * SCALE <= 0) by (nonlinear_arith)
        requires
            x <= 0,
            SCALE == 1_000_000,
    ;
    lemma_exp_wide_at_most_one(sat(x * SCALE));
}

/// The exponential of an argument with twelve decimal places that is not
/// positive lies between 0 and 1.
pub proof fn lemma_exp_wide_at_most_one(a: int)
    requires
        a <= 0,
    ensures
        0 <= exp_wide(a) <= SCALE,
{
    if a > -32 * WIDE {
        let y = trunc_div(a, 32);
        assert(WIDE == 1_000_000_000_000);
        let m = magnitude(a);
        assert(0 <= m < 32_000_000_000_000);
        assert(0 <= m / 32 < 1_000_000_000_000);
        assert(y == -(m / 32));
        assert(-WIDE <= y <= 0);
        lemma_exp_series_bounds(y, 24);
        let start = Series::Exp.partial_sum(WIDE as int, y, 24);
        lemma_squares_stay_in_unit(start, 5);
        let v = squared_times(start, 5);
        assert(0 <= v / 1_000_000 <= 1_000_000);
    }
}

/// The greatest argument that the series of the logarithm meets, and its
/// square: those of a mantissa one millionth below 2.
pub open spec fn greatest_atanh_argument() -> (int, int) {
    (333_333_111_111, 111_110_962_962)
}

/// At its greatest argument the series of the logarithm gives less than
/// half the logarithm of 2.
pub proof fn lemma_atanh_at_greatest_argument()
    ensures
        2 * Series::Atanh.partial_sum(
            greatest_atanh_argument().0,
            greatest_atanh_argument().1,
            16,
        ) <= LN2_WIDE,
{
    let a = Series::Atanh;
    let z: int = 333333111111;
    let q: int = 111110962962;
    assert(WIDE == 1_000_000_000_000);
    assert(a.power(z, q, 0) == 333333111111);
    assert(a.partial_sum(z, q, 0) == 0);
    assert(333333111111int / 1 == 333333111111);
    assert(mul_div(333333111111, 1, 1) == 333333111111);
    assert(a.term_divisor(0) == 1);
    assert(a.term(z, q, 0) == 333333111111);
    assert(a.partial_sum(z, q, 1) == 333333111111);
    assert(333333111111int * 111110962962int == 37036962962662551670782);
    assert(37036962962662551670782int / 1_000_000_000_000 == 37036962962);
    assert(mul_div(333333111111, 111110962962, 1_000_000_000_000) == 37036962962);
    assert(a.step_divisor(0) == 1_000_000_000_000);
    assert(a.power(z, q, 1) == 37036962962);
    assert(37036962962int / 3 == 12345654320);
    assert(mul_div(37036962962, 1, 3) == 12345654320);
    assert(a.term_divisor(1) == 3);
    assert(a.term(z, q, 1) == 12345654320);
    assert(a.partial_sum(z, q, 2) == 345678765431);
    assert(37036962962int * 111110962962int == 4115212619895747813444);
    assert(4115212619895747813444int / 1_000_000_000_000 == 4115212619);
    assert(mul_div(37036962962, 111110962962, 1_000_000_000_000) == 4115212619);
    assert(a.step_divisor(1) == 1_000_000_000_000);
    assert(a.power(z, q, 2) == 4115212619);
    assert(4115212619int / 5 == 823042523);
    assert(mul_div(4115212619, 1, 5) == 823042523);
    assert(a.term_divisor(2) == 5);
    assert(a.term(z, q, 2) == 823042523);
    assert(a.partial_sum(z, q, 3) == 346501807954);
    assert(4115212619int * 111110962962int == 457245236890464017478);
    assert(457245236890464017478int / 1_000_000_000_000 == 457245236);
    assert(mul_div(4115212619, 111110962962, 1_000_000_000_000) == 457245236);
    assert(a.step_divisor(2) == 1_000_000_000_000);
    assert(a.power(z, q, 3) == 457245236);
    assert(457245236int / 7 == 65320748);
    assert(mul_div(457245236, 1, 7) == 65320748);
    assert(a.term_divisor(3) == 7);
    assert(a.term(z, q, 3) == 65320748);
    assert(a.partial_sum(z, q, 4) == 346567128702);
    assert(457245236int * 111110962962int == 50804958481746949032);
    assert(50804958481746949032int / 1_000_000_000_000 == 50804958);
    assert(mul_div(457245236, 111110962962, 1_000_000_000_000) == 50804958);
    assert(a.step_divisor(3) == 1_000_000_000_000);
    assert(a.power(z, q, 4) == 50804958);
    assert(50804958int / 9 == 5644995);
    assert(mul_div(50804958, 1, 9) == 5644995);
    assert(a.term_divisor(4) == 9);
    assert(a.term(z, q, 4) == 5644995);
    assert(a.partial_sum(z, q, 5) == 346572773697);
    assert(50804958int * 111110962962int == 5644987806623965596);
    assert(5644987806623965596int / 1_000_000_000_000 == 5644987);
    assert(mul_div(50804958, 111110962962, 1_000_000_000_000) == 5644987);
    assert(a.step_divisor(4) == 1_000_000_000_000);
    assert(a.power(z, q, 5) == 5644987);
    assert(5644987int / 11 == 513180);
    assert(mul_div(5644987, 1, 11) == 513180);
    assert(a.term_divisor(5) == 11);
    assert(a.term(z, q, 5) == 513180);
    assert(a.partial_sum(z, q, 6) == 346573286877);
    assert(5644987int * 111110962962int == 627219941477971494);
    assert(627219941477971494int / 1_000_000_000_000 == 627219);
    assert(mul_div(5644987, 111110962962, 1_000_000_000_000) == 627219);
    assert(a.step_divisor(5) == 1_000_000_000_000);
    assert(a.power(z, q, 6) == 627219);
    assert(627219int / 13 == 48247);
    assert(mul_div(627219, 1, 13) == 48247);
    assert(a.term_divisor(6) == 13);
    assert(a.term(z, q, 6) == 48247);
    assert(a.partial_sum(z, q, 7) == 346573335124);
    assert(627219int * 111110962962int == 69690907078062678);
    assert(69690907078062678int / 1_000_000_000_000 == 69690);
    assert(mul_div(627219, 111110962962, 1_000_000_000_000) == 69690);
    assert(a.step_divisor(6) == 1_000_000_000_000);
    assert(a.power(z, q, 7) == 69690);
    assert(69690int / 15 == 4646);
    assert(mul_div(69690, 1, 15) == 4646);
    assert(a.term_divisor(7) == 15);
    assert(a.term(z, q, 7) == 4646);
    assert(a.partial_sum(z, q, 8) == 346573339770);
    assert(69690int * 111110962962int == 7743323008821780);
    assert(7743323008821780int / 1_000_000_000_000 == 7743);
    assert(mul_div(69690, 111110962962, 1_000_000_000_000) == 7743);
    assert(a.step_divisor(7) == 1_000_000_000_000);
    assert(a.power(z, q, 8) == 7743);
    assert(7743int / 17 == 455);
    assert(mul_div(7743, 1, 17) == 455);
    assert(a.term_divisor(8) == 17);
    assert(a.term(z, q, 8) == 455);
    assert(a.partial_sum(z, q, 9) == 346573340225);
    assert(7743int * 111110962962int == 860332186214766);
    assert(860332186214766int / 1_000_000_000_000 == 860);
    assert(mul_div(7743, 111110962962, 1_000_000_000_000) == 860);
    assert(a.step_divisor(8) == 1_000_000_000_000);
    assert(a.power(z, q, 9) == 860);
    assert(860int / 19 == 45);
    assert(mul_div(860, 1, 19) == 45);
    assert(a.term_divisor(9) == 19);
    assert(a.term(z, q, 9) == 45);
    assert(a.partial_sum(z, q, 10) == 346573340270);
    assert(860int * 111110962962int == 95555428147320);
    assert(95555428147320int / 1_000_000_000_000 == 95);
    assert(mul_div(860, 111110962962, 1_000_000_000_000) == 95);
    assert(a.step_divisor(9) == 1_000_000_000_000);
    assert(a.power(z, q, 10) == 95);
    assert(95int / 21 == 4);
    assert(mul_div(95, 1, 21) == 4);
    assert(a.term_divisor(10) == 21);
    assert(a.term(z, q, 10) == 4);
    assert(a.partial_sum(z, q, 11) == 346573340274);
    assert(95int * 111110962962int == 10555541481390);
    assert(10555541481390int / 1_000_000_000_000 == 10);
    assert(mul_div(95, 111110962962, 1_000_000_000_000) == 10);
    assert(a.step_divisor(10) == 1_000_000_000_000);
    assert(a.power(z, q, 11) == 10);
    assert(10int / 23 == 0);
    assert(mul_div(10, 1, 23) == 0);
    assert(a.term_divisor(11) == 23);
    assert(a.term(z, q, 11) == 0);
    assert(a.partial_sum(z, q, 12) == 346573340274);
    assert(10int * 111110962962int == 1111109629620);
    assert(1111109629620int / 1_000_000_000_000 == 1);
    assert(mul_div(10, 111110962962, 1_000_000_000_000) == 1);
    assert(a.step_divisor(11) == 1_000_000_000_000);
    assert(a.power(z, q, 12) == 1);
    assert(1int / 25 == 0);
    assert(mul_div(1, 1, 25) == 0);
    assert(a.term_divisor(12) == 25);
    assert(a.term(z, q, 12) == 0);
    assert(a.partial_sum(z, q, 13) == 346573340274);
    assert(1int * 111110962962int == 111110962962);
    assert(111110962962int / 1_000_000_000_000 == 0);
    assert(mul_div(1, 111110962962, 1_000_000_000_000) == 0);
    assert(a.step_divisor(12) == 1_000_000_000_000);
    assert(a.power(z, q, 13) == 0);
    assert(0int / 27 == 0);
    assert(mul_div(0, 1, 27) == 0);
    assert(a.term_divisor(13) == 27);
    assert(a.term(z, q, 13) == 0);
    assert(a.partial_sum(z, q, 14) == 346573340274);
    assert(0int * 111110962962int == 0);
    assert(0int / 1_000_000_000_000 == 0);
    assert(mul_div(0, 111110962962, 1_000_000_000_000) == 0);
    assert(a.step_divisor(13) == 1_000_000_000_000);
    assert(a.power(z, q, 14) == 0);
    assert(0int / 29 == 0);
    assert(mul_div(0, 1, 29) == 0);
    assert(a.term_divisor(14) == 29);
    assert(a.term(z, q, 14) == 0);
    assert(a.partial_sum(z, q, 15) == 346573340274);
    assert(0int * 111110962962int == 0);
    assert(0int / 1_000_000_000_000 == 0);
    assert(mul_div(0, 111110962962, 1_000_000_000_000) == 0);
    assert(a.step_divisor(14) == 1_000_000_000_000);
    assert(a.power(z, q, 15) == 0);
    assert(0int / 31 == 0);
    assert(mul_div(0, 1, 31) == 0);
    assert(a.term_divisor(15) == 31);
    assert(a.term(z, q, 15) == 0);
    assert(a.partial_sum(z, q, 16) == 346573340274);
}

/// The logarithm of a positive number that is not above 1 is not positive.
pub proof fn law_ln_of_fraction(x: int)
    requires
        0 < x <= SCALE,
    ensures
        ln_wide(x) <= 0,
        ln(x) <= 0,
{
    if x == SCALE {
        law_ln_of_one();
    } else {
        lemma2_to64();
        lemma2_to64_rest();
        assert(x * pow2(64) >= SCALE) by (nonlinear_arith)
            requires
                x >= 1,
                pow2(64) == 0x10000000000000000,
        ;
        lemma_normalized_from_below(x, 0, 64);
        let (m, e) = normalized(x, 0, 64);
        let w = WIDE as int;
        let mw = m * 1_000_000;
        assert(sat(m * SCALE) == mw);
        assert(w <= mw <= 2 * w - 1_000_000);
        let z = mul_div(mw - w, w, mw + w);
        let (zmax, qmax) = greatest_atanh_argument();
        lemma_mul_div_sign(mw - w, w, mw + w);
        // z <= zmax, as (mw - w) * w < (zmax + 1) * (mw + w)
        let num = (mw - w) * w;
        let den = mw + w;
        assert(num < (zmax + 1) * den) by (nonlinear_arith)
            requires
                num == (mw - w) * w,
                den == mw + w,
                w == 1_000_000_000_000,
                w <= mw <= 2 * w - 1_000_000,
                zmax == 333_333_111_111,
        ;
        assert(num >= 0) by (nonlinear_arith)
            requires
                num == (mw - w) * w,
                mw >= w,
                w > 0,
        ;
        assert(num / den <= zmax) by (nonlinear_arith)
            requires
                0 <= num < (zmax + 1) * den,
                den > 0,
        ;
        assert(0 <= z <= zmax);
        lemma_mul_div_monotone_both(z, zmax, z, zmax, w);
        let q = mul_div(z, z, w);
        assert(mul_div(zmax, zmax, w) == qmax);
        lemma_atanh_sum_monotone(z, q, zmax, qmax, 16);
        lemma_atanh_at_greatest_argument();
        let s = Series::Atanh.partial_sum(z, q, 16);
        assert(0 <= s + s <= LN2_WIDE);
        assert(e * LN2_WIDE <= -LN2_WIDE) by (nonlinear_arith)
            requires
                e <= -1,
                LN2_WIDE > 0,
        ;
        assert(ln_wide(x) <= 0);
        lemma_trunc_div_monotone(ln_wide(x), 0, SCALE as int);
    }
}

/// A number between 0 and 1 to a power that is not negative lies between 0
/// and 1.
pub proof fn law_pow_of_fraction(base: int, exponent: int)
    requires
        base <= SCALE,
        exponent >= 0,
    ensures
        0 <= pow(base, exponent) <= SCALE,
{
    if base > 0 {
        law_ln_of_fraction(base);
        lemma_mul_div_sign(exponent, ln_wide(base), SCALE as int);
        lemma_exp_wide_at_most_one(mul_div(exponent, ln_wide(base), SCALE as int));
    }
}

/// The logarithm of 1 is exactly 0.
pub proof fn law_ln_of_one()
    ensures
        ln(SCALE as int) == 0,
        ln_wide(SCALE as int) == 0,
{
    assert(normalized(SCALE as int, 0, 64) == (SCALE as int, 0int));
    lemma_mul_div_zero(WIDE as int, 2 * WIDE);
    lemma_mul_div_zero(0, WIDE as int);
    lemma_sum_at_zero(Series::Atanh, 0, 16);
}

/// 1 to any power is exactly 1, and any positive number to the power 0 is
/// exactly 1.
pub proof fn law_pow_of_one(base: int, exponent: int)
    ensures
        pow(SCALE as int, exponent) == SCALE,
        base > 0 ==> pow(base, 0) == SCALE,
{
    law_ln_of_one();
    law_exp_of_zero();
    lemma_mul_div_zero(exponent, SCALE as int);
    lemma_mul_div_zero(ln_wide(base), SCALE as int);
}

/// The cosine of 0 is exactly 1 and the sine of 0 is exactly 0.
pub proof fn law_cos_sin_of_zero()
    ensures
        cos(0) == SCALE,
        sin(0) == 0,
{
    lemma_mul_div_zero(0, WIDE as int);
    lemma_sum_at_zero(Series::Cos, WIDE as int, 14);
    lemma_sum_at_zero(Series::Sin, 0, 14);
    lemma_wide_to_scale();
}

/// A point on the positive `x` axis has the angle 0.
pub proof fn law_atan2_on_axis(x: int)
    requires
        0 < x <= i64::MAX,
    ensures
        atan2(0, x) == 0,
{
    lemma_mul_div_zero(WIDE as int, x);
    lemma_mul_div_zero(0, WIDE as int);
    lemma_sum_at_zero(Series::Atan, 0, 20);
}

} // verus!
