//! Truncated power series, evaluated in fixed-point numbers of twelve
//! decimal places. The elementary functions of this crate are sums of these.
use crate::fixed::{
    fx_add, fx_mul_div, fx_neg, lemma_mul_div_cancel, lemma_mul_div_monotone_both,
    lemma_mul_div_shrinks, lemma_mul_div_sign, lemma_mul_div_zero, mul_div, sat,
};
use vstd::prelude::*;

verus! {

/// The representation of 1 with twelve decimal places.
pub const WIDE: i64 = 1_000_000_000_000;

/// The series that this module sums. In each, `q` is the argument for
/// [`Series::Exp`] and the square of the argument for the others.
#[derive(Clone, Copy, Debug, PartialEq, Eq, Structural)]
pub enum Series {
    /// `1 + x + x^2/2! + x^3/3! + ...`, the exponential function.
    Exp,
    /// `1 - x^2/2! + x^4/4! - ...`, the cosine.
    Cos,
    /// `x - x^3/3! + x^5/5! - ...`, the sine.
    Sin,
    /// `x - x^3/3 + x^5/5 - ...`, the arc tangent.
    Atan,
    /// `x + x^3/3 + x^5/5 + ...`, the inverse hyperbolic tangent.
    Atanh,
}

impl Series {
    /// What the `k`-th power term is divided by, beside being multiplied by
    /// `q`, to give the next one.
    pub open spec fn step_divisor(self, k: int) -> int {
        match self {
            Series::Exp => (k + 1) * WIDE,
            Series::Cos => (2 * k + 1) * (2 * k + 2) * WIDE,
            Series::Sin => (2 * k + 2) * (2 * k + 3) * WIDE,
            Series::Atan => WIDE as int,
            Series::Atanh => WIDE as int,
        }
    }

    /// Whether the terms change sign from one to the next.
    pub open spec fn alternates(self) -> bool {
        match self {
            Series::Exp => false,
            Series::Cos => true,
            Series::Sin => true,
            Series::Atan => true,
            Series::Atanh => false,
        }
    }

    /// What the `k`-th power term is divided by to give the `k`-th summand.
    pub open spec fn term_divisor(self, k: int) -> int {
        match self {
            Series::Exp => 1,
            Series::Cos => 1,
            Series::Sin => 1,
            Series::Atan => 2 * k + 1,
            Series::Atanh => 2 * k + 1,
        }
    }

    /// The `k`-th power term of the series that starts with `first`.
    pub open spec fn power(self, first: int, q: int, k: nat) -> int
        decreases k,
    {
        if k == 0 {
            first
        } else {
            let next = mul_div(self.power(first, q, (k - 1) as nat), q, self.step_divisor(k - 1));
            if self.alternates() {
                sat(-next)
            } else {
                next
            }
        }
    }

    /// The `k`-th summand.
    pub open spec fn term(self, first: int, q: int, k: nat) -> int {
        mul_div(self.power(first, q, k), 1, self.term_divisor(k as int))
    }

    /// The sum of the first `n` summands.
    pub open spec fn partial_sum(self, first: int, q: int, n: nat) -> int
        decreases n,
    {
        if n == 0 {
            0
        } else {
            sat(self.partial_sum(first, q, (n - 1) as nat) + self.term(first, q, (n - 1) as nat))
        }
    }

    /// Computes [`Series::step_divisor`].
    pub fn step_divisor_of(&self, k: i64) -> (d: i64)
        requires
            0 <= k <= 64,
        ensures
            d == self.step_divisor(k as int),
            d > 0,
    {
        match self {
            Series::Exp => (k + 1) * WIDE,
            Series::Cos => {
                assert(0 < (2 * k + 1) * (2 * k + 2) <= 129 * 130) by (nonlinear_arith)
                    requires
                        0 <= k <= 64,
                ;
                let a: i64 = (2 * k + 1) * (2 * k + 2);
                a * WIDE
            },
            Series::Sin => {
                assert(0 < (2 * k + 2) * (2 * k + 3) <= 130 * 131) by (nonlinear_arith)
                    requires
                        0 <= k <= 64,
                ;
                let a: i64 = (2 * k + 2) * (2 * k + 3);
                a * WIDE
            },
            Series::Atan => WIDE,
            Series::Atanh => WIDE,
        }
    }

    /// Computes [`Series::term_divisor`].
    pub fn term_divisor_of(&self, k: i64) -> (d: i64)
        requires
            0 <= k <= 64,
        ensures
            d == self.term_divisor(k as int),
            d > 0,
    {
        match self {
            Series::Exp => 1,
            Series::Cos => 1,
            Series::Sin => 1,
            Series::Atan => 2 * k + 1,
            Series::Atanh => 2 * k + 1,
        }
    }

    /// Sums the first `n` summands of the series that starts with `first`.
    pub fn sum(&self, first: i64, q: i64, n: i64) -> (s: i64)
        requires
            0 <= n <= 64,
        ensures
            s == self.partial_sum(first as int, q as int, n as nat),
    {
        let alternates: bool = match self {
            Series::Exp => false,
            Series::Cos => true,
            Series::Sin => true,
            Series::Atan => true,
            Series::Atanh => false,
        };
        let mut power: i64 = first;
        let mut acc: i64 = 0;
        let mut k: i64 = 0;
        while k < n
            invariant
                0 <= k <= n <= 64,
                alternates == self.alternates(),
                power == self.power(first as int, q as int, k as nat),
                acc == self.partial_sum(first as int, q as int, k as nat),
            decreases n - k,
        {
            let term: i64 = fx_mul_div(power, 1, self.term_divisor_of(k));
            acc = fx_add(acc, term);
            let next: i64 = fx_mul_div(power, q, self.step_divisor_of(k));
            power = if alternates {
                fx_neg(next)
            } else {
                next
            };
            k = k + 1;
        }
        acc
    }
}

/// The divisors of a series are positive.
pub proof fn lemma_divisors_positive(kind: Series, k: int)
    requires
        k >= 0,
    ensures
        kind.step_divisor(k) > 0,
        kind.term_divisor(k) > 0,
{
    assert((k + 1) * 1_000_000_000_000 > 0) by (nonlinear_arith)
        requires
            k >= 0,
    ;
    assert((2 * k + 1) * (2 * k + 2) * 1_000_000_000_000 > 0) by (nonlinear_arith)
        requires
            k >= 0,
    ;
    assert((2 * k + 2) * (2 * k + 3) * 1_000_000_000_000 > 0) by (nonlinear_arith)
        requires
            k >= 0,
    ;
}

/// With `q == 0` every power term after the first is zero.
pub proof fn lemma_powers_at_zero(kind: Series, first: int, k: nat)
    requires
        k >= 1,
    ensures
        kind.power(first, 0, k) == 0,
        kind.term(first, 0, k) == 0,
{
    let prev = kind.power(first, 0, (k - 1) as nat);
    lemma_divisors_positive(kind, k - 1);
    lemma_divisors_positive(kind, k as int);
    lemma_mul_div_zero(prev, kind.step_divisor(k - 1));
    lemma_mul_div_zero(1, kind.term_divisor(k as int));
}

/// With `q == 0` the sum of one or more summands is the first summand.
pub proof fn lemma_sum_at_zero(kind: Series, first: int, n: nat)
    requires
        n >= 1,
        i64::MIN <= first <= i64::MAX,
    ensures
        kind.partial_sum(first, 0, n) == first,
    decreases n,
{
    if n == 1 {
        assert(kind.partial_sum(first, 0, 0) == 0);
        assert(kind.power(first, 0, 0) == first);
        assert(kind.term_divisor(0) == 1);
        lemma_mul_div_cancel(first, 1);
        assert(kind.term(first, 0, 0) == first);
    } else {
        lemma_sum_at_zero(kind, first, (n - 1) as nat);
        lemma_powers_at_zero(kind, first, (n - 1) as nat);
    }
}

/// The exponential series of an argument between -1 and 0 stays between 0
/// and 1: its summands change sign from one to the next and do not grow, so
/// every partial sum lies between the two before it.
pub proof fn lemma_exp_series_bounds(y: int, n: nat)
    requires
        -WIDE <= y <= 0,
        n >= 1,
    ensures
        ({
            let s = Series::Exp.partial_sum(WIDE as int, y, n);
            let p = Series::Exp.power(WIDE as int, y, (n - 1) as nat);
            &&& 0 <= s <= WIDE
            &&& -WIDE <= p <= WIDE
            &&& n % 2 == 1 ==> p >= 0 && s - p >= 0
            &&& n % 2 == 0 ==> p <= 0 && s - p <= WIDE
        }),
    decreases n,
{
    let w = WIDE as int;
    if n == 1 {
        assert(Series::Exp.partial_sum(w, y, 0) == 0);
        assert(Series::Exp.power(w, y, 0) == w);
        lemma_mul_div_cancel(w, 1);
        assert(Series::Exp.term(w, y, 0) == w);
    } else {
        lemma_exp_series_bounds(y, (n - 1) as nat);
        let before = Series::Exp.power(w, y, (n - 2) as nat);
        let d = Series::Exp.step_divisor(n - 2);
        assert(d >= w) by (nonlinear_arith)
            requires
                d == (n - 2 + 1) * w,
                n >= 2,
                w > 0,
        ;
        lemma_mul_div_shrinks(before, y, d);
        lemma_mul_div_sign(before, y, d);
        let p = Series::Exp.power(w, y, (n - 1) as nat);
        assert(p == mul_div(before, y, d));
        lemma_mul_div_cancel(p, 1);
        assert(Series::Exp.term(w, y, (n - 1) as nat) == p);
    }
}

/// The terms of the series of the inverse hyperbolic tangent grow with the
/// argument: a larger argument and a larger square give no smaller a power
/// term, none of them being negative.
pub proof fn lemma_atanh_power_monotone(z: int, q: int, z2: int, q2: int, k: nat)
    requires
        0 <= z <= z2,
        0 <= q <= q2,
    ensures
        0 <= Series::Atanh.power(z, q, k) <= Series::Atanh.power(z2, q2, k),
    decreases k,
{
    if k > 0 {
        lemma_atanh_power_monotone(z, q, z2, q2, (k - 1) as nat);
        lemma_mul_div_monotone_both(
            Series::Atanh.power(z, q, (k - 1) as nat),
            Series::Atanh.power(z2, q2, (k - 1) as nat),
            q,
            q2,
            WIDE as int,
        );
    }
}

/// The sums of the series of the inverse hyperbolic tangent grow with the
/// argument.
pub proof fn lemma_atanh_sum_monotone(z: int, q: int, z2: int, q2: int, n: nat)
    requires
        0 <= z <= z2,
        0 <= q <= q2,
    ensures
        0 <= Series::Atanh.partial_sum(z, q, n) <= Series::Atanh.partial_sum(z2, q2, n),
    decreases n,
{
    if n > 0 {
        lemma_atanh_sum_monotone(z, q, z2, q2, (n - 1) as nat);
        lemma_atanh_power_monotone(z, q, z2, q2, (n - 1) as nat);
        lemma_mul_div_monotone_both(
            Series::Atanh.power(z, q, (n - 1) as nat),
            Series::Atanh.power(z2, q2, (n - 1) as nat),
            1,
            1,
            2 * (n - 1) + 1,
        );
    }
}

} // verus!
