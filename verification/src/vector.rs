//! Three-component fixed-point vectors.
use crate::fixed::{
    fx_add, fx_div, fx_mul, fx_mul_div, fx_neg, fx_sub, isqrt, isqrt_u128, lemma_isqrt_exists,
    lemma_isqrt_is, lemma_mul_div_cancel, lemma_mul_div_zero, magnitude, mul_div, sat, scaled_div,
    scaled_mul, SCALE,
};
use vstd::prelude::*;

verus! {

/// A vector of three fixed-point components.
///
/// The body frame of a vehicle uses `x` as forward, `y` as up and `z` as
/// right; the world frame uses `y` as the vertical.
#[derive(Clone, Copy, Debug, PartialEq, Eq, Structural)]
pub struct Vec3 {
    pub x: i64,
    pub y: i64,
    pub z: i64,
}

impl Vec3 {
    pub open spec fn spec_zero() -> Vec3 {
        Vec3 { x: 0, y: 0, z: 0 }
    }

    /// Component-wise saturating sum.
    pub open spec fn spec_plus(self, o: Vec3) -> Vec3 {
        Vec3 {
            x: sat(self.x + o.x) as i64,
            y: sat(self.y + o.y) as i64,
            z: sat(self.z + o.z) as i64,
        }
    }

    /// Component-wise saturating difference.
    pub open spec fn spec_minus(self, o: Vec3) -> Vec3 {
        Vec3 {
            x: sat(self.x - o.x) as i64,
            y: sat(self.y - o.y) as i64,
            z: sat(self.z - o.z) as i64,
        }
    }

    pub open spec fn spec_neg(self) -> Vec3 {
        Vec3 { x: sat(-self.x) as i64, y: sat(-self.y) as i64, z: sat(-self.z) as i64 }
    }

    /// Every component multiplied by the fixed-point scalar `k`.
    pub open spec fn spec_scale(self, k: int) -> Vec3 {
        Vec3 {
            x: scaled_mul(self.x as int, k) as i64,
            y: scaled_mul(self.y as int, k) as i64,
            z: scaled_mul(self.z as int, k) as i64,
        }
    }

    /// Every component divided by the fixed-point scalar `k`.
    pub open spec fn spec_div(self, k: int) -> Vec3 {
        Vec3 {
            x: scaled_div(self.x as int, k) as i64,
            y: scaled_div(self.y as int, k) as i64,
            z: scaled_div(self.z as int, k) as i64,
        }
    }

    /// Scalar product, each partial product rounded before the sum.
    pub open spec fn spec_dot(self, o: Vec3) -> int {
        sat(
            sat(scaled_mul(self.x as int, o.x as int) + scaled_mul(self.y as int, o.y as int))
                + scaled_mul(self.z as int, o.z as int),
        )
    }

    /// Vector product.
    pub open spec fn spec_cross(self, o: Vec3) -> Vec3 {
        Vec3 {
            x: sat(scaled_mul(self.y as int, o.z as int) - scaled_mul(self.z as int, o.y as int)) as i64,
            y: sat(scaled_mul(self.z as int, o.x as int) - scaled_mul(self.x as int, o.z as int)) as i64,
            z: sat(scaled_mul(self.x as int, o.y as int) - scaled_mul(self.y as int, o.x as int)) as i64,
        }
    }

    /// Sum of the squared raw components.
    pub open spec fn spec_norm_squared(self) -> int {
        self.x * self.x + self.y * self.y + self.z * self.z
    }

    /// Euclidean length: the integer square root of the sum of squares.
    pub open spec fn spec_length(self) -> int {
        sat(isqrt(self.spec_norm_squared()))
    }

    /// The vector scaled to unit length; the zero vector stays zero.
    pub open spec fn spec_normalize(self) -> Vec3 {
        let len = self.spec_length();
        if len == 0 {
            Vec3::spec_zero()
        } else {
            Vec3 {
                x: mul_div(self.x as int, SCALE as int, len) as i64,
                y: mul_div(self.y as int, SCALE as int, len) as i64,
                z: mul_div(self.z as int, SCALE as int, len) as i64,
            }
        }
    }

    /// The component of `self` along `axis`; zero when `axis` has no length.
    pub open spec fn spec_project_onto(self, axis: Vec3) -> Vec3 {
        let denom = axis.spec_dot(axis);
        if denom == 0 {
            Vec3::spec_zero()
        } else {
            axis.spec_scale(scaled_div(self.spec_dot(axis), denom))
        }
    }

    pub fn new(x: i64, y: i64, z: i64) -> (r: Vec3)
        ensures
            r == (Vec3 { x, y, z }),
    {
        Vec3 { x, y, z }
    }

    pub fn zero() -> (r: Vec3)
        ensures
            r == Vec3::spec_zero(),
    {
        Vec3 { x: 0, y: 0, z: 0 }
    }

    pub fn plus(&self, o: &Vec3) -> (r: Vec3)
        ensures
            r == self.spec_plus(*o),
    {
        Vec3 { x: fx_add(self.x, o.x), y: fx_add(self.y, o.y), z: fx_add(self.z, o.z) }
    }

    pub fn minus(&self, o: &Vec3) -> (r: Vec3)
        ensures
            r == self.spec_minus(*o),
    {
        Vec3 { x: fx_sub(self.x, o.x), y: fx_sub(self.y, o.y), z: fx_sub(self.z, o.z) }
    }

    pub fn neg(&self) -> (r: Vec3)
        ensures
            r == self.spec_neg(),
    {
        Vec3 { x: fx_neg(self.x), y: fx_neg(self.y), z: fx_neg(self.z) }
    }

    pub fn scale(&self, k: i64) -> (r: Vec3)
        ensures
            r == self.spec_scale(k as int),
    {
        Vec3 { x: fx_mul(self.x, k), y: fx_mul(self.y, k), z: fx_mul(self.z, k) }
    }

    pub fn div(&self, k: i64) -> (r: Vec3)
        requires
            k != 0,
        ensures
            r == self.spec_div(k as int),
    {
        Vec3 { x: fx_div(self.x, k), y: fx_div(self.y, k), z: fx_div(self.z, k) }
    }

    pub fn dot(&self, o: &Vec3) -> (r: i64)
        ensures
            r == self.spec_dot(*o),
    {
        fx_add(fx_add(fx_mul(self.x, o.x), fx_mul(self.y, o.y)), fx_mul(self.z, o.z))
    }

    pub fn cross(&self, o: &Vec3) -> (r: Vec3)
        ensures
            r == self.spec_cross(*o),
    {
        Vec3 {
            x: fx_sub(fx_mul(self.y, o.z), fx_mul(self.z, o.y)),
            y: fx_sub(fx_mul(self.z, o.x), fx_mul(self.x, o.z)),
            z: fx_sub(fx_mul(self.x, o.y), fx_mul(self.y, o.x)),
        }
    }

    /// The sum of the squared raw components.
    pub fn norm_squared(&self) -> (r: u128)
        ensures
            r == self.spec_norm_squared(),
    {
        square_u128(self.x) + square_u128(self.y) + square_u128(self.z)
    }

    pub fn length(&self) -> (r: i64)
        ensures
            r == self.spec_length(),
            r >= 0,
    {
        let sq: u128 = square_u128(self.x) + square_u128(self.y) + square_u128(self.z);
        let root: u128 = isqrt_u128(sq);
        if root > i64::MAX as u128 {
            i64::MAX
        } else {
            root as i64
        }
    }

    pub fn normalize(&self) -> (r: Vec3)
        ensures
            r == self.spec_normalize(),
    {
        let len: i64 = self.length();
        if len == 0 {
            Vec3::zero()
        } else {
            Vec3 {
                x: fx_mul_div(self.x, SCALE, len),
                y: fx_mul_div(self.y, SCALE, len),
                z: fx_mul_div(self.z, SCALE, len),
            }
        }
    }

    pub fn project_onto(&self, axis: &Vec3) -> (r: Vec3)
        ensures
            r == self.spec_project_onto(*axis),
    {
        let denom: i64 = axis.dot(axis);
        if denom == 0 {
            Vec3::zero()
        } else {
            axis.scale(fx_div(self.dot(axis), denom))
        }
    }
}

/// A length is never negative.
pub proof fn lemma_length_not_negative(v: Vec3)
    ensures
        0 <= v.spec_length() <= i64::MAX,
{
    assert(v.x * v.x >= 0) by (nonlinear_arith);
    assert(v.y * v.y >= 0) by (nonlinear_arith);
    assert(v.z * v.z >= 0) by (nonlinear_arith);
    lemma_isqrt_exists(v.spec_norm_squared());
}

/// A vector along the `x` axis has the magnitude of its component as its
/// length, and scaled to unit length it is the unit vector of the axis, on
/// the side of the component.
pub proof fn lemma_along_x(x: i64)
    requires
        x != 0,
        x > i64::MIN,
    ensures
        (Vec3 { x, y: 0, z: 0 }).spec_length() == magnitude(x as int),
        x > 0 ==> (Vec3 { x, y: 0, z: 0 }).spec_normalize() == (Vec3 { x: SCALE, y: 0, z: 0 }),
        x < 0 ==> (Vec3 { x, y: 0, z: 0 }).spec_normalize() == (Vec3 { x: -1_000_000i64, y: 0, z: 0 }),
{
    let m = magnitude(x as int);
    assert(m * m == x * x) by (nonlinear_arith)
        requires
            m == x || m == -x,
    ;
    assert(m * m < (m + 1) * (m + 1)) by (nonlinear_arith)
        requires
            m >= 0,
    ;
    lemma_isqrt_is(x * x, m);
    let v = Vec3 { x, y: 0, z: 0 };
    assert(v.spec_norm_squared() == x * x);
    assert(v.spec_length() == m);
    lemma_mul_div_zero(SCALE as int, m);
    lemma_mul_div_cancel(SCALE as int, m);
    lemma_mul_div_cancel(-SCALE, m);
    assert(mul_div(0, SCALE as int, m) == 0);
    if x > 0 {
        assert(x * SCALE == SCALE * m) by (nonlinear_arith)
            requires
                m == x,
        ;
        assert(mul_div(x as int, SCALE as int, m) == SCALE);
    } else {
        assert(x * SCALE == (-SCALE) * m) by (nonlinear_arith)
            requires
                m == -x,
        ;
        assert(mul_div(x as int, SCALE as int, m) == -SCALE);
    }
}

/// A vector along the `y` axis with a positive component, scaled to unit
/// length, is the unit vector of the axis.
pub proof fn lemma_along_y(y: i64)
    requires
        y > 0,
    ensures
        (Vec3 { x: 0, y, z: 0 }).spec_normalize() == (Vec3 { x: 0, y: SCALE, z: 0 }),
{
    let m = y as int;
    assert(m * m < (m + 1) * (m + 1)) by (nonlinear_arith)
        requires
            m >= 0,
    ;
    lemma_isqrt_is(y * y, m);
    lemma_mul_div_zero(SCALE as int, m);
    lemma_mul_div_cancel(SCALE as int, m);
    assert(y * SCALE == SCALE * m) by (nonlinear_arith)
        requires
            m == y,
    ;
}

/// Scaling by 1 leaves a vector as it is, scaling by 0 leaves nothing, and
/// a unit vector of an axis scaled by `k` has `k` on that axis and nothing
/// beside it.
pub proof fn lemma_scale_basics(v: Vec3, k: i64)
    ensures
        v.spec_scale(SCALE as int) == v,
        v.spec_scale(0) == Vec3::spec_zero(),
        (Vec3 { x: SCALE, y: 0, z: 0 }).spec_scale(k as int) == (Vec3 { x: k, y: 0, z: 0 }),
        (Vec3 { x: 0, y: SCALE, z: 0 }).spec_scale(k as int) == (Vec3 { x: 0, y: k, z: 0 }),
        (Vec3 { x: 0, y: 0, z: SCALE }).spec_scale(k as int) == (Vec3 { x: 0, y: 0, z: k }),
        Vec3::spec_zero().spec_scale(k as int) == Vec3::spec_zero(),
{
    lemma_mul_div_cancel(v.x as int, SCALE as int);
    lemma_mul_div_cancel(v.y as int, SCALE as int);
    lemma_mul_div_cancel(v.z as int, SCALE as int);
    lemma_mul_div_zero(v.x as int, SCALE as int);
    lemma_mul_div_zero(v.y as int, SCALE as int);
    lemma_mul_div_zero(v.z as int, SCALE as int);
    lemma_mul_div_zero(k as int, SCALE as int);
    lemma_mul_div_cancel(k as int, SCALE as int);
    assert(SCALE * k == k * SCALE) by (nonlinear_arith);
}

/// The square of a 64-bit number, which always fits in 128 bits.
pub fn square_u128(a: i64) -> (r: u128)
    ensures
        r == a * a,
        r <= 0x4000_0000_0000_0000_0000_0000_0000_0000,
{
    let m: u128 = if a < 0 {
        (-(a as i128)) as u128
    } else {
        a as u128
    };
    assert(m * m == a * a) by (nonlinear_arith)
        requires
            m == a || m == -a,
    ;
    assert(m * m <= 0x4000_0000_0000_0000_0000_0000_0000_0000) by (nonlinear_arith)
        requires
            m <= 0x8000_0000_0000_0000,
    ;
    m * m
}

} // verus!
