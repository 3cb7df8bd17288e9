//! Orientation of a body as a unit quaternion, and the placement of a body in
//! render space.
use crate::elementary::{cos, fx_cos, fx_sin, sin};
use crate::fixed::{
    fx_add, fx_mul, fx_mul_div, fx_neg, fx_sub, lemma_mul_div_zero, mul_div, sat, scaled_mul,
    trunc_div, SCALE,
};
use crate::fixed::{isqrt, isqrt_u128, min2};
use crate::vector::{square_u128, Vec3};
use vstd::prelude::*;

verus! {

/// A quaternion `w + xi + yj + zk` of fixed-point components. A rotation is
/// a quaternion of unit length.
#[derive(Clone, Copy, Debug, PartialEq, Eq, Structural)]
pub struct Quat {
    pub x: i64,
    pub y: i64,
    pub z: i64,
    pub w: i64,
}

/// Where a body is drawn: its position in render space and its orientation.
#[derive(Clone, Copy, Debug, PartialEq, Eq, Structural)]
pub struct Transform {
    pub translation: Vec3,
    pub rotation: Quat,
}

impl Quat {
    /// The rotation that turns nothing.
    pub open spec fn spec_identity() -> Quat {
        Quat { x: 0, y: 0, z: 0, w: SCALE }
    }

    /// The vector part.
    pub open spec fn spec_axis(self) -> Vec3 {
        Vec3 { x: self.x, y: self.y, z: self.z }
    }

    /// The inverse rotation of a unit quaternion.
    pub open spec fn spec_conjugate(self) -> Quat {
        Quat { x: sat(-self.x) as i64, y: sat(-self.y) as i64, z: sat(-self.z) as i64, w: self.w }
    }

    /// `v` turned by this rotation: `v + w * t + q x t` with `t = 2 * (q x v)`
    /// and `q` the vector part.
    pub open spec fn spec_rotate(self, v: Vec3) -> Vec3 {
        let q = self.spec_axis();
        let c = q.spec_cross(v);
        let t = c.spec_plus(c);
        v.spec_plus(t.spec_scale(self.w as int)).spec_plus(q.spec_cross(t))
    }

    /// The rotation that applies `o` first and this one second.
    pub open spec fn spec_then_after(self, o: Quat) -> Quat {
        let a = self;
        let b = o;
        Quat {
            w: sat(
                sat(
                    sat(scaled_mul(a.w as int, b.w as int) - scaled_mul(a.x as int, b.x as int))
                        - scaled_mul(a.y as int, b.y as int),
                ) - scaled_mul(a.z as int, b.z as int),
            ) as i64,
            x: sat(
                sat(
                    sat(scaled_mul(a.w as int, b.x as int) + scaled_mul(a.x as int, b.w as int))
                        + scaled_mul(a.y as int, b.z as int),
                ) - scaled_mul(a.z as int, b.y as int),
            ) as i64,
            y: sat(
                sat(
                    sat(scaled_mul(a.w as int, b.y as int) - scaled_mul(a.x as int, b.z as int))
                        + scaled_mul(a.y as int, b.w as int),
                ) + scaled_mul(a.z as int, b.x as int),
            ) as i64,
            z: sat(
                sat(
                    sat(scaled_mul(a.w as int, b.z as int) + scaled_mul(a.x as int, b.y as int))
                        - scaled_mul(a.y as int, b.x as int),
                ) + scaled_mul(a.z as int, b.w as int),
            ) as i64,
        }
    }

    /// The rotation by `angle` radians about the unit vector `axis`:
    /// `cos(angle / 2) + sin(angle / 2) * axis`.
    pub open spec fn spec_from_axis_angle(axis: Vec3, angle: int) -> Quat {
        let half = trunc_div(angle, 2);
        let s = sin(half);
        Quat {
            x: scaled_mul(axis.x as int, s) as i64,
            y: scaled_mul(axis.y as int, s) as i64,
            z: scaled_mul(axis.z as int, s) as i64,
            w: cos(half) as i64,
        }
    }

    /// The rotation by `angle` radians about the world's `y` axis.
    pub open spec fn spec_from_rotation_y(angle: int) -> Quat {
        Quat::spec_from_axis_angle(Vec3 { x: 0, y: SCALE, z: 0 }, angle)
    }

    /// The sum of the squared raw components.
    pub open spec fn spec_norm_squared(self) -> int {
        self.x * self.x + self.y * self.y + self.z * self.z + self.w * self.w
    }

    /// The length: the integer square root of the sum of squares, which is
    /// itself limited to 128 bits.
    pub open spec fn spec_length(self) -> int {
        sat(isqrt(min2(self.spec_norm_squared(), u128::MAX as int)))
    }

    /// The quaternion scaled to unit length; one without length becomes the
    /// identity.
    pub open spec fn spec_normalize(self) -> Quat {
        let len = self.spec_length();
        if len == 0 {
            Quat::spec_identity()
        } else {
            Quat {
                x: mul_div(self.x as int, SCALE as int, len) as i64,
                y: mul_div(self.y as int, SCALE as int, len) as i64,
                z: mul_div(self.z as int, SCALE as int, len) as i64,
                w: mul_div(self.w as int, SCALE as int, len) as i64,
            }
        }
    }

    /// This rotation followed by a turn of `angle` radians about `axis`,
    /// scaled back to unit length.
    pub open spec fn spec_rotated_about(self, axis: Vec3, angle: int) -> Quat {
        Quat::spec_from_axis_angle(axis, angle).spec_then_after(self).spec_normalize()
    }

    pub fn from_axis_angle(axis: &Vec3, angle: i64) -> (r: Quat)
        ensures
            r == Quat::spec_from_axis_angle(*axis, angle as int),
    {
        let half: i64 = angle / 2;
        let s: i64 = fx_sin(half);
        Quat { x: fx_mul(axis.x, s), y: fx_mul(axis.y, s), z: fx_mul(axis.z, s), w: fx_cos(half) }
    }

    pub fn from_rotation_y(angle: i64) -> (r: Quat)
        ensures
            r == Quat::spec_from_rotation_y(angle as int),
    {
        Quat::from_axis_angle(&Vec3 { x: 0, y: SCALE, z: 0 }, angle)
    }

    pub fn normalize(&self) -> (r: Quat)
        ensures
            r == self.spec_normalize(),
    {
        let part: u128 = square_u128(self.x) + square_u128(self.y) + square_u128(self.z);
        let sq: u128 = match part.checked_add(square_u128(self.w)) {
            Some(s) => s,
            None => u128::MAX,
        };
        let root: u128 = isqrt_u128(sq);
        let len: i64 = if root > i64::MAX as u128 {
            i64::MAX
        } else {
            root as i64
        };
        if len == 0 {
            Quat::identity()
        } else {
            Quat {
                x: fx_mul_div(self.x, SCALE, len),
                y: fx_mul_div(self.y, SCALE, len),
                z: fx_mul_div(self.z, SCALE, len),
                w: fx_mul_div(self.w, SCALE, len),
            }
        }
    }

    /// Turns this rotation by `angle` radians about `axis`, a unit vector of
    /// the world.
    pub fn rotated_about(&self, axis: &Vec3, angle: i64) -> (r: Quat)
        ensures
            r == self.spec_rotated_about(*axis, angle as int),
    {
        Quat::from_axis_angle(axis, angle).then_after(self).normalize()
    }

    pub fn identity() -> (r: Quat)
        ensures
            r == Quat::spec_identity(),
    {
        Quat { x: 0, y: 0, z: 0, w: SCALE }
    }

    pub fn conjugate(&self) -> (r: Quat)
        ensures
            r == self.spec_conjugate(),
    {
        Quat { x: fx_neg(self.x), y: fx_neg(self.y), z: fx_neg(self.z), w: self.w }
    }

    /// Turns `v` by this rotation.
    pub fn rotate(&self, v: &Vec3) -> (r: Vec3)
        ensures
            r == self.spec_rotate(*v),
    {
        let q = Vec3 { x: self.x, y: self.y, z: self.z };
        let c = q.cross(v);
        let t = c.plus(&c);
        v.plus(&t.scale(self.w)).plus(&q.cross(&t))
    }

    /// Composes two rotations: the result applies `o` first, then `self`.
    pub fn then_after(&self, o: &Quat) -> (r: Quat)
        ensures
            r == self.spec_then_after(*o),
    {
        let a = self;
        let b = o;
        Quat {
            w: fx_sub(
                fx_sub(fx_sub(fx_mul(a.w, b.w), fx_mul(a.x, b.x)), fx_mul(a.y, b.y)),
                fx_mul(a.z, b.z),
            ),
            x: fx_sub(
                fx_add(fx_add(fx_mul(a.w, b.x), fx_mul(a.x, b.w)), fx_mul(a.y, b.z)),
                fx_mul(a.z, b.y),
            ),
            y: fx_add(
                fx_add(fx_sub(fx_mul(a.w, b.y), fx_mul(a.x, b.z)), fx_mul(a.y, b.w)),
                fx_mul(a.z, b.x),
            ),
            z: fx_add(
                fx_sub(fx_add(fx_mul(a.w, b.z), fx_mul(a.x, b.y)), fx_mul(a.y, b.x)),
                fx_mul(a.z, b.w),
            ),
        }
    }
}

/// The rotation that turns nothing turns nothing: it leaves every vector as
/// it is.
pub proof fn law_identity_turns_nothing(v: Vec3)
    ensures
        Quat::spec_identity().spec_rotate(v) == v,
{
    let q = Quat::spec_identity().spec_axis();
    lemma_mul_div_zero(v.x as int, SCALE as int);
    lemma_mul_div_zero(v.y as int, SCALE as int);
    lemma_mul_div_zero(v.z as int, SCALE as int);
    let c = q.spec_cross(v);
    assert(c == Vec3::spec_zero());
    let t = c.spec_plus(c);
    assert(t == Vec3::spec_zero());
    lemma_mul_div_zero(0, SCALE as int);
    assert(t.spec_scale(SCALE as int) == Vec3::spec_zero());
    assert(q.spec_cross(t) == Vec3::spec_zero());
}

impl Transform {
    /// The forward axis of the body in the world: its `x` axis turned.
    pub open spec fn spec_forward(self) -> Vec3 {
        self.rotation.spec_rotate(Vec3 { x: SCALE, y: 0, z: 0 })
    }

    /// The up axis of the body in the world: its `y` axis turned.
    pub open spec fn spec_up(self) -> Vec3 {
        self.rotation.spec_rotate(Vec3 { x: 0, y: SCALE, z: 0 })
    }

    /// The right axis of the body in the world: its `z` axis turned.
    pub open spec fn spec_right(self) -> Vec3 {
        self.rotation.spec_rotate(Vec3 { x: 0, y: 0, z: SCALE })
    }

    pub fn forward(&self) -> (r: Vec3)
        ensures
            r == self.spec_forward(),
    {
        self.rotation.rotate(&Vec3 { x: SCALE, y: 0, z: 0 })
    }

    pub fn up(&self) -> (r: Vec3)
        ensures
            r == self.spec_up(),
    {
        self.rotation.rotate(&Vec3 { x: 0, y: SCALE, z: 0 })
    }

    pub fn right(&self) -> (r: Vec3)
        ensures
            r == self.spec_right(),
    {
        self.rotation.rotate(&Vec3 { x: 0, y: 0, z: SCALE })
    }
}

} // verus!
