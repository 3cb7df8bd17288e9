//! Lift: the angle of attack, the lift coefficient with its soft stall, and
//! the lift force.
use crate::elementary::{atan2, cos, fx_atan2, fx_cos, law_cos_sin_of_zero};
use crate::fixed::{
    fx_abs, fx_add, fx_mul, fx_sub, lemma_mul_div_cancel, magnitude, sat, scaled_mul, SCALE,
};
use crate::vector::Vec3;
use vstd::prelude::*;

verus! {

/// Wing area of the aircraft, in m^2.
pub const CF104_WING_AREA: i64 = 18_220_000;

/// Lift coefficient at an angle of attack of zero.
pub const CF104_CL0: i64 = 800_000;

/// Growth of the lift coefficient per radian of angle of attack.
pub const CF104_CL_ALPHA: i64 = 5_700_000;

/// Angle of attack at which the wing stalls: 15 degrees, in radians.
pub const CF104_STALL_ALPHA: i64 = 261_799;

/// Angle at which the wing is set on the body: -2 degrees, in radians.
pub const CF104_INCIDENT_OFFSET: i64 = -34_907;

/// Speed along the body below which there is no lift, in m/s.
pub const MIN_LIFT_SPEED: i64 = 1_000;

/// The relative wind, laid into the plane at right angles to `up`.
pub open spec fn wind_in_plane(velocity: Vec3, up: Vec3) -> Vec3 {
    let rel_air = velocity.spec_neg();
    rel_air.spec_minus(up.spec_scale(rel_air.spec_dot(up)))
}

/// The angle of attack: the angle from `forward` to the relative wind laid
/// into the plane at right angles to `up`, counted as positive where it
/// turns the way of `up`, plus the wing's angle of incidence.
pub open spec fn spec_angle_of_attack(forward: Vec3, velocity: Vec3, up: Vec3) -> int {
    let w = wind_in_plane(velocity, up);
    sat(atan2(forward.spec_cross(w).spec_dot(up), forward.spec_dot(w)) + CF104_INCIDENT_OFFSET)
}

/// The lift coefficient of the straight part of the curve.
pub open spec fn linear_cl(alpha: int) -> int {
    sat(CF104_CL0 + scaled_mul(CF104_CL_ALPHA as int, alpha))
}

/// The lift coefficient past the stall: the coefficient at the stall angle
/// of the same sign, tapered by the cosine of the angle past it.
pub open spec fn stalled_cl(alpha: int) -> int {
    let edge: int = if alpha < 0 {
        -CF104_STALL_ALPHA
    } else {
        CF104_STALL_ALPHA as int
    };
    scaled_mul(linear_cl(edge), cos(sat(sat(magnitude(alpha)) - CF104_STALL_ALPHA)))
}

/// The lift coefficient: straight below the stall angle, tapered from it on.
pub open spec fn lift_coefficient(alpha: int) -> int {
    if sat(magnitude(alpha)) < CF104_STALL_ALPHA {
        linear_cl(alpha)
    } else {
        stalled_cl(alpha)
    }
}

/// `0.5 * rho * v^2 * wing_area * cl`.
pub open spec fn lift_magnitude(rho: int, speed: int, wing_area: int, cl: int) -> int {
    scaled_mul(
        scaled_mul(scaled_mul(scaled_mul(scaled_mul(500_000, rho), speed), speed), wing_area),
        cl,
    )
}

/// The lift force: along `up`, of [`lift_magnitude`] for the speed along
/// `forward`; nothing below the least speed.
pub open spec fn spec_lift_force(forward: Vec3, velocity: Vec3, up: Vec3, rho: int, wing_area: int) -> Vec3 {
    let speed = velocity.spec_project_onto(forward).spec_length();
    if speed < MIN_LIFT_SPEED {
        Vec3::spec_zero()
    } else {
        up.spec_normalize().spec_scale(
            lift_magnitude(
                rho,
                speed,
                wing_area,
                lift_coefficient(spec_angle_of_attack(forward, velocity, up)),
            ),
        )
    }
}

pub fn angle_of_attack(forward: &Vec3, velocity: &Vec3, up: &Vec3) -> (r: i64)
    ensures
        r == spec_angle_of_attack(*forward, *velocity, *up),
{
    let rel_air = velocity.neg();
    let w = rel_air.minus(&up.scale(rel_air.dot(up)));
    fx_add(fx_atan2(forward.cross(&w).dot(up), forward.dot(&w)), CF104_INCIDENT_OFFSET)
}

pub fn cl(alpha: i64) -> (r: i64)
    ensures
        r == lift_coefficient(alpha as int),
{
    let size: i64 = fx_abs(alpha);
    if size < CF104_STALL_ALPHA {
        fx_add(CF104_CL0, fx_mul(CF104_CL_ALPHA, alpha))
    } else {
        let edge: i64 = if alpha < 0 {
            -CF104_STALL_ALPHA
        } else {
            CF104_STALL_ALPHA
        };
        let at_stall: i64 = fx_add(CF104_CL0, fx_mul(CF104_CL_ALPHA, edge));
        fx_mul(at_stall, fx_cos(fx_sub(size, CF104_STALL_ALPHA)))
    }
}

pub fn lift_force(forward: &Vec3, velocity: &Vec3, up: &Vec3, rho: i64, wing_area: i64) -> (r: Vec3)
    ensures
        r == spec_lift_force(*forward, *velocity, *up, rho as int, wing_area as int),
{
    let speed: i64 = velocity.project_onto(forward).length();
    if speed < MIN_LIFT_SPEED {
        return Vec3::zero();
    }
    let alpha: i64 = angle_of_attack(forward, velocity, up);
    let coefficient: i64 = cl(alpha);
    let lift_mag: i64 = fx_mul(
        fx_mul(fx_mul(fx_mul(fx_mul(500_000, rho), speed), speed), wing_area),
        coefficient,
    );
    up.normalize().scale(lift_mag)
}

/// The lift coefficient has no jump at the stall: at the stall angle, of
/// either sign, the straight part and the taper give the same value.
pub proof fn law_cl_continuous_at_stall()
    ensures
        stalled_cl(CF104_STALL_ALPHA as int) == linear_cl(CF104_STALL_ALPHA as int),
        stalled_cl(-CF104_STALL_ALPHA) == linear_cl(-CF104_STALL_ALPHA),
        lift_coefficient(CF104_STALL_ALPHA as int) == linear_cl(CF104_STALL_ALPHA as int),
        lift_coefficient(-CF104_STALL_ALPHA) == linear_cl(-CF104_STALL_ALPHA),
{
    law_cos_sin_of_zero();
    lemma_mul_div_cancel(linear_cl(CF104_STALL_ALPHA as int), SCALE as int);
    lemma_mul_div_cancel(linear_cl(-CF104_STALL_ALPHA), SCALE as int);
}

} // verus!
