//! Drag: the drag coefficient over the Mach number and the drag force.
use crate::fixed::{
    fx_add, fx_div, fx_max, fx_mul, fx_neg, fx_sub, lemma_mul_div_sign, max2, sat, scaled_div,
    scaled_mul, SCALE,
};
use crate::util::{
    air_density, speed_of_sound, spec_air_density, spec_speed_of_sound, GAS_CONSTANT,
};
use crate::vector::{lemma_length_not_negative, Vec3};
use vstd::prelude::*;

verus! {

/// Drag coefficient below Mach 0.8.
pub const C_D_SUBSONIC: i64 = 20_000;

/// Drag coefficient that the transonic rise reaches at Mach 1.2.
pub const C_D_TRANSONIC_SPIKE: i64 = 100_000;

/// Drag coefficient from which the supersonic part starts at Mach 1.2.
pub const C_D_SUPERSONIC_BASE: i64 = 40_000;

/// Mach number at which the transonic rise begins.
pub const MACH_TRANSONIC: i64 = 800_000;

/// Mach number at which the supersonic part begins.
pub const MACH_SUPERSONIC: i64 = 1_200_000;

/// Speed below which there is no drag, in m/s.
pub const MIN_DRAG_SPEED: i64 = 1_000;

/// The drag coefficient at a Mach number: constant below 0.8, a straight
/// rise to the transonic spike at 1.2, and from there the supersonic base
/// growing by 0.02 per Mach.
pub open spec fn drag_coefficient(mach: int) -> int {
    if mach < MACH_TRANSONIC {
        C_D_SUBSONIC as int
    } else if mach < MACH_SUPERSONIC {
        let share = scaled_div(sat(mach - MACH_TRANSONIC), MACH_SUPERSONIC - MACH_TRANSONIC);
        sat(C_D_SUBSONIC + scaled_mul(share, C_D_TRANSONIC_SPIKE - C_D_SUBSONIC))
    } else {
        sat(C_D_SUPERSONIC_BASE + scaled_mul(20_000, sat(mach - MACH_SUPERSONIC)))
    }
}

/// The Mach number of `speed` at `temperature`; the speed of sound is
/// floored to one millionth.
pub open spec fn mach_number(speed: int, temperature: int) -> int {
    scaled_div(speed, max2(spec_speed_of_sound(temperature), 1))
}

/// `0.5 * rho * v^2 * cd * area`.
pub open spec fn drag_magnitude(rho: int, speed: int, cd: int, area: int) -> int {
    scaled_mul(
        scaled_mul(scaled_mul(scaled_mul(scaled_mul(500_000, rho), speed), speed), cd),
        area,
    )
}

/// The drag force: against the velocity, of [`drag_magnitude`]; nothing below
/// the least speed.
pub open spec fn spec_drag_force(
    cross_section_area: int,
    velocity: Vec3,
    temperature: int,
    air_pressure: int,
) -> Vec3 {
    let speed = velocity.spec_length();
    if speed < MIN_DRAG_SPEED {
        Vec3::spec_zero()
    } else {
        velocity.spec_normalize().spec_scale(
            sat(
                -drag_magnitude(
                    spec_air_density(air_pressure, temperature),
                    speed,
                    drag_coefficient(mach_number(speed, temperature)),
                    cross_section_area,
                ),
            ),
        )
    }
}

/// Computes [`drag_coefficient`].
pub fn drag_coefficient_at(mach: i64) -> (r: i64)
    ensures
        r == drag_coefficient(mach as int),
{
    if mach < MACH_TRANSONIC {
        C_D_SUBSONIC
    } else if mach < MACH_SUPERSONIC {
        let share: i64 = fx_div(fx_sub(mach, MACH_TRANSONIC), MACH_SUPERSONIC - MACH_TRANSONIC);
        fx_add(C_D_SUBSONIC, fx_mul(share, C_D_TRANSONIC_SPIKE - C_D_SUBSONIC))
    } else {
        fx_add(C_D_SUPERSONIC_BASE, fx_mul(20_000, fx_sub(mach, MACH_SUPERSONIC)))
    }
}

pub fn drag_force(cross_section_area: i64, velocity: &Vec3, temperature: i64, air_pressure: i64) -> (r: Vec3)
    ensures
        r == spec_drag_force(
            cross_section_area as int,
            *velocity,
            temperature as int,
            air_pressure as int,
        ),
{
    let rho: i64 = air_density(air_pressure, temperature);
    let speed: i64 = velocity.length();
    if speed < MIN_DRAG_SPEED {
        return Vec3::zero();
    }
    let velocity_dir = velocity.normalize();
    let mach: i64 = fx_div(speed, fx_max(speed_of_sound(temperature), 1));
    let cd: i64 = drag_coefficient_at(mach);
    let magnitude: i64 = fx_mul(fx_mul(fx_mul(fx_mul(fx_mul(500_000, rho), speed), speed), cd), cross_section_area);
    velocity_dir.scale(fx_neg(magnitude))
}

/// A force on one axis that does not push the way the body moves on it.
pub open spec fn opposes(x: int, force: int) -> bool {
    (x >= 0 ==> force <= 0) && (x <= 0 ==> force >= 0)
}

/// The drag coefficient is never negative at a Mach number that is not.
pub proof fn lemma_drag_coefficient_positive(mach: int)
    requires
        0 <= mach <= i64::MAX,
    ensures
        drag_coefficient(mach) >= C_D_SUBSONIC,
{
    if mach >= MACH_TRANSONIC && mach < MACH_SUPERSONIC {
        law_drag_coefficient_rise(mach);
    } else if mach >= MACH_SUPERSONIC {
        lemma_mul_div_sign(20_000, sat(mach - MACH_SUPERSONIC), SCALE as int);
    }
}

/// Drag never pushes a body on: in air whose pressure is not negative, and
/// with a frontal area that is not negative, the drag on each axis is
/// against the velocity on that axis, or nothing.
pub proof fn law_drag_opposes_velocity(
    cross_section_area: int,
    velocity: Vec3,
    temperature: int,
    air_pressure: int,
)
    requires
        0 <= cross_section_area <= i64::MAX,
        0 <= air_pressure <= i64::MAX,
        i64::MIN <= temperature <= i64::MAX,
    ensures
        ({
            let drag = spec_drag_force(cross_section_area, velocity, temperature, air_pressure);
            &&& opposes(velocity.x as int, drag.x as int)
            &&& opposes(velocity.y as int, drag.y as int)
            &&& opposes(velocity.z as int, drag.z as int)
        }),
{
    let s = SCALE as int;
    let speed = velocity.spec_length();
    lemma_length_not_negative(velocity);
    if speed >= MIN_DRAG_SPEED {
        let rt = scaled_mul(GAS_CONSTANT as int, temperature);
        let rho = spec_air_density(air_pressure, temperature);
        if rt > 0 {
            lemma_mul_div_sign(air_pressure, s, rt);
        }
        let sound = max2(spec_speed_of_sound(temperature), 1);
        lemma_mul_div_sign(speed, s, sound);
        let mach = mach_number(speed, temperature);
        lemma_drag_coefficient_positive(mach);
        let cd = drag_coefficient(mach);
        let m1 = scaled_mul(500_000, rho);
        lemma_mul_div_sign(500_000, rho, s);
        let m2 = scaled_mul(m1, speed);
        lemma_mul_div_sign(m1, speed, s);
        let m3 = scaled_mul(m2, speed);
        lemma_mul_div_sign(m2, speed, s);
        let m4 = scaled_mul(m3, cd);
        lemma_mul_div_sign(m3, cd, s);
        let m5 = scaled_mul(m4, cross_section_area);
        lemma_mul_div_sign(m4, cross_section_area, s);
        let push = sat(-m5);
        lemma_mul_div_sign(velocity.x as int, s, speed);
        lemma_mul_div_sign(velocity.y as int, s, speed);
        lemma_mul_div_sign(velocity.z as int, s, speed);
        let dir = velocity.spec_normalize();
        lemma_mul_div_sign(dir.x as int, push, s);
        lemma_mul_div_sign(dir.y as int, push, s);
        lemma_mul_div_sign(dir.z as int, push, s);
    }
}

/// The drag coefficient has no jump where the transonic rise begins, and
/// lies between the subsonic value and the transonic spike up to Mach 1.2.
pub proof fn law_drag_coefficient_rise(mach: int)
    requires
        MACH_TRANSONIC <= mach < MACH_SUPERSONIC,
    ensures
        drag_coefficient(MACH_TRANSONIC as int) == C_D_SUBSONIC,
        C_D_SUBSONIC <= drag_coefficient(mach) <= C_D_TRANSONIC_SPIKE,
{
    let d = mach - MACH_TRANSONIC;
    assert(0 <= (d * 1_000_000) / 400_000 <= 1_000_000);
    let share = scaled_div(d, 400_000);
    assert(share == (d * 1_000_000) / 400_000);
    assert(0 <= (share * 80_000) / 1_000_000 <= 80_000);
}

} // verus!
