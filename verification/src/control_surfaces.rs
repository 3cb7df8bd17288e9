//! How the stick and the pedals turn the body: the angular velocity that
//! they command, and its damping by the air.
use crate::controls::{pedal_input, spec_pedal_input, Joystick, KeyState};
use crate::fixed::{
    clamp, fx_clamp, fx_div, fx_mul, fx_neg, fx_sub, lemma_mul_div_shrinks, magnitude, sat,
    scaled_div, scaled_mul, trunc_div, SCALE,
};
use crate::vector::Vec3;
use vstd::prelude::*;

verus! {

/// Pitch rate at full stick and full effectiveness, in rad/s.
pub const PITCH_RATE: i64 = 1_000_000;

/// Yaw rate at full pedal and full effectiveness, in rad/s.
pub const YAW_RATE: i64 = 100_000;

/// Roll rate at full stick and full effectiveness, in rad/s.
pub const ROLL_RATE: i64 = 2_000_000;

/// Airspeed at and below which the controls have no effect, in m/s.
pub const MIN_EFFECTIVE_SPEED: i64 = 20_000_000;

/// Airspeed from which the controls have their full effect, in m/s.
pub const MAX_EFFECTIVE_SPEED: i64 = 300_000_000;

/// Airspeed that gives a damping of 1 per second, in m/s.
pub const DAMPING_SPEED: i64 = 200_000_000;

/// Least damping, per second.
pub const MIN_DAMPING: i64 = 200_000;

/// Greatest damping, per second.
pub const MAX_DAMPING: i64 = 3_000_000;

/// The angular velocity of a body, in rad/s: roll about its forward axis in
/// `x`, yaw about its up axis in `y`, pitch about its right axis in `z`.
#[derive(Clone, Copy, Debug, PartialEq, Eq, Structural)]
pub struct AngularVelocity(pub Vec3);

/// How much of their effect the controls have at `airspeed`: nothing up to
/// the least effective speed, all of it from the greatest, a straight line
/// between.
pub open spec fn control_effectiveness(airspeed: int) -> int {
    clamp(
        scaled_div(sat(airspeed - MIN_EFFECTIVE_SPEED), MAX_EFFECTIVE_SPEED - MIN_EFFECTIVE_SPEED),
        0,
        SCALE as int,
    )
}

/// The angular velocity that stick and pedals command at `airspeed`: each
/// rate is the deflection times the full rate times the effectiveness of the
/// controls. Stick to the right rolls and right pedal yaws in the negative
/// sense.
pub open spec fn commanded_rates(stick: Joystick, yaw_input: int, airspeed: int) -> Vec3 {
    let e = control_effectiveness(airspeed);
    Vec3 {
        x: scaled_mul(scaled_mul(stick.0 as int, sat(-ROLL_RATE)), e) as i64,
        y: scaled_mul(scaled_mul(yaw_input, sat(-YAW_RATE)), e) as i64,
        z: scaled_mul(scaled_mul(stick.1 as int, PITCH_RATE as int), e) as i64,
    }
}

/// The share of the angular velocity that is left after `dt` seconds of
/// damping at `airspeed`: `1 - clamp(damping * dt, 0, 1)`, the damping being
/// the airspeed over 200 m/s, between 0.2 and 3.
pub open spec fn damping_factor(airspeed: int, dt: int) -> int {
    let damping = clamp(
        scaled_div(airspeed, DAMPING_SPEED as int),
        MIN_DAMPING as int,
        MAX_DAMPING as int,
    );
    SCALE - clamp(scaled_mul(damping, dt), 0, SCALE as int)
}

/// Computes [`control_effectiveness`].
pub fn effectiveness_at(airspeed: i64) -> (r: i64)
    ensures
        r == control_effectiveness(airspeed as int),
        0 <= r <= SCALE,
{
    fx_clamp(
        fx_div(fx_sub(airspeed, MIN_EFFECTIVE_SPEED), MAX_EFFECTIVE_SPEED - MIN_EFFECTIVE_SPEED),
        0,
        SCALE,
    )
}

/// Sets the angular velocity of an airborne body from the stick and the
/// pedals.
pub fn update_angular_projectile_velocity(
    joystick: &Joystick,
    left_pedal: KeyState,
    right_pedal: KeyState,
    velocity: &Vec3,
    ang_vel: &mut AngularVelocity,
)
    ensures
        final(ang_vel).0 == commanded_rates(
            *joystick,
            spec_pedal_input(left_pedal, right_pedal),
            velocity.spec_length(),
        ),
{
    let yaw_input: i64 = pedal_input(left_pedal, right_pedal);
    let e: i64 = effectiveness_at(velocity.length());
    ang_vel.0 = Vec3 {
        x: fx_mul(fx_mul(joystick.0, fx_neg(ROLL_RATE)), e),
        y: fx_mul(fx_mul(yaw_input, fx_neg(YAW_RATE)), e),
        z: fx_mul(fx_mul(joystick.1, PITCH_RATE), e),
    };
}

/// Damps the angular velocity of a body for a tick of `dt` seconds.
pub fn apply_angular_damping(dt: i64, velocity: &Vec3, ang_vel: &mut AngularVelocity)
    ensures
        final(ang_vel).0 == old(ang_vel).0.spec_scale(damping_factor(velocity.spec_length(), dt as int)),
{
    let airspeed: i64 = velocity.length();
    let damping: i64 = fx_clamp(fx_div(airspeed, DAMPING_SPEED), MIN_DAMPING, MAX_DAMPING);
    let factor: i64 = SCALE - fx_clamp(fx_mul(damping, dt), 0, SCALE);
    ang_vel.0 = ang_vel.0.scale(factor);
}

/// Damping never grows a rate and never turns it around: each component of
/// the damped angular velocity lies between zero and what it was.
pub proof fn law_damping_shrinks(rate: int, airspeed: int, dt: int)
    requires
        i64::MIN <= rate <= i64::MAX,
    ensures
        0 <= damping_factor(airspeed, dt) <= SCALE,
        magnitude(scaled_mul(rate, damping_factor(airspeed, dt))) <= magnitude(rate),
        rate >= 0 ==> scaled_mul(rate, damping_factor(airspeed, dt)) >= 0,
        rate <= 0 ==> scaled_mul(rate, damping_factor(airspeed, dt)) <= 0,
{
    let f = damping_factor(airspeed, dt);
    lemma_mul_div_shrinks(rate, f, SCALE as int);
    assert(rate >= 0 ==> rate * f >= 0) by (nonlinear_arith)
        requires
            f >= 0,
    ;
    assert(rate <= 0 ==> rate * f <= 0) by (nonlinear_arith)
        requires
            f >= 0,
    ;
    assert(magnitude(rate * f) / 1_000_000 >= 0);
}

/// The controls have no effect at and below the least effective speed and
/// their full effect from the greatest.
pub proof fn law_effectiveness_ends(airspeed: int)
    requires
        i64::MIN <= airspeed <= i64::MAX,
    ensures
        airspeed <= MIN_EFFECTIVE_SPEED ==> control_effectiveness(airspeed) == 0,
        airspeed >= MAX_EFFECTIVE_SPEED ==> control_effectiveness(airspeed) == SCALE,
        0 <= control_effectiveness(airspeed) <= SCALE,
{
    let d = sat(airspeed - MIN_EFFECTIVE_SPEED);
    if airspeed <= MIN_EFFECTIVE_SPEED {
        assert(d <= 0);
        assert(d * 1_000_000 <= 0);
        assert(trunc_div(d * 1_000_000, 280_000_000) <= 0);
    }
    if airspeed >= MAX_EFFECTIVE_SPEED {
        assert(d >= 280_000_000);
        assert(d * 1_000_000 >= 280_000_000 * 1_000_000);
        assert((d * 1_000_000) / 280_000_000 >= 1_000_000);
    }
}

} // verus!
