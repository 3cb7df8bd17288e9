//! The instruments of the cockpit: the angles of their wheels and needles
//! for the state of the flight.
use crate::elementary::PI;
use crate::fixed::{
    fx_add, fx_div, fx_mul, fx_neg, fx_sub, sat, scaled_div, scaled_mul, SCALE,
};
use crate::rotation::Quat;
use crate::util::{altitude, spec_altitude};
use crate::vector::Vec3;
use vstd::prelude::*;

verus! {

/// Feet to one metre.
pub const FEET_PER_METRE: i64 = 3_280_840;

/// A full turn, in radians.
pub const TAU: i64 = 6_283_185;

/// Angle of the altimeter's wheels at sea level: 200 degrees, in radians.
pub const WHEEL_OFFSET: i64 = 3_490_659;

/// The speed that the speedometer takes for Mach 1, in m/s.
pub const SPEEDOMETER_MACH: i64 = 343_000_000;

/// One degree, in radians.
pub const DEGREE: i64 = 17_453;

/// The angles of the altimeter, in radians.
#[derive(Clone, Copy, Debug, PartialEq, Eq, Structural)]
pub struct AltimeterAngles {
    /// The wheel that turns once in 1 000 000 ft.
    pub wheel_10k: i64,
    /// The wheel that turns once in 100 000 ft.
    pub wheel_1k: i64,
    /// The wheel that turns once in 10 000 ft.
    pub wheel_100: i64,
    /// The needle, which turns once in 10 000 ft.
    pub needle: i64,
}

/// The time that a clock shows, in seconds since its hands stood at twelve.
#[derive(Clone, Copy, Debug, PartialEq, Eq, Structural)]
pub struct Clock(pub i64);

/// The angles of the hands of a clock, in radians.
#[derive(Clone, Copy, Debug, PartialEq, Eq, Structural)]
pub struct ClockAngles {
    pub hour: i64,
    pub minute: i64,
    pub second: i64,
}

/// Twelve hours, in seconds.
pub const HALF_DAY: i64 = 43_200_000_000;

/// The time after `dt` more seconds, on a dial of twelve hours.
pub open spec fn clock_after(seconds: int, dt: int) -> int {
    (seconds + dt) % (HALF_DAY as int)
}

/// The angle of a hand that turns once in `per_turn` seconds, for a time
/// that is not negative.
pub open spec fn hand_angle(seconds: int, per_turn: int) -> int {
    scaled_mul(TAU as int, scaled_div(seconds % per_turn, per_turn))
}

/// The angles of the three hands: the hour hand turns once in twelve hours,
/// the minute hand once in an hour, the second hand once in a minute.
pub open spec fn spec_clock_angles(seconds: int) -> ClockAngles {
    ClockAngles {
        hour: hand_angle(seconds, HALF_DAY as int) as i64,
        minute: hand_angle(seconds, 3_600 * SCALE) as i64,
        second: hand_angle(seconds, 60 * SCALE) as i64,
    }
}

/// Height above sea level, in feet, of the world height `y`.
pub open spec fn altitude_feet(y: int) -> int {
    scaled_mul(spec_altitude(y), FEET_PER_METRE as int)
}

/// The angle of a wheel that turns backward once in `feet_per_turn` and
/// stands at the wheel offset at sea level.
pub open spec fn wheel_angle(feet: int, feet_per_turn: int) -> int {
    sat(sat(-scaled_mul(scaled_div(feet, feet_per_turn), TAU as int)) + WHEEL_OFFSET)
}

/// The angles of the altimeter at the world height `y`.
pub open spec fn spec_altimeter_angles(y: int) -> AltimeterAngles {
    let feet = altitude_feet(y);
    AltimeterAngles {
        wheel_10k: wheel_angle(feet, 1_000_000 * SCALE) as i64,
        wheel_1k: wheel_angle(feet, 100_000 * SCALE) as i64,
        wheel_100: wheel_angle(feet, 10_000 * SCALE) as i64,
        needle: scaled_mul(scaled_div(feet, 10_000 * SCALE), TAU as int) as i64,
    }
}

/// A straight piece of the speedometer's scale: `start` degrees where the
/// piece begins, at Mach `from`, and `end` degrees after `width` more.
pub open spec fn scale_piece(mach: int, from: int, width: int, start: int, end: int) -> int {
    sat(
        scaled_mul(start, DEGREE as int) + scaled_mul(
            scaled_div(scaled_mul(sat(end - start), sat(mach - from)), width),
            DEGREE as int,
        ),
    )
}

/// The angle of the speedometer's needle, in radians, at a forward speed:
/// 41 degrees at Mach 1, 120 at Mach 2, 242 at Mach 4, 320 at Mach 8, and
/// straight between.
pub open spec fn spec_speedometer_angle(forward_speed: int) -> int {
    let mach = scaled_div(forward_speed, SPEEDOMETER_MACH as int);
    if mach <= SCALE {
        scale_piece(mach, 0, SCALE as int, 0, 41 * SCALE)
    } else if mach <= 2 * SCALE {
        scale_piece(mach, SCALE as int, SCALE as int, 41 * SCALE, 120 * SCALE)
    } else if mach <= 4 * SCALE {
        scale_piece(mach, 2 * SCALE, 2 * SCALE, 120 * SCALE, 242 * SCALE)
    } else {
        scale_piece(mach, 4 * SCALE, 4 * SCALE, 242 * SCALE, 320 * SCALE)
    }
}

/// The speed along the forward axis.
pub open spec fn spec_forward_speed(velocity: Vec3, forward: Vec3) -> int {
    velocity.spec_project_onto(forward).spec_length()
}

/// The orientation of the compass ball in the world: it points north
/// whatever the aircraft does.
pub open spec fn compass_target() -> Quat {
    Quat::spec_from_rotation_y(PI as int).spec_then_after(
        Quat::spec_from_axis_angle(Vec3 { x: SCALE, y: 0, z: 0 }, -1_570_796).spec_then_after(
            Quat::spec_from_rotation_y(PI as int),
        ).spec_then_after(Quat::spec_from_axis_angle(Vec3 { x: SCALE, y: 0, z: 0 }, PI as int)),
    )
}

/// The orientation of the compass ball inside an aircraft with the
/// orientation `parent`.
pub open spec fn spec_compass_rotation(parent: Quat) -> Quat {
    parent.spec_conjugate().spec_then_after(compass_target())
}

/// Computes [`wheel_angle`].
pub fn wheel_angle_at(feet: i64, feet_per_turn: i64) -> (r: i64)
    requires
        feet_per_turn != 0,
    ensures
        r == wheel_angle(feet as int, feet_per_turn as int),
{
    fx_add(fx_neg(fx_mul(fx_div(feet, feet_per_turn), TAU)), WHEEL_OFFSET)
}

/// The angles of the altimeter's wheels and needle at the world height `y`.
pub fn update_altimeter(y: i64) -> (r: AltimeterAngles)
    ensures
        r == spec_altimeter_angles(y as int),
{
    let feet: i64 = fx_mul(altitude(y), FEET_PER_METRE);
    AltimeterAngles {
        wheel_10k: wheel_angle_at(feet, 1_000_000 * SCALE),
        wheel_1k: wheel_angle_at(feet, 100_000 * SCALE),
        wheel_100: wheel_angle_at(feet, 10_000 * SCALE),
        needle: fx_mul(fx_div(feet, 10_000 * SCALE), TAU),
    }
}

/// Computes [`hand_angle`].
pub fn hand_angle_at(seconds: i64, per_turn: i64) -> (r: i64)
    requires
        seconds >= 0,
        per_turn > 0,
    ensures
        r == hand_angle(seconds as int, per_turn as int),
{
    fx_mul(TAU, fx_div(seconds % per_turn, per_turn))
}

/// Lets `dt` seconds go by on a clock and tells where its hands stand.
pub fn update_clock(dt: i64, clock: &mut Clock) -> (r: ClockAngles)
    ensures
        final(clock).0 == clock_after(old(clock).0 as int, dt as int),
        0 <= final(clock).0 < HALF_DAY,
        r == spec_clock_angles(final(clock).0 as int),
{
    let sum: i128 = clock.0 as i128 + dt as i128;
    let rest: i128 = sum % 43_200_000_000;
    let now: i128 = if rest < 0 {
        rest + 43_200_000_000
    } else {
        rest
    };
    assert(now == (sum as int) % 43_200_000_000);
    clock.0 = now as i64;
    ClockAngles {
        hour: hand_angle_at(clock.0, HALF_DAY),
        minute: hand_angle_at(clock.0, 3_600 * SCALE),
        second: hand_angle_at(clock.0, 60 * SCALE),
    }
}

/// Computes [`scale_piece`].
pub fn scale_piece_at(mach: i64, from: i64, width: i64, start: i64, end: i64) -> (r: i64)
    requires
        width != 0,
    ensures
        r == scale_piece(mach as int, from as int, width as int, start as int, end as int),
{
    fx_add(
        fx_mul(start, DEGREE),
        fx_mul(fx_div(fx_mul(fx_sub(end, start), fx_sub(mach, from)), width), DEGREE),
    )
}

/// The angle of the speedometer's needle for a velocity and the forward
/// axis of the aircraft.
pub fn update_speedometer(velocity: &Vec3, forward: &Vec3) -> (r: i64)
    ensures
        r == spec_speedometer_angle(spec_forward_speed(*velocity, *forward)),
{
    let forward_speed: i64 = velocity.project_onto(forward).length();
    let mach: i64 = fx_div(forward_speed, SPEEDOMETER_MACH);
    if mach <= SCALE {
        scale_piece_at(mach, 0, SCALE, 0, 41 * SCALE)
    } else if mach <= 2 * SCALE {
        scale_piece_at(mach, SCALE, SCALE, 41 * SCALE, 120 * SCALE)
    } else if mach <= 4 * SCALE {
        scale_piece_at(mach, 2 * SCALE, 2 * SCALE, 120 * SCALE, 242 * SCALE)
    } else {
        scale_piece_at(mach, 4 * SCALE, 4 * SCALE, 242 * SCALE, 320 * SCALE)
    }
}

/// The orientation of the compass ball inside an aircraft with the
/// orientation `parent`: the inverse of that orientation, then north.
pub fn update_compass_gyro(parent: &Quat) -> (r: Quat)
    ensures
        r == spec_compass_rotation(*parent),
{
    let x_axis = Vec3 { x: SCALE, y: 0, z: 0 };
    let offset_rot = Quat::from_axis_angle(&x_axis, -1_570_796).then_after(&Quat::from_rotation_y(PI)).then_after(
        &Quat::from_axis_angle(&x_axis, PI),
    );
    let target_rot = Quat::from_rotation_y(PI).then_after(&offset_rot);
    parent.conjugate().then_after(&target_rot)
}

} // verus!
