//! Constants of the flight model and conversions between the world frame and
//! geographic coordinates.
use crate::fixed::{
    fx_add, fx_div, fx_mul, fx_sqrt, sat, scaled_div, scaled_mul, scaled_sqrt,
};
use vstd::prelude::*;

verus! {

/// Acceleration of gravity, in m/s^2.
pub const GRAVITY: i64 = 9_809_070;

/// Specific gas constant of dry air, in J/(kg K).
pub const GAS_CONSTANT: i64 = 287_050_000;

/// Ratio of the specific heats of air.
pub const HEAT_CAPACITY_RATIO: i64 = 1_400_000;

/// Height of the world frame's origin above sea level, in metres.
pub const ORIGIN_ALTITUDE: i64 = 156_000_000;

/// Latitude of the world frame's origin, in degrees.
pub const ORIGIN_LAT: i64 = 48_123_000;

/// Longitude of the world frame's origin, in degrees.
pub const ORIGIN_LON: i64 = 7_873_000;

/// Metres to one degree of latitude.
pub const METRES_PER_DEGREE_LAT: i64 = 111_320_000_000;

/// Metres to one degree of longitude at the latitude of the origin.
pub const METRES_PER_DEGREE_LON: i64 = 74_309_853_250;

/// 0 degrees Celsius, in kelvin.
pub const KELVIN_OFFSET: i64 = 273_150_000;

/// Height above sea level of the world height `y`.
pub open spec fn spec_altitude(y: int) -> int {
    sat(y + ORIGIN_ALTITUDE)
}

/// Latitude, in degrees, of the world coordinate `x`.
pub open spec fn spec_lat(x: int) -> int {
    sat(ORIGIN_LAT + scaled_div(x, METRES_PER_DEGREE_LAT as int))
}

/// Longitude, in degrees, of the world coordinate `z`.
pub open spec fn spec_lon(z: int) -> int {
    sat(ORIGIN_LON + scaled_div(z, METRES_PER_DEGREE_LON as int))
}

/// Density of air by the ideal gas law, `pressure / (R * temperature)`, in
/// kg/m^3; zero where `R * temperature` is not positive.
pub open spec fn spec_air_density(air_pressure: int, temperature: int) -> int {
    let rt = scaled_mul(GAS_CONSTANT as int, temperature);
    if rt <= 0 {
        0
    } else {
        scaled_div(air_pressure, rt)
    }
}

/// Speed of sound, `sqrt(1.4 * R * temperature)`, in m/s.
pub open spec fn spec_speed_of_sound(temperature: int) -> int {
    scaled_sqrt(scaled_mul(scaled_mul(HEAT_CAPACITY_RATIO as int, GAS_CONSTANT as int), temperature))
}

pub open spec fn spec_celsius_to_kelvin(temp_c: int) -> int {
    sat(temp_c + KELVIN_OFFSET)
}

pub fn altitude(y: i64) -> (r: i64)
    ensures
        r == spec_altitude(y as int),
{
    fx_add(y, ORIGIN_ALTITUDE)
}

pub fn get_lat(x: i64) -> (r: i64)
    ensures
        r == spec_lat(x as int),
{
    fx_add(ORIGIN_LAT, fx_div(x, METRES_PER_DEGREE_LAT))
}

pub fn get_lon(z: i64) -> (r: i64)
    ensures
        r == spec_lon(z as int),
{
    fx_add(ORIGIN_LON, fx_div(z, METRES_PER_DEGREE_LON))
}

pub fn air_density(air_pressure: i64, temperature: i64) -> (r: i64)
    ensures
        r == spec_air_density(air_pressure as int, temperature as int),
{
    let rt: i64 = fx_mul(GAS_CONSTANT, temperature);
    if rt <= 0 {
        0
    } else {
        fx_div(air_pressure, rt)
    }
}

pub fn speed_of_sound(temperature: i64) -> (r: i64)
    ensures
        r == spec_speed_of_sound(temperature as int),
        r >= 0,
{
    fx_sqrt(fx_mul(fx_mul(HEAT_CAPACITY_RATIO, GAS_CONSTANT), temperature))
}

pub fn celsius_to_kelvin(temp_c: i64) -> (r: i64)
    ensures
        r == spec_celsius_to_kelvin(temp_c as int),
{
    fx_add(temp_c, KELVIN_OFFSET)
}

} // verus!
