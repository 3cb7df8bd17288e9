//! The atmosphere: temperature, pressure and wind at a point, from the
//! weather at the surface and the height above sea level.
use crate::elementary::{
    exp, fx_exp, fx_ln, fx_pow, law_exp_at_most_one, law_exp_never_negative, law_exp_of_zero,
    law_pow_of_fraction, ln, pow,
};
use crate::fixed::{
    fx_add, fx_div, fx_max, fx_mul, fx_neg, fx_sub, lemma_mul_div_cancel, lemma_mul_div_shrinks,
    lemma_mul_div_sign, lemma_mul_div_zero, max2, sat, scaled_div, scaled_mul, SCALE,
};
use crate::geogrid::{find, sample, GeoGrid};
use crate::util::{celsius_to_kelvin, spec_celsius_to_kelvin, GAS_CONSTANT, GRAVITY};
use vstd::prelude::*;

verus! {

/// The axes of the weather grid.
pub type WeatherMeta = GeoGrid;

/// Temperature two metres above the surface, in degrees Celsius, one value
/// per grid point.
#[derive(Debug)]
pub struct Temperature(pub Vec<i64>);

/// Pressure reduced to mean sea level, in pascal, one value per grid point.
#[derive(Debug)]
pub struct Pressure(pub Vec<i64>);

/// Eastward and northward wind, in m/s, one value per grid point: first at
/// 10 m, then at 100 m above the surface.
#[derive(Debug)]
pub struct Wind(pub (Vec<i64>, Vec<i64>), pub (Vec<i64>, Vec<i64>));

/// Surface temperature where the grid gives none: 30 degrees Celsius.
pub const DEFAULT_SURFACE_TEMP: i64 = 30_000_000;

/// Surface pressure where the grid gives none: 101325 Pa.
pub const DEFAULT_SURFACE_PRESSURE: i64 = 101_325_000_000;

/// Fall of the temperature with height in the troposphere, in K/m.
pub const LAPSE_RATE: i64 = 6_500;

/// Height of the tropopause, in metres.
pub const TROPOPAUSE: i64 = 11_000_000_000;

/// Temperature of the stratosphere, in kelvin.
pub const STRATOSPHERE_TEMPERATURE: i64 = 216_650_000;

/// Surface temperature of the standard atmosphere, in kelvin.
pub const STANDARD_SURFACE_TEMPERATURE: i64 = 288_150_000;

/// Exponent of the barometric formula, `g / (R * L)`.
pub const BAROMETRIC_EXPONENT: i64 = 5_257_229;

/// The natural logarithm of 20.
pub const LN_20: i64 = 2_995_732;

/// The value sampled from the grid, or `default` where the grid cannot be
/// sampled.
pub open spec fn sample_or(lat: int, lon: int, meta: GeoGrid, data: Seq<i64>, default: int) -> int {
    match sample(lat, lon, meta.lats@, meta.lons@, data) {
        Ok(v) => v as int,
        Err(_) => default,
    }
}

/// Temperature in the troposphere: it falls by the lapse rate from the
/// surface.
pub open spec fn troposphere_temperature(surface_k: int, altitude: int) -> int {
    sat(surface_k - scaled_mul(LAPSE_RATE as int, altitude))
}

/// Temperature, in kelvin, at `altitude` over a surface of `surface_c`
/// degrees Celsius: the lapse rate below the tropopause, the constant
/// temperature of the stratosphere from there on.
pub open spec fn temperature_at(surface_c: int, altitude: int) -> int {
    if altitude < TROPOPAUSE {
        troposphere_temperature(spec_celsius_to_kelvin(surface_c), altitude)
    } else {
        STRATOSPHERE_TEMPERATURE as int
    }
}

/// `1 - L * h / T0`, the base of the barometric formula, with `T0` the
/// temperature at the surface in kelvin, floored to one millionth.
pub open spec fn lapse_base(altitude: int, surface_k: int) -> int {
    sat(SCALE - scaled_div(scaled_mul(LAPSE_RATE as int, altitude), max2(surface_k, 1)))
}

/// Pressure in the troposphere: `p0 * (1 - L * h / T0)^(g / (R * L))`, with
/// `p0` the pressure and `T0` the temperature, in kelvin, at the surface.
pub open spec fn troposphere_pressure(surface_pressure: int, altitude: int, surface_k: int) -> int {
    scaled_mul(surface_pressure, pow(lapse_base(altitude, surface_k), BAROMETRIC_EXPONENT as int))
}

/// Pressure at the tropopause: what the barometric formula gives there over
/// the same surface.
pub open spec fn tropopause_pressure(surface_pressure: int, surface_k: int) -> int {
    troposphere_pressure(surface_pressure, TROPOPAUSE as int, surface_k)
}

/// `-g * (h - 11000) / (R * T)`, the exponent of the isothermal formula, with
/// `T` the temperature at the height; the denominator is floored to one
/// millionth.
pub open spec fn isothermal_exponent(altitude: int, temperature: int) -> int {
    scaled_div(
        scaled_mul(sat(-GRAVITY), sat(altitude - TROPOPAUSE)),
        max2(scaled_mul(GAS_CONSTANT as int, temperature), 1),
    )
}

/// Pressure in the stratosphere: the pressure at the tropopause over the
/// same surface, times `exp(-g * (h - 11000) / (R * T))`.
pub open spec fn stratosphere_pressure(
    surface_pressure: int,
    altitude: int,
    surface_k: int,
    temperature: int,
) -> int {
    scaled_mul(
        tropopause_pressure(surface_pressure, surface_k),
        exp(isothermal_exponent(altitude, temperature)),
    )
}

/// Pressure, in pascal, at `altitude` over a surface with the pressure
/// `surface_pressure` and the temperature `surface_k`, in kelvin: the
/// barometric formula below the tropopause, and from there on the
/// isothermal formula with `temperature`, the temperature at the height.
pub open spec fn pressure_at(surface_pressure: int, altitude: int, surface_k: int, temperature: int) -> int {
    if altitude < TROPOPAUSE {
        troposphere_pressure(surface_pressure, altitude, surface_k)
    } else {
        stratosphere_pressure(surface_pressure, altitude, surface_k, temperature)
    }
}

/// Temperature, in kelvin, and pressure, in pascal, at `altitude` over a
/// surface of `surface_c` degrees Celsius with the pressure
/// `surface_pressure`.
pub open spec fn air_over(surface_pressure: int, surface_c: int, altitude: int) -> (int, int) {
    let t = temperature_at(surface_c, altitude);
    (t, pressure_at(surface_pressure, altitude, spec_celsius_to_kelvin(surface_c), t))
}

/// One component of the wind at `altitude`, from its values at 10 m and at
/// 100 m: the lower value up to 10 m, a straight line between the two up to
/// 100 m, a logarithmic growth to 1.1 times the upper value at 2000 m, and
/// that from there on.
pub open spec fn wind_component_at(low: int, high: int, altitude: int) -> int {
    if altitude <= 10 * SCALE {
        low
    } else if altitude <= 100 * SCALE {
        let t = scaled_div(sat(altitude - 10 * SCALE), 90 * SCALE);
        sat(low + scaled_mul(t, sat(high - low)))
    } else if altitude <= 2000 * SCALE {
        let scale = scaled_div(ln(scaled_div(altitude, 100 * SCALE)), LN_20 as int);
        scaled_mul(high, sat(SCALE + scaled_mul(100_000, scale)))
    } else {
        scaled_mul(high, 1_100_000)
    }
}

/// Computes [`temperature_at`].
pub fn temperature_model(surface_c: i64, altitude: i64) -> (r: i64)
    ensures
        r == temperature_at(surface_c as int, altitude as int),
{
    if altitude < TROPOPAUSE {
        fx_sub(celsius_to_kelvin(surface_c), fx_mul(LAPSE_RATE, altitude))
    } else {
        STRATOSPHERE_TEMPERATURE
    }
}

/// Computes [`lapse_base`].
pub fn lapse_base_of(altitude: i64, surface_k: i64) -> (r: i64)
    ensures
        r == lapse_base(altitude as int, surface_k as int),
{
    fx_sub(SCALE, fx_div(fx_mul(LAPSE_RATE, altitude), fx_max(surface_k, 1)))
}

/// Computes [`pressure_at`].
pub fn pressure_model(surface_pressure: i64, altitude: i64, surface_k: i64, temperature: i64) -> (r: i64)
    ensures
        r == pressure_at(
            surface_pressure as int,
            altitude as int,
            surface_k as int,
            temperature as int,
        ),
{
    if altitude < TROPOPAUSE {
        fx_mul(surface_pressure, fx_pow(lapse_base_of(altitude, surface_k), BAROMETRIC_EXPONENT))
    } else {
        let at_tropopause: i64 = fx_mul(
            surface_pressure,
            fx_pow(lapse_base_of(TROPOPAUSE, surface_k), BAROMETRIC_EXPONENT),
        );
        let exponent: i64 = fx_div(
            fx_mul(fx_neg(GRAVITY), fx_sub(altitude, TROPOPAUSE)),
            fx_max(fx_mul(GAS_CONSTANT, temperature), 1),
        );
        fx_mul(at_tropopause, fx_exp(exponent))
    }
}

/// Computes [`wind_component_at`].
pub fn wind_component(low: i64, high: i64, altitude: i64) -> (r: i64)
    ensures
        r == wind_component_at(low as int, high as int, altitude as int),
{
    if altitude <= 10 * SCALE {
        low
    } else if altitude <= 100 * SCALE {
        let t: i64 = fx_div(fx_sub(altitude, 10 * SCALE), 90 * SCALE);
        fx_add(low, fx_mul(t, fx_sub(high, low)))
    } else if altitude <= 2000 * SCALE {
        let scale: i64 = fx_div(fx_ln(fx_div(altitude, 100 * SCALE)), LN_20);
        fx_mul(high, fx_add(SCALE, fx_mul(100_000, scale)))
    } else {
        fx_mul(high, 1_100_000)
    }
}

/// Samples `data`, or gives `default` where the grid cannot be sampled.
pub fn find_or(lat: i64, lon: i64, meta: &GeoGrid, data: &Vec<i64>, default: i64) -> (r: i64)
    requires
        meta.wf(),
    ensures
        r == sample_or(lat as int, lon as int, *meta, data@, default as int),
{
    match find(lat, lon, meta, data) {
        Ok(v) => v,
        Err(_) => default,
    }
}

/// Temperature, in kelvin, at a point: the surface temperature sampled from
/// the grid, 30 degrees Celsius where the grid gives none, taken up to
/// `altitude` by [`temperature_at`].
pub fn get_temperature(lat: i64, lon: i64, altitude: i64, meta: &WeatherMeta, temperature: &Temperature) -> (r: i64)
    requires
        meta.wf(),
    ensures
        r == temperature_at(
            sample_or(lat as int, lon as int, *meta, temperature.0@, DEFAULT_SURFACE_TEMP as int),
            altitude as int,
        ),
{
    temperature_model(find_or(lat, lon, meta, &temperature.0, DEFAULT_SURFACE_TEMP), altitude)
}

/// Pressure, in pascal, at a point: the pressure and the temperature at the
/// surface sampled from the grid, 101325 Pa and 30 degrees Celsius where the
/// grid gives none, taken up to `altitude` by [`pressure_at`]. `temperature`
/// is the temperature at the height, in kelvin.
pub fn get_pressure(
    lat: i64,
    lon: i64,
    altitude: i64,
    meta: &WeatherMeta,
    pressure: &Pressure,
    surface_temperature: &Temperature,
    temperature: i64,
) -> (r: i64)
    requires
        meta.wf(),
    ensures
        r == pressure_at(
            sample_or(lat as int, lon as int, *meta, pressure.0@, DEFAULT_SURFACE_PRESSURE as int),
            altitude as int,
            spec_celsius_to_kelvin(
                sample_or(
                    lat as int,
                    lon as int,
                    *meta,
                    surface_temperature.0@,
                    DEFAULT_SURFACE_TEMP as int,
                ),
            ),
            temperature as int,
        ),
{
    let surface_k: i64 = celsius_to_kelvin(
        find_or(lat, lon, meta, &surface_temperature.0, DEFAULT_SURFACE_TEMP),
    );
    pressure_model(
        find_or(lat, lon, meta, &pressure.0, DEFAULT_SURFACE_PRESSURE),
        altitude,
        surface_k,
        temperature,
    )
}

/// Temperature, in kelvin, and pressure, in pascal, at a point: the air over
/// the surface weather sampled from the grid, by [`air_over`].
pub fn get_air(
    lat: i64,
    lon: i64,
    altitude: i64,
    meta: &WeatherMeta,
    temperature: &Temperature,
    pressure: &Pressure,
) -> (r: (i64, i64))
    requires
        meta.wf(),
    ensures
        (r.0 as int, r.1 as int) == air_over(
            sample_or(lat as int, lon as int, *meta, pressure.0@, DEFAULT_SURFACE_PRESSURE as int),
            sample_or(lat as int, lon as int, *meta, temperature.0@, DEFAULT_SURFACE_TEMP as int),
            altitude as int,
        ),
{
    let t: i64 = get_temperature(lat, lon, altitude, meta, temperature);
    let p: i64 = get_pressure(lat, lon, altitude, meta, pressure, temperature, t);
    (t, p)
}

/// Eastward and northward wind, in m/s, at a point: each component sampled
/// at 10 m and at 100 m, still air where the grid gives none, and taken to
/// `altitude` by [`wind_component_at`].
pub fn get_wind(lat: i64, lon: i64, altitude: i64, meta: &WeatherMeta, wind: &Wind) -> (r: (i64, i64))
    requires
        meta.wf(),
    ensures
        r.0 == wind_component_at(
            sample_or(lat as int, lon as int, *meta, wind.0.0@, 0),
            sample_or(lat as int, lon as int, *meta, wind.1.0@, 0),
            altitude as int,
        ),
        r.1 == wind_component_at(
            sample_or(lat as int, lon as int, *meta, wind.0.1@, 0),
            sample_or(lat as int, lon as int, *meta, wind.1.1@, 0),
            altitude as int,
        ),
{
    let u10: i64 = find_or(lat, lon, meta, &wind.0.0, 0);
    let v10: i64 = find_or(lat, lon, meta, &wind.0.1, 0);
    let u100: i64 = find_or(lat, lon, meta, &wind.1.0, 0);
    let v100: i64 = find_or(lat, lon, meta, &wind.1.1, 0);
    (wind_component(u10, u100, altitude), wind_component(v10, v100, altitude))
}

/// The pressure has no jump at the tropopause: over every surface, whatever
/// its pressure and its temperature, and whatever the temperature at the
/// height, the isothermal formula starts at the tropopause with exactly the
/// pressure that the barometric formula reaches there.
pub proof fn law_pressure_continuous_at_tropopause(
    surface_pressure: int,
    surface_c: int,
    temperature: int,
)
    ensures
        pressure_at(
            surface_pressure,
            TROPOPAUSE as int,
            spec_celsius_to_kelvin(surface_c),
            temperature,
        ) == troposphere_pressure(
            surface_pressure,
            TROPOPAUSE as int,
            spec_celsius_to_kelvin(surface_c),
        ),
        air_over(surface_pressure, surface_c, TROPOPAUSE as int).1 == troposphere_pressure(
            surface_pressure,
            TROPOPAUSE as int,
            spec_celsius_to_kelvin(surface_c),
        ),
{
    lemma_exponent_at_tropopause(temperature);
    lemma_exponent_at_tropopause(temperature_at(surface_c, TROPOPAUSE as int));
    law_exp_of_zero();
    lemma_mul_div_cancel(
        tropopause_pressure(surface_pressure, spec_celsius_to_kelvin(surface_c)),
        SCALE as int,
    );
}

/// At the tropopause the exponent of the isothermal formula is zero.
pub proof fn lemma_exponent_at_tropopause(temperature: int)
    ensures
        isothermal_exponent(TROPOPAUSE as int, temperature) == 0,
{
    lemma_mul_div_zero(sat(-GRAVITY), SCALE as int);
    let rt = max2(scaled_mul(GAS_CONSTANT as int, temperature), 1);
    lemma_mul_div_zero(SCALE as int, rt);
}

/// The temperature has no jump at the tropopause over a surface at the
/// standard 15 degrees Celsius: there the temperature of the troposphere
/// reaches the temperature of the stratosphere exactly at the tropopause,
/// and below it differs from it by no more than the lapse over the
/// remaining height, plus one millionth for rounding.
pub proof fn law_temperature_continuous_at_tropopause(below: int)
    requires
        0 <= below < TROPOPAUSE,
    ensures
        troposphere_temperature(STANDARD_SURFACE_TEMPERATURE as int, TROPOPAUSE as int)
            == STRATOSPHERE_TEMPERATURE,
        temperature_at(15 * SCALE, TROPOPAUSE as int) == STRATOSPHERE_TEMPERATURE,
        0 <= temperature_at(15 * SCALE, below) - temperature_at(15 * SCALE, TROPOPAUSE as int)
            <= scaled_mul(LAPSE_RATE as int, TROPOPAUSE - below) + 1,
{
    assert(6_500 * 11_000_000_000 == 71_500_000 * 1_000_000);
    lemma_mul_div_cancel(71_500_000, SCALE as int);
    assert(LAPSE_RATE * below >= 0) by (nonlinear_arith)
        requires
            below >= 0,
            LAPSE_RATE == 6_500,
    ;
    assert(LAPSE_RATE * (TROPOPAUSE - below) >= 0) by (nonlinear_arith)
        requires
            below < TROPOPAUSE,
            LAPSE_RATE == 6_500,
    ;
}

/// The pressure is never negative over a surface whose pressure is not.
pub proof fn law_pressure_never_negative(
    surface_pressure: int,
    altitude: int,
    surface_k: int,
    temperature: int,
)
    requires
        0 <= surface_pressure <= i64::MAX,
    ensures
        pressure_at(surface_pressure, altitude, surface_k, temperature) >= 0,
{
    let base = lapse_base(altitude, surface_k);
    law_exp_never_negative(
        isothermal_exponent(altitude, temperature),
        base,
        BAROMETRIC_EXPONENT as int,
    );
    law_exp_never_negative(0, lapse_base(TROPOPAUSE as int, surface_k), BAROMETRIC_EXPONENT as int);
    lemma_mul_div_sign(surface_pressure, pow(base, BAROMETRIC_EXPONENT as int), SCALE as int);
    let anchor = pow(lapse_base(TROPOPAUSE as int, surface_k), BAROMETRIC_EXPONENT as int);
    lemma_mul_div_sign(surface_pressure, anchor, SCALE as int);
    lemma_mul_div_sign(
        tropopause_pressure(surface_pressure, surface_k),
        exp(isothermal_exponent(altitude, temperature)),
        SCALE as int,
    );
}

/// From the tropopause on the pressure never exceeds the pressure at the
/// tropopause, over a surface whose pressure is not negative: whatever the
/// temperature at the height, the isothermal formula only takes away.
pub proof fn law_pressure_falls_from_tropopause(
    surface_pressure: int,
    altitude: int,
    surface_k: int,
    temperature: int,
)
    requires
        0 <= surface_pressure <= i64::MAX,
        altitude >= TROPOPAUSE,
    ensures
        0 <= pressure_at(surface_pressure, altitude, surface_k, temperature) <= troposphere_pressure(
            surface_pressure,
            TROPOPAUSE as int,
            surface_k,
        ),
{
    law_pressure_never_negative(surface_pressure, altitude, surface_k, temperature);
    law_pressure_never_negative(surface_pressure, TROPOPAUSE - 1, surface_k, temperature);
    let anchor = tropopause_pressure(surface_pressure, surface_k);
    law_exp_never_negative(0, lapse_base(TROPOPAUSE as int, surface_k), BAROMETRIC_EXPONENT as int);
    lemma_mul_div_sign(
        surface_pressure,
        pow(lapse_base(TROPOPAUSE as int, surface_k), BAROMETRIC_EXPONENT as int),
        SCALE as int,
    );
    assert(anchor >= 0);
    let fall = scaled_mul(sat(-GRAVITY), sat(altitude - TROPOPAUSE));
    lemma_mul_div_sign(sat(-GRAVITY), sat(altitude - TROPOPAUSE), SCALE as int);
    let rt = max2(scaled_mul(GAS_CONSTANT as int, temperature), 1);
    lemma_mul_div_sign(fall, SCALE as int, rt);
    let exponent = isothermal_exponent(altitude, temperature);
    assert(exponent <= 0);
    law_exp_at_most_one(exponent);
    lemma_mul_div_shrinks(anchor, exp(exponent), SCALE as int);
}

/// In the troposphere, at and above the surface, the pressure lies between
/// nothing and the pressure at the surface.
pub proof fn lemma_troposphere_pressure_bounds(surface_pressure: int, altitude: int, surface_k: int)
    requires
        0 <= surface_pressure <= i64::MAX,
        altitude >= 0,
    ensures
        0 <= troposphere_pressure(surface_pressure, altitude, surface_k) <= surface_pressure,
{
    let lapse = scaled_mul(LAPSE_RATE as int, altitude);
    lemma_mul_div_sign(LAPSE_RATE as int, altitude, SCALE as int);
    lemma_mul_div_sign(lapse, SCALE as int, max2(surface_k, 1));
    let base = lapse_base(altitude, surface_k);
    assert(base <= SCALE);
    law_pow_of_fraction(base, BAROMETRIC_EXPONENT as int);
    lemma_mul_div_shrinks(surface_pressure, pow(base, BAROMETRIC_EXPONENT as int), SCALE as int);
}

/// At and above the surface the pressure lies between nothing and the
/// pressure at the surface, which is not negative: the air gets no denser
/// than it is on the ground.
pub proof fn law_pressure_at_most_surface(
    surface_pressure: int,
    altitude: int,
    surface_k: int,
    temperature: int,
)
    requires
        0 <= surface_pressure <= i64::MAX,
        altitude >= 0,
    ensures
        0 <= pressure_at(surface_pressure, altitude, surface_k, temperature) <= surface_pressure,
{
    lemma_troposphere_pressure_bounds(surface_pressure, altitude, surface_k);
    if altitude >= TROPOPAUSE {
        lemma_troposphere_pressure_bounds(surface_pressure, TROPOPAUSE as int, surface_k);
        law_pressure_falls_from_tropopause(surface_pressure, altitude, surface_k, temperature);
    }
}

} // verus!
