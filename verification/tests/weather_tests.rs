use flight_core::fixed::SCALE;
use flight_core::geogrid::GeoGrid;
use flight_core::util::{
    air_density, altitude, celsius_to_kelvin, get_lat, get_lon, speed_of_sound,
};
use flight_core::weather::{
    get_air, get_pressure, get_temperature, get_wind, pressure_model, temperature_model, wind_component,
    Pressure, Temperature, Wind, STRATOSPHERE_TEMPERATURE, TROPOPAUSE,
};

const M: i64 = SCALE;

fn units(x: i64) -> f64 {
    x as f64 / SCALE as f64
}

#[test]
fn conversions() {
    assert_eq!(altitude(0), 156 * M);
    assert_eq!(altitude(-156 * M), 0);
    assert_eq!(altitude(i64::MAX), i64::MAX);
    assert_eq!(get_lat(0), 48_123_000);
    assert_eq!(get_lat(111_320 * M), 49_123_000);
    assert_eq!(get_lat(-55_660 * M), 47_623_000);
    assert_eq!(get_lon(0), 7_873_000);
    assert_eq!(get_lon(74_309_853_250), 8_873_000);
    assert_eq!(celsius_to_kelvin(0), 273_150_000);
    assert_eq!(celsius_to_kelvin(-273_150_000), 0);
}

#[test]
fn density_and_speed_of_sound() {
    // 101325 / (287.05 * 288.15)
    assert_eq!(air_density(101_325 * M, 288_150_000), 1_225_012);
    assert_eq!(air_density(101_325 * M, 0), 0);
    assert_eq!(air_density(101_325 * M, -5), 0);
    assert_eq!(air_density(0, 288_150_000), 0);
    assert_eq!(speed_of_sound(288_150_000), 340_292_286);
    assert_eq!(speed_of_sound(0), 0);
    assert_eq!(speed_of_sound(-288_150_000), 0);
    assert!((units(speed_of_sound(216_650_000)) - (1.4f64 * 287.05 * 216.65).sqrt()).abs() < 1e-5);
}

#[test]
fn temperature_falls_with_the_lapse_rate() {
    assert_eq!(temperature_model(15 * M, 0), 288_150_000);
    assert_eq!(temperature_model(15 * M, 1_000 * M), 281_650_000);
    assert_eq!(temperature_model(30 * M, 2_000 * M), 290_150_000);
    assert_eq!(temperature_model(15 * M, -1_000 * M), 294_650_000);
}

#[test]
fn temperature_is_continuous_at_the_tropopause() {
    assert_eq!(temperature_model(15 * M, TROPOPAUSE), STRATOSPHERE_TEMPERATURE);
    assert_eq!(temperature_model(15 * M, TROPOPAUSE - 1), STRATOSPHERE_TEMPERATURE + 1);
    assert_eq!(temperature_model(15 * M, TROPOPAUSE - M), STRATOSPHERE_TEMPERATURE + 6_500);
    assert_eq!(temperature_model(15 * M, 20_000 * M), STRATOSPHERE_TEMPERATURE);
    // from the tropopause on the surface plays no part
    assert_eq!(temperature_model(30 * M, TROPOPAUSE), STRATOSPHERE_TEMPERATURE);
    assert_eq!(temperature_model(30 * M, TROPOPAUSE - 1), 231_650_001);
}

/// The pressure of the standard formulas, in floating point.
fn reference_pressure(p0: f64, h: f64, surface_k: f64, t: f64) -> f64 {
    let k = 9.80907 / (287.05 * 0.0065);
    if h < 11_000.0 {
        p0 * (1.0 - 0.0065 * h / surface_k).powf(k)
    } else {
        p0 * (1.0 - 0.0065 * 11_000.0 / surface_k).powf(k) * (-9.80907 * (h - 11_000.0) / (287.05 * t)).exp()
    }
}

#[test]
fn pressure_follows_the_barometric_formula() {
    let p0 = 101_325 * M;
    for surface_c in [-20, 0, 15, 30] {
        let surface_k = celsius_to_kelvin(surface_c * M);
        assert_eq!(pressure_model(p0, 0, surface_k, temperature_model(surface_c * M, 0)), p0);
        for h in [500, 1_000, 5_000, 10_999, 11_000, 15_000, 20_000, 50_000] {
            let t = temperature_model(surface_c * M, h * M);
            let want = reference_pressure(101_325.0, h as f64, units(surface_k), units(t));
            let got = units(pressure_model(p0, h * M, surface_k, t));
            assert!((got - want).abs() / want < 3e-4, "{surface_c} {h}: {got} {want}");
        }
    }
    // at 5000 m over a surface of 30 degrees the temperature is 270.65 K and
    // the pressure a little over 0.55 of the surface pressure
    let t = temperature_model(30 * M, 5_000 * M);
    assert_eq!(t, 270_650_000);
    let p = pressure_model(p0, 5_000 * M, 303_150_000, t);
    assert!((units(p) / 101_325.0 - 0.55092).abs() < 1e-4, "{p}");
    // below the tropopause the temperature at the height plays no part
    assert_eq!(pressure_model(p0, 5_000 * M, 303_150_000, 1), p);
    // a surface temperature of nothing is floored instead of dividing by zero
    assert_eq!(pressure_model(p0, 1_000 * M, 0, 0), 0);
    assert_eq!(pressure_model(p0, 0, 0, 0), p0);
}

#[test]
fn pressure_falls_with_the_height() {
    let p0 = 101_325 * M;
    for surface_c in [-20, 15, 30] {
        let surface_k = celsius_to_kelvin(surface_c * M);
        let mut last = p0 + 1;
        for h in (0..40_000).step_by(250) {
            let t = temperature_model(surface_c * M, h * M);
            let p = pressure_model(p0, h * M, surface_k, t);
            assert!(0 < p && p < last, "{surface_c} {h}: {p} {last}");
            last = p;
        }
    }
}

#[test]
fn pressure_is_continuous_at_the_tropopause() {
    for (p0, surface_c) in [(101_325 * M, 15 * M), (101_325 * M, 30 * M), (98_000 * M, -12_500_000), (1, 0)] {
        let surface_k = celsius_to_kelvin(surface_c);
        let at = pressure_model(p0, TROPOPAUSE, surface_k, temperature_model(surface_c, TROPOPAUSE));
        // the upper formula starts with what the lower one reaches
        let reached = pressure_model(p0, TROPOPAUSE - 1, surface_k, temperature_model(surface_c, TROPOPAUSE - 1));
        assert!((at - reached).abs() <= 2, "{at} {reached}");
        for d in [1, 10, 1_000, M] {
            let below = pressure_model(p0, TROPOPAUSE - d, surface_k, temperature_model(surface_c, TROPOPAUSE - d));
            let above = pressure_model(p0, TROPOPAUSE + d, surface_k, temperature_model(surface_c, TROPOPAUSE + d));
            // less than 5 Pa per metre on either side
            let bound = 5 * d + 2;
            assert!(at <= below && below - at <= bound, "{d}: {below} {at}");
            assert!(above <= at && at - above <= bound, "{d}: {above} {at}");
        }
    }
    assert_eq!(
        pressure_model(101_325 * M, TROPOPAUSE, 288_150_000, 216_650_000),
        22_623_339_375
    );
}

#[test]
fn wind_grows_with_height() {
    let (low, high) = (2 * M, 6 * M);
    assert_eq!(wind_component(low, high, 0), low);
    assert_eq!(wind_component(low, high, 10 * M), low);
    assert_eq!(wind_component(low, high, 55 * M), 4 * M);
    assert_eq!(wind_component(low, high, 100 * M), high);
    assert_eq!(wind_component(low, high, 2_000 * M), 6_600_000);
    assert_eq!(wind_component(low, high, 2_001 * M), 6_600_000);
    assert_eq!(wind_component(low, high, 90_000 * M), 6_600_000);
    let mid = wind_component(low, high, 447_214_000);
    // ln(4.47214) / ln(20) is one half
    assert!((mid - 6_300_000).abs() <= 2, "{mid}");
    assert_eq!(wind_component(-low, -high, 55 * M), -4 * M);
}

fn grid() -> GeoGrid {
    GeoGrid::new(vec![48 * M, 49 * M], vec![7 * M, 8 * M])
}

#[test]
fn sampled_weather() {
    let meta = grid();
    let temperature = Temperature(vec![10 * M, 10 * M, 20 * M, 20 * M]);
    let pressure = Pressure(vec![100_000 * M; 4]);
    // half way in latitude: 15 degrees at the surface
    assert_eq!(get_temperature(48_500_000, 7_500_000, 1_000 * M, &meta, &temperature), 281_650_000);
    assert_eq!(get_temperature(48_500_000, 7_500_000, 12_000 * M, &meta, &temperature), 216_650_000);
    assert_eq!(get_pressure(48_500_000, 7_500_000, 0, &meta, &pressure, &temperature, 288_150_000), 100_000 * M);
    // 15 degrees at the surface here: the standard atmosphere at 5000 m
    let t = get_temperature(48_500_000, 7_500_000, 5_000 * M, &meta, &temperature);
    let p = get_pressure(48_500_000, 7_500_000, 5_000 * M, &meta, &pressure, &temperature, t);
    let want = 100_000.0 * (1.0 - 0.0065 * 5_000.0 / 288.15f64).powf(9.80907 / (287.05 * 0.0065));
    assert!((units(p) - want).abs() < 0.5, "{p} {want}");
    assert_eq!(get_air(48_500_000, 7_500_000, 5_000 * M, &meta, &temperature, &pressure), (t, p));
    let wind = Wind(
        (vec![M, M, M, M], vec![2 * M, 2 * M, 2 * M, 2 * M]),
        (vec![3 * M, 3 * M, 3 * M, 3 * M], vec![-4 * M, -4 * M, -4 * M, -4 * M]),
    );
    assert_eq!(get_wind(48_500_000, 7_500_000, 5 * M, &meta, &wind), (M, 2 * M));
    assert_eq!(get_wind(48_500_000, 7_500_000, 100 * M, &meta, &wind), (3 * M, -4 * M));
    assert_eq!(get_wind(48_500_000, 7_500_000, 5_000 * M, &meta, &wind), (3_300_000, -4_400_000));
}

#[test]
fn missing_weather_falls_back_to_the_defaults() {
    let meta = grid();
    let nothing = Temperature(vec![]);
    assert_eq!(get_temperature(48 * M, 7 * M, 0, &meta, &nothing), 303_150_000);
    assert_eq!(get_pressure(48 * M, 7 * M, 0, &meta, &Pressure(vec![1, 2, 3]), &nothing, 288 * M), 101_325 * M);
    // without weather: 101325 Pa and 30 degrees at the surface
    let p = get_pressure(48 * M, 7 * M, 5_000 * M, &meta, &Pressure(vec![]), &nothing, 270_650_000);
    assert_eq!(p, pressure_model(101_325 * M, 5_000 * M, 303_150_000, 270_650_000));
    let short = GeoGrid::new(vec![48 * M], vec![7 * M, 8 * M]);
    assert_eq!(get_temperature(48 * M, 7 * M, 0, &short, &Temperature(vec![5 * M, 5 * M])), 303_150_000);
    let wind = Wind((vec![], vec![M; 4]), (vec![M; 3], vec![2 * M; 4]));
    assert_eq!(get_wind(48 * M, 7 * M, 100 * M, &meta, &wind), (0, 2 * M));
}
