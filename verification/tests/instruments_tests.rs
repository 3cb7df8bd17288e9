use flight_core::fixed::SCALE;
use flight_core::instruments::{
    update_altimeter, update_clock, update_compass_gyro, update_speedometer, AltimeterAngles,
    Clock, ClockAngles, DEGREE, TAU, WHEEL_OFFSET,
};
use flight_core::rotation::Quat;
use flight_core::vector::Vec3;

const M: i64 = SCALE;

#[test]
fn altimeter_at_sea_level() {
    let a = update_altimeter(-156 * M);
    assert_eq!(
        a,
        AltimeterAngles { wheel_10k: WHEEL_OFFSET, wheel_1k: WHEEL_OFFSET, wheel_100: WHEEL_OFFSET, needle: 0 }
    );
}

#[test]
fn altimeter_turns_with_the_height() {
    // 3048 m are 10 000 ft: one turn of the needle
    let a = update_altimeter(3_048 * M - 156 * M);
    assert!((a.needle - TAU).abs() <= 10, "{}", a.needle);
    assert!((a.wheel_100 - (WHEEL_OFFSET - TAU)).abs() <= 10);
    assert!((a.wheel_1k - (WHEEL_OFFSET - TAU / 10)).abs() <= 10);
    assert!((a.wheel_10k - (WHEEL_OFFSET - TAU / 100)).abs() <= 10);
    let a = update_altimeter(0);
    // 156 m are 511.81104 ft
    assert_eq!(a.needle, 321_579);
    assert_eq!(a.wheel_100, WHEEL_OFFSET - 321_579);
    assert_eq!(a.wheel_1k, WHEEL_OFFSET - 32_157);
    assert_eq!(a.wheel_10k, WHEEL_OFFSET - 3_210);
}

#[test]
fn speedometer_scale() {
    let forward = Vec3::new(M, 0, 0);
    let at = |speed: i64| update_speedometer(&Vec3::new(-speed, 0, 0), &forward);
    assert_eq!(at(0), 0);
    assert_eq!(at(343 * M), 41 * DEGREE);
    assert_eq!(at(686 * M), 120 * DEGREE);
    assert_eq!(at(1_372 * M), 242 * DEGREE);
    assert_eq!(at(2_744 * M), 320 * DEGREE);
    // half of Mach 1, Mach 1.5 and Mach 3
    assert_eq!(at(171_500_000), 357_786);
    assert_eq!(at(514_500_000), 41 * DEGREE + 689_393);
    assert_eq!(at(1_029 * M), 120 * DEGREE + 61 * DEGREE);
    // what the velocity has across the forward axis plays no part
    assert_eq!(update_speedometer(&Vec3::new(343 * M, 500 * M, -90 * M), &forward), 41 * DEGREE);
}

#[test]
fn the_compass_undoes_the_turns_of_the_aircraft() {
    let level = update_compass_gyro(&Quat::identity());
    let unit = level.x as i128 * level.x as i128
        + level.y as i128 * level.y as i128
        + level.z as i128 * level.z as i128
        + level.w as i128 * level.w as i128;
    assert!((unit - 1_000_000_000_000).abs() < 20_000_000, "{unit}");
    // turning the aircraft and the compass by the same rotation leaves the
    // ball where it would stand in a level aircraft
    let turn = Quat::from_rotation_y(700_000);
    let inside = update_compass_gyro(&turn);
    let world = turn.then_after(&inside);
    for (a, b) in [(world.x, level.x), (world.y, level.y), (world.z, level.z), (world.w, level.w)] {
        assert!((a - b).abs() <= 10, "{world:?} {level:?}");
    }
}

#[test]
fn clock_hands() {
    let mut clock = Clock(0);
    let a = update_clock(0, &mut clock);
    assert_eq!(a, ClockAngles { hour: 0, minute: 0, second: 0 });
    // a quarter past three
    let a = update_clock((3 * 3_600 + 15 * 60) * M, &mut clock);
    assert_eq!(clock, Clock(11_700 * M));
    assert_eq!(a.second, 0);
    assert_eq!(a.minute, TAU / 4);
    // 3.25 / 12 of a turn
    assert_eq!(a.hour, 1_701_693);
    let a = update_clock(30 * M + M / 2, &mut clock);
    assert_eq!(a.second, 3_193_950);
    // the dial starts over after twelve hours
    let mut clock = Clock(43_199 * M);
    update_clock(2 * M, &mut clock);
    assert_eq!(clock, Clock(M));
    // and runs backward through twelve as well
    update_clock(-2 * M, &mut clock);
    assert_eq!(clock, Clock(43_199 * M));
    let mut clock = Clock(i64::MAX);
    update_clock(i64::MAX, &mut clock);
    assert!(0 <= clock.0 && clock.0 < 43_200 * M);
}
