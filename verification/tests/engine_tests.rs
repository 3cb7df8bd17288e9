use flight_core::engine::{update_engine_thrust, Engine};
use flight_core::fixed::SCALE;
use flight_core::rotation::{Quat, Transform};
use flight_core::vector::Vec3;

#[test]
fn full_throttle_from_cold_reaches_maximal_thrust_at_the_end_of_the_ramp() {
    let mut e = Engine::cf104();
    assert_eq!(e.elapsed, 0);
    assert_eq!(e.current_thrust, 0);
    let dt = SCALE / 10;
    let mut last = 0;
    for tick in 1..=50 {
        update_engine_thrust(dt, SCALE, &mut e);
        assert_eq!(e.elapsed, tick * dt);
        // max_thrust * elapsed / ramp_time
        assert_eq!(e.current_thrust, 880_000_000 * tick);
        assert!(e.current_thrust > last);
        last = e.current_thrust;
    }
    assert_eq!(e.elapsed, e.ramp_time);
    assert_eq!(e.current_thrust, e.max_thrust);
    update_engine_thrust(dt, SCALE, &mut e);
    assert_eq!(e.elapsed, e.ramp_time);
    assert_eq!(e.current_thrust, e.max_thrust);
}

#[test]
fn thrust_follows_the_throttle() {
    let mut e = Engine::cf104();
    e.elapsed = e.ramp_time;
    update_engine_thrust(0, SCALE / 4, &mut e);
    assert_eq!(e.current_thrust, 11_000_000_000);
    let mut e = Engine::cf104();
    update_engine_thrust(2 * SCALE, SCALE / 2, &mut e);
    // half throttle, two fifths of the ramp
    assert_eq!(e.current_thrust, 8_800_000_000);
}

#[test]
fn a_closed_throttle_spools_down_twice_as_fast() {
    let mut e = Engine::cf104();
    e.elapsed = 3 * SCALE;
    update_engine_thrust(SCALE, 500, &mut e);
    assert_eq!(e.elapsed, SCALE);
    assert_eq!(e.current_thrust, 4_400_000);
    update_engine_thrust(SCALE, 0, &mut e);
    assert_eq!(e.elapsed, 0);
    assert_eq!(e.current_thrust, 0);
    update_engine_thrust(SCALE, 501, &mut e);
    assert_eq!(e.elapsed, SCALE);
}

#[test]
fn an_engine_without_a_ramp_is_always_spooled_up() {
    let mut e = Engine::cf104();
    e.ramp_time = 0;
    update_engine_thrust(SCALE, SCALE, &mut e);
    assert_eq!(e.elapsed, 0);
    assert_eq!(e.current_thrust, e.max_thrust);
}

#[test]
fn thrust_points_against_the_x_axis_of_the_body() {
    let mut e = Engine::cf104();
    e.current_thrust = 1_000 * SCALE;
    let level = Transform { translation: Vec3::zero(), rotation: Quat::identity() };
    assert_eq!(e.thrust_vector(&level), Vec3::new(-1_000 * SCALE, 0, 0));
    let turned = Transform {
        translation: Vec3::zero(),
        rotation: Quat { x: 0, y: SCALE, z: 0, w: 0 },
    };
    assert_eq!(e.thrust_vector(&turned), Vec3::new(1_000 * SCALE, 0, 0));
}
