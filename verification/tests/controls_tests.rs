use flight_core::control_surfaces::{
    apply_angular_damping, effectiveness_at, update_angular_projectile_velocity, AngularVelocity,
};
use flight_core::controls::{
    joystick_controller, pedal_input, throttle_controller, ArmBinding, Joystick, KeyBinding,
    KeyBindings, KeyState, Throttle,
};
use flight_core::fixed::SCALE;
use flight_core::vector::Vec3;

const M: i64 = SCALE;

fn arm() -> ArmBinding {
    ArmBinding {
        up: KeyBinding::new(1),
        down: KeyBinding::new(2),
        left: KeyBinding::new(3),
        right: KeyBinding::new(4),
        alt_1: KeyBinding::new(5),
        alt_2: KeyBinding::new(1),
    }
}

#[test]
fn a_key_goes_through_its_states() {
    let mut a = arm();
    assert_eq!(a.up.state, KeyState::Idle);
    a.pressed(3);
    assert_eq!(a.left.state, KeyState::Pressed);
    assert_eq!(a.right.state, KeyState::Idle);
    a.update();
    assert_eq!(a.left.state, KeyState::Held);
    a.update();
    assert_eq!(a.left.state, KeyState::Held);
    a.released(3);
    assert_eq!(a.left.state, KeyState::Released);
    a.update();
    assert_eq!(a.left.state, KeyState::Idle);
    a.update();
    assert_eq!(a, arm());
}

#[test]
fn a_key_bound_twice_moves_both_bindings() {
    let mut a = arm();
    a.pressed(1);
    assert_eq!(a.up.state, KeyState::Pressed);
    assert_eq!(a.alt_2.state, KeyState::Pressed);
    assert_eq!(a.down.state, KeyState::Idle);
    a.pressed(99);
    a.released(98);
    assert_eq!(a.alt_1.state, KeyState::Idle);
    a.released(1);
    assert_eq!((a.up.state, a.alt_2.state), (KeyState::Released, KeyState::Released));
}

#[test]
fn keys_that_are_down() {
    assert!(KeyState::Pressed.is_down());
    assert!(KeyState::Held.is_down());
    assert!(!KeyState::Released.is_down());
    assert!(!KeyState::Idle.is_down());
    assert_eq!(KeyState::Pressed.next(), KeyState::Held);
    assert_eq!(KeyState::Released.next(), KeyState::Idle);
    assert_eq!(KeyBinding::new(7).with(7, KeyState::Held).state, KeyState::Held);
    assert_eq!(KeyBinding::new(7).with(8, KeyState::Held).state, KeyState::Idle);
}

#[test]
fn pedals() {
    assert_eq!(pedal_input(KeyState::Held, KeyState::Idle), -M);
    assert_eq!(pedal_input(KeyState::Pressed, KeyState::Released), -M);
    assert_eq!(pedal_input(KeyState::Idle, KeyState::Held), M);
    assert_eq!(pedal_input(KeyState::Released, KeyState::Pressed), M);
    assert_eq!(pedal_input(KeyState::Held, KeyState::Held), 0);
    assert_eq!(pedal_input(KeyState::Idle, KeyState::Released), 0);
    assert_eq!(Throttle::default(), Throttle(0));
    assert_eq!(Joystick::default(), Joystick(0, 0));
}

#[test]
fn controls_gain_their_effect_with_the_airspeed() {
    assert_eq!(effectiveness_at(0), 0);
    assert_eq!(effectiveness_at(20 * M), 0);
    assert_eq!(effectiveness_at(90 * M), 250_000);
    assert_eq!(effectiveness_at(160 * M), 500_000);
    assert_eq!(effectiveness_at(300 * M), M);
    assert_eq!(effectiveness_at(900 * M), M);
    assert_eq!(effectiveness_at(i64::MAX), M);
    assert_eq!(effectiveness_at(i64::MIN), 0);
}

#[test]
fn stick_and_pedals_command_the_rates() {
    let mut w = AngularVelocity(Vec3::new(1, 2, 3));
    let fast = Vec3::new(-300 * M, 0, 0);
    update_angular_projectile_velocity(&Joystick(M, M), KeyState::Idle, KeyState::Held, &fast, &mut w);
    assert_eq!(w.0, Vec3::new(-2 * M, -100_000, M));
    update_angular_projectile_velocity(&Joystick(-M / 2, M / 4), KeyState::Held, KeyState::Idle, &fast, &mut w);
    assert_eq!(w.0, Vec3::new(M, 100_000, 250_000));
    let cruise = Vec3::new(0, 0, 160 * M);
    update_angular_projectile_velocity(&Joystick(M, M), KeyState::Idle, KeyState::Held, &cruise, &mut w);
    assert_eq!(w.0, Vec3::new(-M, -50_000, 500_000));
    let slow = Vec3::new(20 * M, 0, 0);
    update_angular_projectile_velocity(&Joystick(M, M), KeyState::Idle, KeyState::Held, &slow, &mut w);
    assert_eq!(w.0, Vec3::zero());
}

#[test]
fn damping_shrinks_the_rates() {
    let tick = M / 64;
    let mut w = AngularVelocity(Vec3::new(M, -M, 640_000));
    // at 200 m/s the damping is 1 per second
    apply_angular_damping(tick, &Vec3::new(200 * M, 0, 0), &mut w);
    assert_eq!(w.0, Vec3::new(984_375, -984_375, 630_000));
    // at rest it is 0.2 per second
    let mut w = AngularVelocity(Vec3::new(M, -M, 0));
    apply_angular_damping(M, &Vec3::zero(), &mut w);
    assert_eq!(w.0, Vec3::new(800_000, -800_000, 0));
    // at most 3 per second
    let mut w = AngularVelocity(Vec3::new(M, -M, 0));
    apply_angular_damping(M / 10, &Vec3::new(5_000 * M, 0, 0), &mut w);
    assert_eq!(w.0, Vec3::new(700_000, -700_000, 0));
    // a long tick brings the body to rest and no further
    let mut w = AngularVelocity(Vec3::new(M, -M, 5));
    apply_angular_damping(10 * M, &Vec3::new(200 * M, 0, 0), &mut w);
    assert_eq!(w.0, Vec3::zero());
    // a negative tick does not spin the body up
    let mut w = AngularVelocity(Vec3::new(M, -M, 5));
    apply_angular_damping(-M, &Vec3::new(200 * M, 0, 0), &mut w);
    assert_eq!(w.0, Vec3::new(M, -M, 5));
}

fn held(keys: &[u32]) -> KeyBindings {
    let mut b = KeyBindings::default();
    for k in keys {
        b.left.pressed(*k);
        b.right.pressed(*k);
    }
    b
}

#[test]
fn default_keys() {
    let b = KeyBindings::default();
    assert_eq!(b.left.up, KeyBinding::new(b'W' as u32));
    assert_eq!(b.left.down, KeyBinding::new(b'S' as u32));
    assert_eq!(b.left.left, KeyBinding::new(b'A' as u32));
    assert_eq!(b.left.right, KeyBinding::new(b'D' as u32));
    assert_eq!(b.left.alt_1, KeyBinding::new(b'Q' as u32));
    assert_eq!(b.left.alt_2, KeyBinding::new(b'E' as u32));
    assert_eq!(b.right.up, KeyBinding::new(b'I' as u32));
    assert_eq!(b.right.down, KeyBinding::new(b'K' as u32));
    assert_eq!(b.right.left, KeyBinding::new(b'J' as u32));
    assert_eq!(b.right.right, KeyBinding::new(b'L' as u32));
    assert_eq!(b.right.alt_1, KeyBinding::new(b'U' as u32));
    assert_eq!(b.right.alt_2, KeyBinding::new(b'O' as u32));
    assert_eq!(b.ask((true, true)), (false, false, false, false));
    let w = held(&[87, 76]);
    assert_eq!(w.ask((true, true)), (true, false, false, true));
    assert_eq!(w.ask((true, false)), (true, false, false, false));
    assert_eq!(w.ask((false, true)), (false, false, false, true));
    assert_eq!(w.ask((false, false)), (false, false, false, false));
}

#[test]
fn the_throttle_lever_follows_the_hand_that_holds_it() {
    let mut t = Throttle(0);
    throttle_controller(M / 10, &held(&[87]), (true, false), &mut t);
    assert_eq!(t, Throttle(50_000));
    // the right hand does not hold the lever
    throttle_controller(M / 10, &held(&[73]), (true, false), &mut t);
    assert_eq!(t, Throttle(50_000));
    throttle_controller(M / 10, &held(&[73]), (true, true), &mut t);
    assert_eq!(t, Throttle(100_000));
    // up wins over down
    throttle_controller(M, &held(&[87, 83]), (true, false), &mut t);
    assert_eq!(t, Throttle(600_000));
    throttle_controller(M, &held(&[87]), (true, false), &mut t);
    assert_eq!(t, Throttle(M));
    throttle_controller(M / 2, &held(&[83]), (true, false), &mut t);
    assert_eq!(t, Throttle(750_000));
    throttle_controller(10 * M, &held(&[75]), (false, true), &mut t);
    assert_eq!(t, Throttle(0));
    throttle_controller(M, &held(&[]), (true, true), &mut t);
    assert_eq!(t, Throttle(0));
}

#[test]
fn the_stick_follows_the_hand_and_returns_when_let_go() {
    let mut j = Joystick(0, 0);
    joystick_controller(M / 2, &held(&[76]), (false, true), &mut j);
    assert_eq!(j, Joystick(500_000, 0));
    joystick_controller(M / 2, &held(&[76]), (false, true), &mut j);
    assert_eq!(j, Joystick(750_000, 0));
    // up pulls the stick back
    joystick_controller(M, &held(&[73]), (false, true), &mut j);
    assert_eq!(j, Joystick(0, -M));
    // a diagonal is shortened to length one
    joystick_controller(M, &held(&[75, 74]), (false, true), &mut j);
    assert_eq!(j, Joystick(-707_107, 707_107));
    // opposite keys cancel
    let before = j;
    joystick_controller(M / 10, &held(&[73, 75, 74, 76]), (false, true), &mut j);
    assert_eq!(j, Joystick(before.0 + 63_639, before.1 - 63_639));
    // let go, the stick returns by nine tenths per second
    let mut j = Joystick(M, -M);
    joystick_controller(M / 2, &held(&[]), (false, true), &mut j);
    assert_eq!(j, Joystick(550_000, -550_000));
    joystick_controller(M / 2, &held(&[76]), (true, false), &mut j);
    assert_eq!(j, Joystick(302_500, -302_500));
}
