//! What the pilot does: the state of a key from frame to frame, and the
//! controls that the flight model reads.
use crate::fixed::{
    fx_add, fx_max, fx_min, fx_mul, fx_sub, lemma_mul_div_shrinks, lemma_mul_div_sign, max2, min2,
    sat, scaled_mul, SCALE,
};
use crate::vector::Vec3;
use vstd::prelude::*;

verus! {

/// How fast a hand moves the throttle lever, in full ranges per second.
pub const THROTTLE_SPEED: i64 = 500_000;

/// How fast the stick follows the hand, per second.
pub const STICK_INPUT_SPEED: i64 = 1_000_000;

/// How fast the stick returns to the middle when let go, per second.
pub const STICK_RETURN_SPEED: i64 = 900_000;

/// The state of a key. A key goes from idle to pressed when it goes down,
/// is held from the next frame on, is released when it goes up, and is idle
/// again from the frame after that.
#[derive(Clone, Copy, Debug, PartialEq, Eq, Structural)]
pub enum KeyState {
    Idle,
    Pressed,
    Held,
    Released,
}

/// A key and its state.
#[derive(Clone, Copy, Debug, PartialEq, Eq, Structural)]
pub struct KeyBinding {
    /// The code of the key.
    pub key: u32,
    pub state: KeyState,
}

/// The keys under one hand.
#[derive(Clone, Copy, Debug, PartialEq, Eq, Structural)]
pub struct ArmBinding {
    pub up: KeyBinding,
    pub down: KeyBinding,
    pub left: KeyBinding,
    pub right: KeyBinding,
    pub alt_1: KeyBinding,
    pub alt_2: KeyBinding,
}

/// The keys under both hands.
#[derive(Clone, Copy, Debug, PartialEq, Eq, Structural)]
pub struct KeyBindings {
    pub left: ArmBinding,
    pub right: ArmBinding,
}

/// The position of the throttle lever, a fraction between 0 and 1.
#[derive(Clone, Copy, Debug, PartialEq, Eq, Structural)]
pub struct Throttle(pub i64);

/// The deflection of the stick, each axis between -1 and 1: first to the
/// right, then back.
#[derive(Clone, Copy, Debug, PartialEq, Eq, Structural)]
pub struct Joystick(pub i64, pub i64);

impl KeyState {
    /// The key is down.
    pub open spec fn spec_is_down(self) -> bool {
        self == KeyState::Held || self == KeyState::Pressed
    }

    /// The state in the next frame, when nothing happened to the key.
    pub open spec fn spec_next(self) -> KeyState {
        match self {
            KeyState::Pressed => KeyState::Held,
            KeyState::Held => KeyState::Held,
            KeyState::Released => KeyState::Idle,
            KeyState::Idle => KeyState::Idle,
        }
    }

    pub fn is_down(&self) -> (r: bool)
        ensures
            r == self.spec_is_down(),
    {
        match self {
            KeyState::Pressed => true,
            KeyState::Held => true,
            KeyState::Released => false,
            KeyState::Idle => false,
        }
    }

    pub fn next(&self) -> (r: KeyState)
        ensures
            r == self.spec_next(),
    {
        match self {
            KeyState::Pressed => KeyState::Held,
            KeyState::Held => KeyState::Held,
            KeyState::Released => KeyState::Idle,
            KeyState::Idle => KeyState::Idle,
        }
    }
}

impl KeyBinding {
    /// The binding after the key with `key_code` took `state`: only a
    /// binding of that key changes.
    pub open spec fn spec_with(self, key_code: u32, state: KeyState) -> KeyBinding {
        if self.key == key_code {
            KeyBinding { key: self.key, state }
        } else {
            self
        }
    }

    /// The binding in the next frame.
    pub open spec fn spec_next(self) -> KeyBinding {
        KeyBinding { key: self.key, state: self.state.spec_next() }
    }

    pub fn new(key: u32) -> (r: KeyBinding)
        ensures
            r == (KeyBinding { key, state: KeyState::Idle }),
    {
        KeyBinding { key, state: KeyState::Idle }
    }

    pub fn with(&self, key_code: u32, state: KeyState) -> (r: KeyBinding)
        ensures
            r == self.spec_with(key_code, state),
    {
        if self.key == key_code {
            KeyBinding { key: self.key, state }
        } else {
            *self
        }
    }
}

impl ArmBinding {
    /// Every binding of the key with `key_code` takes `state`.
    pub open spec fn spec_with(self, key_code: u32, state: KeyState) -> ArmBinding {
        ArmBinding {
            up: self.up.spec_with(key_code, state),
            down: self.down.spec_with(key_code, state),
            left: self.left.spec_with(key_code, state),
            right: self.right.spec_with(key_code, state),
            alt_1: self.alt_1.spec_with(key_code, state),
            alt_2: self.alt_2.spec_with(key_code, state),
        }
    }

    /// Every binding in the next frame.
    pub open spec fn spec_next(self) -> ArmBinding {
        ArmBinding {
            up: self.up.spec_next(),
            down: self.down.spec_next(),
            left: self.left.spec_next(),
            right: self.right.spec_next(),
            alt_1: self.alt_1.spec_next(),
            alt_2: self.alt_2.spec_next(),
        }
    }

    /// The key with `key_code` went down.
    pub fn pressed(&mut self, key_code: u32)
        ensures
            *final(self) == old(self).spec_with(key_code, KeyState::Pressed),
    {
        self.up = self.up.with(key_code, KeyState::Pressed);
        self.down = self.down.with(key_code, KeyState::Pressed);
        self.left = self.left.with(key_code, KeyState::Pressed);
        self.right = self.right.with(key_code, KeyState::Pressed);
        self.alt_1 = self.alt_1.with(key_code, KeyState::Pressed);
        self.alt_2 = self.alt_2.with(key_code, KeyState::Pressed);
    }

    /// The key with `key_code` went up.
    pub fn released(&mut self, key_code: u32)
        ensures
            *final(self) == old(self).spec_with(key_code, KeyState::Released),
    {
        self.up = self.up.with(key_code, KeyState::Released);
        self.down = self.down.with(key_code, KeyState::Released);
        self.left = self.left.with(key_code, KeyState::Released);
        self.right = self.right.with(key_code, KeyState::Released);
        self.alt_1 = self.alt_1.with(key_code, KeyState::Released);
        self.alt_2 = self.alt_2.with(key_code, KeyState::Released);
    }

    /// A frame went by: pressed keys are now held, released keys idle.
    pub fn update(&mut self)
        ensures
            *final(self) == old(self).spec_next(),
    {
        self.up.state = self.up.state.next();
        self.down.state = self.down.state.next();
        self.left.state = self.left.state.next();
        self.right.state = self.right.state.next();
        self.alt_1.state = self.alt_1.state.next();
        self.alt_2.state = self.alt_2.state.next();
    }
}

/// What the pedals ask for: -1 with the left pedal alone down, 1 with the
/// right pedal alone, 0 otherwise, as a fixed-point number.
pub open spec fn spec_pedal_input(left: KeyState, right: KeyState) -> int {
    if left.spec_is_down() && !right.spec_is_down() {
        -1_000_000
    } else if !left.spec_is_down() && right.spec_is_down() {
        1_000_000
    } else {
        0
    }
}

pub fn pedal_input(left: KeyState, right: KeyState) -> (r: i64)
    ensures
        r == spec_pedal_input(left, right),
{
    let l: bool = left.is_down();
    let r: bool = right.is_down();
    if l && !r {
        -1_000_000
    } else if !l && r {
        1_000_000
    } else {
        0
    }
}

/// A key that is left alone comes to rest within two frames, and stays
/// there: a held key held, any other key idle.
pub proof fn law_key_state_settles(state: KeyState)
    ensures
        state.spec_next().spec_next() == state.spec_next().spec_next().spec_next(),
        state.spec_next().spec_next() == KeyState::Held || state.spec_next().spec_next()
            == KeyState::Idle,
        state.spec_is_down() <==> state.spec_next() == KeyState::Held,
{
}

impl KeyBindings {
    /// The keys W, S, A, D, Q, E under the left hand and I, K, J, L, U, O
    /// under the right, by their codes in ASCII, all idle.
    pub open spec fn spec_default() -> KeyBindings {
        KeyBindings {
            left: ArmBinding {
                up: KeyBinding { key: 87, state: KeyState::Idle },
                down: KeyBinding { key: 83, state: KeyState::Idle },
                left: KeyBinding { key: 65, state: KeyState::Idle },
                right: KeyBinding { key: 68, state: KeyState::Idle },
                alt_1: KeyBinding { key: 81, state: KeyState::Idle },
                alt_2: KeyBinding { key: 69, state: KeyState::Idle },
            },
            right: ArmBinding {
                up: KeyBinding { key: 73, state: KeyState::Idle },
                down: KeyBinding { key: 75, state: KeyState::Idle },
                left: KeyBinding { key: 74, state: KeyState::Idle },
                right: KeyBinding { key: 76, state: KeyState::Idle },
                alt_1: KeyBinding { key: 85, state: KeyState::Idle },
                alt_2: KeyBinding { key: 79, state: KeyState::Idle },
            },
        }
    }

    /// A hand that holds the lever asks for `up`, for `down`, for `left`
    /// and for `right`, in this order: it has the key down, on either side.
    pub open spec fn asked(self, holding: (bool, bool)) -> (bool, bool, bool, bool) {
        (
            (holding.0 && self.left.up.state.spec_is_down()) || (holding.1
                && self.right.up.state.spec_is_down()),
            (holding.0 && self.left.down.state.spec_is_down()) || (holding.1
                && self.right.down.state.spec_is_down()),
            (holding.0 && self.left.left.state.spec_is_down()) || (holding.1
                && self.right.left.state.spec_is_down()),
            (holding.0 && self.left.right.state.spec_is_down()) || (holding.1
                && self.right.right.state.spec_is_down()),
        )
    }

    /// Tells what the hands that hold a lever ask for.
    pub fn ask(&self, holding: (bool, bool)) -> (r: (bool, bool, bool, bool))
        ensures
            r == self.asked(holding),
    {
        (
            (holding.0 && self.left.up.state.is_down()) || (holding.1 && self.right.up.state.is_down()),
            (holding.0 && self.left.down.state.is_down()) || (holding.1
                && self.right.down.state.is_down()),
            (holding.0 && self.left.left.state.is_down()) || (holding.1
                && self.right.left.state.is_down()),
            (holding.0 && self.left.right.state.is_down()) || (holding.1
                && self.right.right.state.is_down()),
        )
    }
}

impl Default for KeyBindings {
    fn default() -> (r: KeyBindings)
        ensures
            r == KeyBindings::spec_default(),
    {
        KeyBindings {
            left: ArmBinding {
                up: KeyBinding::new(87),
                down: KeyBinding::new(83),
                left: KeyBinding::new(65),
                right: KeyBinding::new(68),
                alt_1: KeyBinding::new(81),
                alt_2: KeyBinding::new(69),
            },
            right: ArmBinding {
                up: KeyBinding::new(73),
                down: KeyBinding::new(75),
                left: KeyBinding::new(74),
                right: KeyBinding::new(76),
                alt_1: KeyBinding::new(85),
                alt_2: KeyBinding::new(79),
            },
        }
    }
}

impl Throttle {
    /// The lever after a tick: pushed forward, up to 1, while a hand that
    /// holds it asks for up; else pulled back, down to 0, while one asks for
    /// down; else left alone.
    pub open spec fn moved(self, asked: (bool, bool, bool, bool), dt: int) -> Throttle {
        let step = scaled_mul(THROTTLE_SPEED as int, dt);
        if asked.0 {
            Throttle(min2(SCALE as int, sat(self.0 + step)) as i64)
        } else if asked.1 {
            Throttle(max2(0, sat(self.0 - step)) as i64)
        } else {
            self
        }
    }
}

impl Joystick {
    /// Where the hand wants the stick: one step back for up, forward for
    /// down, to the left and to the right, a diagonal shortened to length 1.
    pub open spec fn wanted(asked: (bool, bool, bool, bool)) -> Joystick {
        let x: int = (if asked.3 { SCALE as int } else { 0 }) - (if asked.2 { SCALE as int } else { 0 });
        let y: int = (if asked.1 { SCALE as int } else { 0 }) - (if asked.0 { SCALE as int } else { 0 });
        let raw = Vec3 { x: x as i64, y: y as i64, z: 0 };
        if raw.spec_length() > SCALE {
            let unit = raw.spec_normalize();
            Joystick(unit.x, unit.y)
        } else {
            Joystick(x as i64, y as i64)
        }
    }

    /// The stick a share `s` of the way to `target`.
    pub open spec fn toward(self, target: Joystick, s: int) -> Joystick {
        Joystick(
            sat(self.0 + scaled_mul(sat(target.0 - self.0), s)) as i64,
            sat(self.1 + scaled_mul(sat(target.1 - self.1), s)) as i64,
        )
    }

    /// The stick after a tick: on its way to where the hand wants it, or on
    /// its way back to the middle when the hand wants nothing.
    pub open spec fn moved(self, asked: (bool, bool, bool, bool), dt: int) -> Joystick {
        let target = Joystick::wanted(asked);
        if target != Joystick(0, 0) {
            self.toward(target, scaled_mul(dt, STICK_INPUT_SPEED as int))
        } else {
            self.toward(target, scaled_mul(dt, STICK_RETURN_SPEED as int))
        }
    }
}

/// Moves the throttle lever for a tick of `dt` seconds. `holding` tells for
/// the left and for the right hand whether it holds the lever.
pub fn throttle_controller(dt: i64, keybindings: &KeyBindings, holding: (bool, bool), throttle: &mut Throttle)
    ensures
        *final(throttle) == old(throttle).moved(keybindings.asked(holding), dt as int),
{
    let asked = keybindings.ask(holding);
    let step: i64 = fx_mul(THROTTLE_SPEED, dt);
    if asked.0 {
        throttle.0 = fx_min(SCALE, fx_add(throttle.0, step));
    } else if asked.1 {
        throttle.0 = fx_max(0, fx_sub(throttle.0, step));
    }
}

/// Moves the stick for a tick of `dt` seconds. `holding` tells for the left
/// and for the right hand whether it holds the stick.
pub fn joystick_controller(dt: i64, keybindings: &KeyBindings, holding: (bool, bool), joystick: &mut Joystick)
    ensures
        *final(joystick) == old(joystick).moved(keybindings.asked(holding), dt as int),
{
    let asked = keybindings.ask(holding);
    let x: i64 = (if asked.3 { SCALE } else { 0 }) - (if asked.2 { SCALE } else { 0 });
    let y: i64 = (if asked.1 { SCALE } else { 0 }) - (if asked.0 { SCALE } else { 0 });
    let raw = Vec3 { x, y, z: 0 };
    let target = if raw.length() > SCALE {
        let unit = raw.normalize();
        Joystick(unit.x, unit.y)
    } else {
        Joystick(x, y)
    };
    let speed: i64 = if target.0 != 0 || target.1 != 0 {
        STICK_INPUT_SPEED
    } else {
        STICK_RETURN_SPEED
    };
    let s: i64 = fx_mul(dt, speed);
    joystick.0 = fx_add(joystick.0, fx_mul(fx_sub(target.0, joystick.0), s));
    joystick.1 = fx_add(joystick.1, fx_mul(fx_sub(target.1, joystick.1), s));
}

/// The throttle lever stays on its range: from a position between 0 and 1
/// no tick that does not run backward takes it out.
pub proof fn law_throttle_stays_in_range(throttle: Throttle, asked: (bool, bool, bool, bool), dt: int)
    requires
        0 <= throttle.0 <= SCALE,
        0 <= dt <= i64::MAX,
    ensures
        0 <= throttle.moved(asked, dt).0 <= SCALE,
{
    lemma_mul_div_sign(THROTTLE_SPEED as int, dt, SCALE as int);
}

/// One axis of the stick on its way to a target never overshoots: after a
/// share between 0 and 1 of the way it lies between where it was and the
/// target.
pub proof fn law_stick_never_overshoots(from: int, target: int, s: int)
    requires
        -SCALE <= from <= SCALE,
        -SCALE <= target <= SCALE,
        0 <= s <= SCALE,
    ensures
        ({
            let to = sat(from + scaled_mul(sat(target - from), s));
            (from <= target ==> from <= to <= target) && (target <= from ==> target <= to <= from)
        }),
{
    let d = target - from;
    lemma_mul_div_shrinks(d, s, SCALE as int);
    lemma_mul_div_sign(d, s, SCALE as int);
}

impl Default for Throttle {
    fn default() -> (r: Throttle)
        ensures
            r == Throttle(0),
    {
        Throttle(0)
    }
}

impl Default for Joystick {
    fn default() -> (r: Joystick)
        ensures
            r == Joystick(0, 0),
    {
        Joystick(0, 0)
    }
}

} // verus!
