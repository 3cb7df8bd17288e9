//! The engine: a thrust that ramps up while the throttle is open and ramps
//! down, twice as fast, while it is closed.
use crate::fixed::{
    clamp, fx_add, fx_clamp, fx_div, fx_mul, fx_sub, lemma_mul_div_cancel, lemma_mul_div_shrinks,
    lemma_mul_div_sign, lemma_mul_div_zero, lemma_trunc_div_monotone, sat, scaled_div,
    scaled_mul, trunc_div, SCALE,
};
use crate::rotation::{Quat, Transform};
use crate::vector::Vec3;
use vstd::prelude::*;

verus! {

/// Throttle above which the engine spools up: one two-thousandth.
pub const SPOOL_THROTTLE: i64 = 500;

/// An engine.
#[derive(Clone, Copy, Debug, PartialEq, Eq, Structural)]
pub struct Engine {
    /// Thrust at full throttle once spooled up, in newton.
    pub max_thrust: i64,
    /// Seconds from cold to fully spooled up.
    pub ramp_time: i64,
    /// How far the engine is spooled up, in seconds, between 0 and `ramp_time`.
    pub elapsed: i64,
    /// The direction of the thrust in the body frame, as a rotation of the
    /// body's `x` axis.
    pub direction: Quat,
    pub current_thrust: i64,
}

/// The spool-up time after a tick of `dt` seconds: it grows by `dt` while the
/// throttle is above the threshold, shrinks by `2 * dt` otherwise, and is
/// held between 0 and `ramp_time`.
pub open spec fn spooled(elapsed: int, ramp_time: int, throttle: int, dt: int) -> int {
    if throttle > SPOOL_THROTTLE {
        clamp(sat(elapsed + dt), 0, ramp_time)
    } else {
        clamp(sat(elapsed - sat(dt + dt)), 0, ramp_time)
    }
}

/// The share of the ramp that is behind the engine, between 0 and 1; an
/// engine without a ramp is always fully spooled up.
pub open spec fn ramp_factor(elapsed: int, ramp_time: int) -> int {
    if ramp_time > 0 {
        clamp(scaled_div(elapsed, ramp_time), 0, SCALE as int)
    } else {
        SCALE as int
    }
}

/// `max_thrust * throttle * ramp_factor`.
pub open spec fn thrust_at(max_thrust: int, throttle: int, elapsed: int, ramp_time: int) -> int {
    scaled_mul(scaled_mul(max_thrust, throttle), ramp_factor(elapsed, ramp_time))
}

impl Engine {
    /// The engine after a tick of `dt` seconds at `throttle`.
    pub open spec fn ticked(self, throttle: int, dt: int) -> Engine {
        let elapsed = spooled(self.elapsed as int, self.ramp_time as int, throttle, dt);
        Engine {
            elapsed: elapsed as i64,
            current_thrust: thrust_at(self.max_thrust as int, throttle, elapsed, self.ramp_time as int) as i64,
            ..self
        }
    }

    /// The thrust as a force in the world.
    pub open spec fn spec_thrust_vector(self, transform: Transform) -> Vec3 {
        transform.rotation.spec_then_after(self.direction).spec_rotate(
            Vec3 { x: SCALE, y: 0, z: 0 },
        ).spec_scale(self.current_thrust as int)
    }

    /// A cold engine of 44 kN that spools up in five seconds and pushes
    /// against the body's `x` axis.
    pub open spec fn spec_cf104() -> Engine {
        Engine {
            max_thrust: 44_000_000_000,
            ramp_time: 5_000_000,
            elapsed: 0,
            direction: Quat { x: 0, y: SCALE, z: 0, w: 0 },
            current_thrust: 0,
        }
    }

    /// A cold engine of 44 kN that spools up in five seconds and pushes
    /// against the body's `x` axis.
    pub fn cf104() -> (r: Engine)
        ensures
            r == Engine::spec_cf104(),
    {
        Engine {
            max_thrust: 44_000_000_000,
            ramp_time: 5_000_000,
            elapsed: 0,
            direction: Quat { x: 0, y: SCALE, z: 0, w: 0 },
            current_thrust: 0,
        }
    }

    /// The thrust as a force in the world: the body's `x` axis, turned first
    /// by the engine's direction and then by the body's orientation, times
    /// the current thrust.
    pub fn thrust_vector(&self, transform: &Transform) -> (r: Vec3)
        ensures
            r == self.spec_thrust_vector(*transform),
    {
        let world_dir = transform.rotation.then_after(&self.direction).rotate(
            &Vec3 { x: SCALE, y: 0, z: 0 },
        );
        world_dir.scale(self.current_thrust)
    }
}

/// Advances the engine by one tick of `dt` seconds at `throttle`, a fraction
/// between 0 and 1.
pub fn update_engine_thrust(dt: i64, throttle: i64, engine: &mut Engine)
    ensures
        *final(engine) == old(engine).ticked(throttle as int, dt as int),
{
    let moved: i64 = if throttle > SPOOL_THROTTLE {
        fx_add(engine.elapsed, dt)
    } else {
        fx_sub(engine.elapsed, fx_add(dt, dt))
    };
    let elapsed: i64 = fx_clamp(moved, 0, engine.ramp_time);
    let factor: i64 = if engine.ramp_time > 0 {
        fx_clamp(fx_div(elapsed, engine.ramp_time), 0, SCALE)
    } else {
        SCALE
    };
    engine.elapsed = elapsed;
    engine.current_thrust = fx_mul(fx_mul(engine.max_thrust, throttle), factor);
}

/// The spool-up time never leaves the ramp.
pub proof fn law_elapsed_stays_on_ramp(elapsed: int, ramp_time: int, throttle: int, dt: int)
    requires
        ramp_time >= 0,
    ensures
        0 <= spooled(elapsed, ramp_time, throttle, dt) <= ramp_time,
{
}

/// At the end of the ramp, full throttle gives exactly the maximal thrust.
pub proof fn law_full_thrust_at_ramp_end(max_thrust: int, ramp_time: int)
    requires
        i64::MIN <= max_thrust <= i64::MAX,
        0 < ramp_time <= i64::MAX,
    ensures
        thrust_at(max_thrust, SCALE as int, ramp_time, ramp_time) == max_thrust,
{
    lemma_mul_div_cancel(SCALE as int, ramp_time);
    assert(ramp_time * 1_000_000 == 1_000_000 * ramp_time) by (nonlinear_arith);
    assert(ramp_factor(ramp_time, ramp_time) == SCALE);
    lemma_mul_div_cancel(max_thrust, SCALE as int);
}

/// With a throttle between 0 and 1 the thrust of an engine with a positive
/// maximal thrust lies between nothing and that maximum.
pub proof fn law_thrust_bounded(max_thrust: int, throttle: int, elapsed: int, ramp_time: int)
    requires
        0 <= max_thrust <= i64::MAX,
        0 <= throttle <= SCALE,
    ensures
        0 <= thrust_at(max_thrust, throttle, elapsed, ramp_time) <= max_thrust,
{
    lemma_mul_div_shrinks(max_thrust, throttle, SCALE as int);
    let part = scaled_mul(max_thrust, throttle);
    assert(part == trunc_div(max_thrust * throttle, SCALE as int));
    let f = ramp_factor(elapsed, ramp_time);
    lemma_mul_div_shrinks(part, f, SCALE as int);
}

/// Along the ramp the thrust never falls: an engine that is further spooled
/// up pushes at least as hard, the throttle being the same.
pub proof fn law_thrust_grows_along_ramp(
    max_thrust: int,
    throttle: int,
    earlier: int,
    later: int,
    ramp_time: int,
)
    requires
        0 <= max_thrust <= i64::MAX,
        0 <= throttle <= SCALE,
        earlier <= later,
    ensures
        thrust_at(max_thrust, throttle, earlier, ramp_time) <= thrust_at(
            max_thrust,
            throttle,
            later,
            ramp_time,
        ),
{
    let part = scaled_mul(max_thrust, throttle);
    lemma_mul_div_sign(max_thrust, throttle, SCALE as int);
    let f1 = ramp_factor(earlier, ramp_time);
    let f2 = ramp_factor(later, ramp_time);
    if ramp_time > 0 {
        assert(earlier * 1_000_000 <= later * 1_000_000);
        lemma_trunc_div_monotone(earlier * SCALE, later * SCALE, ramp_time);
    }
    assert(f1 <= f2);
    assert(part * f1 <= part * f2) by (nonlinear_arith)
        requires
            part >= 0,
            f1 <= f2,
    ;
    lemma_trunc_div_monotone(part * f1, part * f2, SCALE as int);
}

/// A closed throttle gives no thrust, however far the engine is spooled up.
pub proof fn law_no_throttle_no_thrust(engine: Engine, dt: int)
    ensures
        engine.ticked(0, dt).current_thrust == 0,
        thrust_at(
            engine.max_thrust as int,
            0,
            spooled(engine.elapsed as int, engine.ramp_time as int, 0, dt),
            engine.ramp_time as int,
        ) == 0,
{
    lemma_mul_div_zero(engine.max_thrust as int, SCALE as int);
    let f = ramp_factor(
        spooled(engine.elapsed as int, engine.ramp_time as int, 0, dt),
        engine.ramp_time as int,
    );
    lemma_mul_div_zero(f, SCALE as int);
}

/// A cold engine at idle gives no thrust.
pub proof fn law_no_thrust_when_cold(max_thrust: int, throttle: int, ramp_time: int)
    requires
        ramp_time > 0,
    ensures
        thrust_at(max_thrust, throttle, 0, ramp_time) == 0,
{
    assert(0 * 1_000_000 == 0);
    assert(scaled_mul(max_thrust, throttle) * 0 == 0) by (nonlinear_arith);
}

} // verus!
