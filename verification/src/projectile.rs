//! The motion of a body: the forces on it in the air and on the ground, the
//! change of its velocity, position and orientation over a tick, and the
//! moment at which it leaves the ground.
use crate::control_surfaces::AngularVelocity;
use crate::cross_section::{AreaCache, CrossSectionArea};
use crate::drag::{drag_force, law_drag_opposes_velocity, spec_drag_force};
use crate::engine::Engine;
use crate::fixed::{
    clamp, fx_add, fx_clamp, fx_div, fx_max, fx_mul, fx_neg, fx_sub, is_sqrt, lemma_isqrt_is,
    lemma_isqrt_reaches,
    lemma_mul_div_cancel, lemma_mul_div_monotone, lemma_mul_div_negated,
    lemma_mul_div_shrinks, lemma_mul_div_sign, lemma_mul_div_zero, magnitude, max2, mul_div, sat,
    scaled_div, scaled_mul, SCALE,
};
use crate::lift::{
    lift_coefficient, lift_force, lift_magnitude, spec_angle_of_attack, spec_lift_force,
    CF104_WING_AREA,
};
use crate::mass::{get_weight, weights_sum, Mass};
use crate::rotation::{law_identity_turns_nothing, Quat, Transform};
use crate::util::{
    altitude, air_density, get_lat, get_lon, spec_air_density, spec_altitude,
    spec_celsius_to_kelvin, spec_lat, spec_lon, GRAVITY,
};
use crate::vector::{lemma_along_x, lemma_along_y, lemma_scale_basics, Vec3};
use crate::weather::{
    air_over, get_air, law_pressure_continuous_at_tropopause, sample_or, troposphere_pressure,
    Pressure, Temperature, WeatherMeta, DEFAULT_SURFACE_PRESSURE, DEFAULT_SURFACE_TEMP,
    TROPOPAUSE,
};
use crate::world::{GlobalPosition, MovingOrigin};
use vstd::prelude::*;

verus! {

/// Rolling resistance of the wheels, in newton per m/s.
pub const ROLLING_RESISTANCE: i64 = 800_000;

/// Speed above which a body on the ground is pushed back along its velocity
/// rather than along its forward axis, in m/s.
pub const MIN_DIRECTION_SPEED: i64 = 1_000;

/// Speed at which the nose wheel begins to lose its effect, in m/s.
pub const STEERING_FADE_START: i64 = 10_000_000;

/// Speed at which the nose wheel has lost its effect, in m/s.
pub const STEERING_FADE_END: i64 = 40_000_000;

/// Share of the wheel's angle that the body yaws per second.
pub const STEERING_YAW_GAIN: i64 = 250_000;

/// Square of the angular speed, in raw units, above which a body turns.
pub const MIN_TURN_RATE_SQUARED: u128 = 10_000;

/// Tag of a body that stands on the ground. A body without it is airborne.
#[derive(Clone, Copy, Debug, PartialEq, Eq, Structural)]
pub struct Grounded;

/// Tag of a body that the flight model moves.
#[derive(Clone, Copy, Debug, PartialEq, Eq, Structural)]
pub struct Projectile;

/// How a body turns over a tick.
#[derive(Clone, Copy, Debug, PartialEq, Eq, Structural)]
pub enum AngularIntegration {
    /// Three turns, one after the other: roll, then pitch, then yaw, each
    /// about the axis as it stands before the tick. The result depends on
    /// the order and is exact only for one turn at a time.
    Sequential,
    /// One turn about the axis of the angular velocity.
    Combined,
}

/// The schedule of one tick of the flight model, and how it is set up.
#[derive(Clone, Copy, Debug, PartialEq, Eq, Structural)]
pub struct ProjectilePlugin {
    pub angular_integration: AngularIntegration,
}

/// The sum of the forces of the last tick in the air, and the mass that they
/// moved.
#[derive(Clone, Copy, Debug, PartialEq, Eq, Structural)]
pub struct GForceCache {
    pub net_force: Vec3,
    pub mass: i64,
}

/// The velocity of a body in the world, in m/s.
#[derive(Clone, Copy, Debug, PartialEq, Eq, Structural)]
pub struct Velocity(pub Vec3);

/// The drag coefficient of a body.
#[derive(Clone, Copy, Debug, PartialEq, Eq, Structural)]
pub struct DragCoefficient(pub i64);

/// The share of gravity that acts on a body.
#[derive(Clone, Copy, Debug, PartialEq, Eq, Structural)]
pub struct GravityScale(pub i64);

/// Wing area, in m^2.
#[derive(Clone, Copy, Debug, PartialEq, Eq, Structural)]
pub struct WingArea(pub i64);

/// The force of the brakes, in newton, and whether they are on.
#[derive(Clone, Copy, Debug, PartialEq, Eq, Structural)]
pub struct BrakeForce(pub i64, pub bool);

/// The nose wheel.
#[derive(Clone, Copy, Debug, PartialEq, Eq, Structural)]
pub struct SteeringWheel {
    /// Greatest angle of the wheel, in radians.
    pub max_angle: i64,
    /// What the pilot asks for, between -1 and 1.
    pub input_dir: i64,
    pub current_angle: i64,
    /// Greatest change of the angle, in rad/s.
    pub delta_speed: i64,
}

/// What a body on the ground has beside what every body has.
#[derive(Clone, Copy, Debug, PartialEq, Eq, Structural)]
pub struct GroundedBundle {
    pub grounded: Grounded,
    pub brake_force: BrakeForce,
    pub turn_radius: SteeringWheel,
}

/// What makes up an aircraft.
#[derive(Debug)]
pub struct PlaneBundle {
    pub position: GlobalPosition,
    pub net_force: GForceCache,
    pub projectile: Projectile,
    pub velocity: Velocity,
    pub angular_velocity: AngularVelocity,
    pub mass: Mass,
    pub wing_area: WingArea,
    pub engine: Engine,
    pub cross_section_area: CrossSectionArea,
}

/// Temperature, in kelvin, and pressure, in pascal, of the air at a
/// position: the air at its height over the surface weather sampled at its
/// latitude and longitude.
pub open spec fn air_at(
    position: GlobalPosition,
    meta: WeatherMeta,
    temperature: Temperature,
    pressure: Pressure,
) -> (int, int) {
    let lat = spec_lat(position.x as int);
    let lon = spec_lon(position.z as int);
    air_over(
        sample_or(lat, lon, meta, pressure.0@, DEFAULT_SURFACE_PRESSURE as int),
        sample_or(lat, lon, meta, temperature.0@, DEFAULT_SURFACE_TEMP as int),
        spec_altitude(position.y as int),
    )
}

/// The weight of a mass as a force: `mass * g`, straight down.
pub open spec fn gravity_force(mass: int) -> Vec3 {
    Vec3 { x: 0, y: sat(-scaled_mul(mass, GRAVITY as int)) as i64, z: 0 }
}

/// The forces that act in the air and on the ground alike: thrust, then
/// drag, then lift, added in this order.
pub open spec fn flight_forces(
    velocity: Vec3,
    transform: Transform,
    engine: Engine,
    area: int,
    wing_area: int,
    air: (int, int),
) -> (Vec3, Vec3, Vec3) {
    (
        engine.spec_thrust_vector(transform),
        spec_drag_force(area, velocity, air.0, air.1),
        spec_lift_force(
            transform.spec_forward(),
            velocity,
            transform.spec_up(),
            spec_air_density(air.1, air.0),
            wing_area,
        ),
    )
}

/// The sum of the forces on a body in the air: thrust, drag, lift and
/// weight.
pub open spec fn airborne_force(
    velocity: Vec3,
    transform: Transform,
    engine: Engine,
    area: int,
    wing_area: int,
    mass: int,
    air: (int, int),
) -> Vec3 {
    let f = flight_forces(velocity, transform, engine, area, wing_area, air);
    f.0.spec_plus(f.1).spec_plus(f.2).spec_plus(gravity_force(mass))
}

/// The velocity after `dt` seconds of `force` on `mass`:
/// `velocity + force / mass * dt`. A body without mass keeps its velocity.
pub open spec fn accelerated(velocity: Vec3, force: Vec3, mass: int, dt: int) -> Vec3 {
    if mass <= 0 {
        velocity
    } else {
        velocity.spec_plus(force.spec_div(mass).spec_scale(dt))
    }
}

/// The direction against which brakes and wheels push: the direction of the
/// velocity, or the forward axis for a body that hardly moves.
pub open spec fn ground_direction(velocity: Vec3, forward: Vec3) -> Vec3 {
    if velocity.spec_length() > MIN_DIRECTION_SPEED {
        velocity.spec_normalize()
    } else {
        forward
    }
}

/// The force of the brakes: nothing while they are off, else their force
/// against `direction`.
pub open spec fn braking(brake: BrakeForce, direction: Vec3) -> Vec3 {
    if brake.1 {
        direction.spec_neg().spec_scale(brake.0 as int)
    } else {
        Vec3::spec_zero()
    }
}

/// The rolling resistance: against `direction`, in proportion to the speed.
pub open spec fn rolling(direction: Vec3, speed: int) -> Vec3 {
    direction.spec_neg().spec_scale(speed).spec_scale(ROLLING_RESISTANCE as int)
}

/// The sum of the forces on a body on the ground: thrust, drag, brakes,
/// rolling resistance, lift and weight.
pub open spec fn grounded_force(
    velocity: Vec3,
    transform: Transform,
    engine: Engine,
    brake: BrakeForce,
    area: int,
    wing_area: int,
    mass: int,
    air: (int, int),
) -> Vec3 {
    let f = flight_forces(velocity, transform, engine, area, wing_area, air);
    let dir = ground_direction(velocity, transform.spec_forward());
    f.0.spec_plus(f.1).spec_plus(braking(brake, dir)).spec_plus(
        rolling(dir, velocity.spec_length()),
    ).spec_plus(f.2).spec_plus(gravity_force(mass))
}

/// A velocity held to the ground: what it has along the forward axis, so
/// that nothing slips sideways, and what it has upward, never downward.
pub open spec fn held_to_ground(velocity: Vec3, forward: Vec3) -> Vec3 {
    let f = forward.spec_normalize();
    let along = f.spec_scale(velocity.spec_dot(f));
    Vec3 { x: along.x, y: max2(sat(along.y + velocity.y), 0) as i64, z: along.z }
}

/// The velocity of a body on the ground after a tick.
pub open spec fn grounded_velocity(
    velocity: Vec3,
    transform: Transform,
    engine: Engine,
    brake: BrakeForce,
    area: int,
    wing_area: int,
    mass: int,
    air: (int, int),
    dt: int,
) -> Vec3 {
    held_to_ground(
        accelerated(
            velocity,
            grounded_force(velocity, transform, engine, brake, area, wing_area, mass, air),
            mass,
            dt,
        ),
        transform.spec_forward(),
    )
}

/// A body on the ground takes off with the first upward velocity.
pub open spec fn takes_off(velocity: Vec3) -> bool {
    velocity.y > 0
}

/// How much of its effect the nose wheel has lost at `speed`: nothing up to
/// 10 m/s, all of it from 40 m/s.
pub open spec fn steering_fade(speed: int) -> int {
    clamp(
        scaled_div(sat(speed - STEERING_FADE_START), STEERING_FADE_END - STEERING_FADE_START),
        0,
        SCALE as int,
    )
}

impl SteeringWheel {
    /// The wheel after a tick: its angle moves toward
    /// `-max_angle * input_dir * (1 - fade)`, by `delta_speed * dt` at most.
    pub open spec fn turned(self, speed: int, dt: int) -> SteeringWheel {
        let keep = SCALE - steering_fade(speed);
        let target = scaled_mul(scaled_mul(sat(-self.max_angle), self.input_dir as int), keep);
        let max_delta = scaled_mul(self.delta_speed as int, dt);
        let applied = clamp(sat(target - self.current_angle), sat(-max_delta), max_delta);
        SteeringWheel { current_angle: sat(self.current_angle + applied) as i64, ..self }
    }

    /// The angle by which the body yaws in a tick with the wheel at its
    /// current angle: `angle * (1 - fade) * dt / 4`.
    pub open spec fn yaw_step(self, speed: int, dt: int) -> int {
        let keep = SCALE - steering_fade(speed);
        scaled_mul(scaled_mul(scaled_mul(self.current_angle as int, keep), dt), STEERING_YAW_GAIN as int)
    }
}

impl Transform {
    /// The transform after a tick of turning on the ground.
    pub open spec fn steered(self, wheel: SteeringWheel, speed: int, dt: int) -> Transform {
        Transform {
            translation: self.translation,
            rotation: Quat::spec_from_rotation_y(wheel.turned(speed, dt).yaw_step(speed, dt)).spec_then_after(
                self.rotation,
            ),
        }
    }

    /// The orientation after three turns, one after the other: a roll about
    /// the forward axis, a pitch about the axis against the right axis, a yaw
    /// about the up axis, all three axes taken as they stand before the tick.
    pub open spec fn turned_in_sequence(self, omega: Vec3, dt: int) -> Quat {
        self.rotation.spec_rotated_about(self.spec_forward(), scaled_mul(omega.x as int, dt)).spec_rotated_about(
            self.spec_right().spec_neg(),
            scaled_mul(omega.z as int, dt),
        ).spec_rotated_about(self.spec_up(), scaled_mul(omega.y as int, dt))
    }

    /// The angular velocity as a vector of the world: its roll along the
    /// forward axis, its pitch against the right axis, its yaw along the up
    /// axis.
    pub open spec fn world_rate(self, omega: Vec3) -> Vec3 {
        self.spec_forward().spec_scale(omega.x as int).spec_plus(
            self.spec_right().spec_neg().spec_scale(omega.z as int),
        ).spec_plus(self.spec_up().spec_scale(omega.y as int))
    }

    /// The orientation after one turn about the axis of the angular
    /// velocity, by the angular speed times `dt`.
    pub open spec fn turned_at_once(self, omega: Vec3, dt: int) -> Quat {
        self.rotation.spec_rotated_about(
            self.world_rate(omega).spec_normalize(),
            scaled_mul(omega.spec_length(), dt),
        )
    }

    /// The transform after a tick of `velocity` and `omega`.
    ///
    /// The position in render space moves with the velocity only where no
    /// body is the moving origin. A body whose angular speed is above the
    /// least turn rate turns, in sequence or at once, as `mode` says.
    pub open spec fn advanced(
        self,
        center: MovingOrigin,
        mode: AngularIntegration,
        velocity: Vec3,
        omega: Vec3,
        dt: int,
    ) -> Transform {
        let translation = if center.0.is_none() {
            self.translation.spec_plus(velocity.spec_scale(dt))
        } else {
            self.translation
        };
        let rotation = if omega.spec_norm_squared() > MIN_TURN_RATE_SQUARED {
            match mode {
                AngularIntegration::Sequential => self.turned_in_sequence(omega, dt),
                AngularIntegration::Combined => self.turned_at_once(omega, dt),
            }
        } else {
            self.rotation
        };
        Transform { translation, rotation }
    }
}

impl Default for AngularIntegration {
    fn default() -> (r: AngularIntegration)
        ensures
            r == AngularIntegration::Combined,
    {
        AngularIntegration::Combined
    }
}

impl Default for ProjectilePlugin {
    fn default() -> (r: ProjectilePlugin)
        ensures
            r == (ProjectilePlugin { angular_integration: AngularIntegration::Combined }),
    {
        ProjectilePlugin { angular_integration: AngularIntegration::Combined }
    }
}

impl GroundedBundle {
    /// A body on the ground with brakes of 8 kN, off, and a nose wheel that
    /// turns up to 45 degrees at 2 rad/s.
    pub fn cf_104() -> (r: GroundedBundle)
        ensures
            r == (GroundedBundle {
                grounded: Grounded,
                brake_force: BrakeForce(8_000_000_000, false),
                turn_radius: SteeringWheel {
                    max_angle: 785_398,
                    input_dir: 0,
                    current_angle: 0,
                    delta_speed: 2_000_000,
                },
            }),
    {
        GroundedBundle {
            grounded: Grounded,
            brake_force: BrakeForce(8_000_000_000, false),
            turn_radius: SteeringWheel {
                max_angle: 785_398,
                input_dir: 0,
                current_angle: 0,
                delta_speed: 2_000_000,
            },
        }
    }
}

impl PlaneBundle {
    /// An aircraft at rest at `position`, with a cold engine and nothing that
    /// weighs yet.
    pub fn cf_104(position: Vec3) -> (r: PlaneBundle)
        ensures
            r.position == (GlobalPosition { x: position.x, y: position.y, z: position.z }),
            r.net_force == (GForceCache { net_force: Vec3::spec_zero(), mass: 0 }),
            r.velocity == Velocity(Vec3::spec_zero()),
            r.angular_velocity == AngularVelocity(Vec3::spec_zero()),
            r.mass.components@.len() == 0,
            r.wing_area == WingArea(CF104_WING_AREA),
            r.engine == Engine::spec_cf104(),
            r.cross_section_area == (CrossSectionArea { cache: AreaCache::Empty, area: 0 }),
    {
        PlaneBundle {
            position: GlobalPosition { x: position.x, y: position.y, z: position.z },
            net_force: GForceCache { net_force: Vec3::zero(), mass: 0 },
            projectile: Projectile,
            velocity: Velocity(Vec3::zero()),
            angular_velocity: AngularVelocity(Vec3::zero()),
            mass: Mass { components: Vec::new() },
            wing_area: WingArea(CF104_WING_AREA),
            engine: Engine::cf104(),
            cross_section_area: CrossSectionArea::default(),
        }
    }
}

/// Samples temperature and pressure of the air at a position.
pub fn sample_air(
    position: &GlobalPosition,
    meta: &WeatherMeta,
    temperature: &Temperature,
    pressure: &Pressure,
) -> (r: (i64, i64))
    requires
        meta.wf(),
    ensures
        (r.0 as int, r.1 as int) == air_at(*position, *meta, *temperature, *pressure),
{
    get_air(get_lat(position.x), get_lon(position.z), altitude(position.y), meta, temperature, pressure)
}

/// Applies `force` to `mass` for `dt` seconds.
pub fn accelerate(velocity: &Vec3, force: &Vec3, mass: i64, dt: i64) -> (r: Vec3)
    ensures
        r == accelerated(*velocity, *force, mass as int, dt as int),
{
    if mass <= 0 {
        *velocity
    } else {
        velocity.plus(&force.div(mass).scale(dt))
    }
}

/// Advances the velocity of an airborne body by one tick of `dt` seconds
/// and records the sum of the forces and the mass.
///
/// The air is sampled at the body's position; the forces are thrust, drag,
/// lift and weight; the velocity grows by their sum over the mass times
/// `dt`.
pub fn update_projectile_velocity(
    dt: i64,
    weather_meta: &WeatherMeta,
    temperature: &Temperature,
    pressure: &Pressure,
    velocity: &mut Velocity,
    g_force_cache: &mut GForceCache,
    position: &GlobalPosition,
    transform: &Transform,
    masses: &Mass,
    cross_section: &CrossSectionArea,
    wing_area: &WingArea,
    engine: &Engine,
)
    requires
        weather_meta.wf(),
    ensures
        ({
            let mass = sat(weights_sum(masses.components@));
            let total = airborne_force(
                old(velocity).0,
                *transform,
                *engine,
                cross_section.area as int,
                wing_area.0 as int,
                mass,
                air_at(*position, *weather_meta, *temperature, *pressure),
            );
            &&& final(velocity).0 == accelerated(old(velocity).0, total, mass, dt as int)
            &&& *final(g_force_cache) == (GForceCache { net_force: total, mass: mass as i64 })
        }),
{
    let forward = transform.forward();
    let up = transform.up();
    let mass: i64 = get_weight(masses);
    let air = sample_air(position, weather_meta, temperature, pressure);
    let thrust = engine.thrust_vector(transform);
    let drag = drag_force(cross_section.area, &velocity.0, air.0, air.1);
    let lift = lift_force(&forward, &velocity.0, &up, air_density(air.1, air.0), wing_area.0);
    let gravity = Vec3 { x: 0, y: fx_neg(fx_mul(mass, GRAVITY)), z: 0 };
    let total_force = thrust.plus(&drag).plus(&lift).plus(&gravity);
    velocity.0 = accelerate(&velocity.0, &total_force, mass, dt);
    g_force_cache.net_force = total_force;
    g_force_cache.mass = mass;
}

/// Holds a velocity to the ground.
pub fn hold_to_ground(velocity: &Vec3, forward: &Vec3) -> (r: Vec3)
    ensures
        r == held_to_ground(*velocity, *forward),
        r.y >= 0,
{
    let f = forward.normalize();
    let along = f.scale(velocity.dot(&f));
    Vec3 { x: along.x, y: fx_max(fx_add(along.y, velocity.y), 0), z: along.z }
}

/// Advances the velocity of a body on the ground by one tick of `dt`
/// seconds, and lets the body take off once its velocity points upward.
///
/// The forces are thrust, drag, brakes, rolling resistance, lift and
/// weight. The new velocity is held to the ground: it keeps what it has
/// along the forward axis and what it has upward. With an upward velocity
/// the body takes off within this tick: it loses its tag, its position in
/// the world is set to its position in render space, and it becomes the
/// moving origin. Without one, tag, position and moving origin stay as they
/// are. An airborne body is left alone.
pub fn update_grounded_velocity(
    dt: i64,
    entity: usize,
    moving_center: &mut MovingOrigin,
    weather_meta: &WeatherMeta,
    temperature: &Temperature,
    pressure: &Pressure,
    grounded: &mut Option<Grounded>,
    velocity: &mut Velocity,
    brake: &BrakeForce,
    transform: &Transform,
    position: &mut GlobalPosition,
    masses: &Mass,
    cross_section: &CrossSectionArea,
    wing_area: &WingArea,
    engine: &Engine,
)
    requires
        weather_meta.wf(),
    ensures
        old(grounded).is_none() ==> {
            &&& *final(velocity) == *old(velocity)
            &&& *final(position) == *old(position)
            &&& *final(moving_center) == *old(moving_center)
            &&& final(grounded).is_none()
        },
        old(grounded).is_some() ==> {
            let v = grounded_velocity(
                old(velocity).0,
                *transform,
                *engine,
                *brake,
                cross_section.area as int,
                wing_area.0 as int,
                sat(weights_sum(masses.components@)),
                air_at(*old(position), *weather_meta, *temperature, *pressure),
                dt as int,
            );
            &&& final(velocity).0 == v
            &&& takes_off(v) ==> {
                &&& final(grounded).is_none()
                &&& *final(position) == (GlobalPosition {
                    x: transform.translation.x,
                    y: transform.translation.y,
                    z: transform.translation.z,
                })
                &&& *final(moving_center) == MovingOrigin(Some(entity))
            }
            &&& !takes_off(v) ==> {
                &&& *final(grounded) == *old(grounded)
                &&& *final(position) == *old(position)
                &&& *final(moving_center) == *old(moving_center)
            }
        },
{
    if grounded.is_none() {
        return;
    }
    let forward = transform.forward();
    let up = transform.up();
    let speed: i64 = velocity.0.length();
    let velocity_dir = if speed > MIN_DIRECTION_SPEED {
        velocity.0.normalize()
    } else {
        forward
    };
    let air = sample_air(position, weather_meta, temperature, pressure);
    let mass: i64 = get_weight(masses);
    let thrust = engine.thrust_vector(transform);
    let drag = drag_force(cross_section.area, &velocity.0, air.0, air.1);
    let brake_force = if brake.1 {
        velocity_dir.neg().scale(brake.0)
    } else {
        Vec3::zero()
    };
    let rolling_resistance = velocity_dir.neg().scale(speed).scale(ROLLING_RESISTANCE);
    let lift = lift_force(&forward, &velocity.0, &up, air_density(air.1, air.0), wing_area.0);
    let gravity = Vec3 { x: 0, y: fx_neg(fx_mul(mass, GRAVITY)), z: 0 };
    let total_force = thrust.plus(&drag).plus(&brake_force).plus(&rolling_resistance).plus(&lift).plus(
        &gravity,
    );
    let pushed = accelerate(&velocity.0, &total_force, mass, dt);
    velocity.0 = hold_to_ground(&pushed, &forward);
    if velocity.0.y > 0 {
        position.x = transform.translation.x;
        position.y = transform.translation.y;
        position.z = transform.translation.z;
        moving_center.0 = Some(entity);
        *grounded = None;
    }
}

/// Computes [`steering_fade`].
pub fn steering_fade_at(speed: i64) -> (r: i64)
    ensures
        r == steering_fade(speed as int),
        0 <= r <= SCALE,
{
    fx_clamp(
        fx_div(fx_sub(speed, STEERING_FADE_START), STEERING_FADE_END - STEERING_FADE_START),
        0,
        SCALE,
    )
}

/// Turns the nose wheel toward what the pilot asks for and yaws a body on
/// the ground with it, for one tick of `dt` seconds.
pub fn update_grounded_turn(dt: i64, velocity: &Vec3, transform: &mut Transform, wheel: &mut SteeringWheel)
    ensures
        *final(wheel) == old(wheel).turned(velocity.spec_length(), dt as int),
        *final(transform) == old(transform).steered(*old(wheel), velocity.spec_length(), dt as int),
{
    let speed: i64 = velocity.length();
    let keep: i64 = SCALE - steering_fade_at(speed);
    let target_angle: i64 = fx_mul(fx_mul(fx_neg(wheel.max_angle), wheel.input_dir), keep);
    let angle_diff: i64 = fx_sub(target_angle, wheel.current_angle);
    let max_delta: i64 = fx_mul(wheel.delta_speed, dt);
    let applied_delta: i64 = fx_clamp(angle_diff, fx_neg(max_delta), max_delta);
    wheel.current_angle = fx_add(wheel.current_angle, applied_delta);
    let yaw_rate: i64 = fx_mul(fx_mul(fx_mul(wheel.current_angle, keep), dt), STEERING_YAW_GAIN);
    transform.rotation = Quat::from_rotation_y(yaw_rate).then_after(&transform.rotation);
}

/// Advances position and orientation of a body by one tick of `dt` seconds.
///
/// The position in the world moves by the velocity times `dt`; the position
/// in render space and the orientation change as [`Transform::advanced`]
/// says. A body in the air stays in the air: landing is no part of the
/// model.
pub fn update_transform(
    dt: i64,
    center: &MovingOrigin,
    mode: AngularIntegration,
    transform: &mut Transform,
    position: &mut GlobalPosition,
    velocity: &Velocity,
    angular_velocity: &AngularVelocity,
)
    ensures
        *final(position) == old(position).spec_moved(velocity.0.spec_scale(dt as int)),
        *final(transform) == old(transform).advanced(
            *center,
            mode,
            velocity.0,
            angular_velocity.0,
            dt as int,
        ),
{
    let step = velocity.0.scale(dt);
    let moved = position.moved(&step);
    position.x = moved.x;
    position.y = moved.y;
    position.z = moved.z;
    if center.0.is_none() {
        transform.translation = transform.translation.plus(&step);
    }
    let omega = angular_velocity.0;
    if omega.norm_squared() > MIN_TURN_RATE_SQUARED {
        let roll_axis = transform.forward();
        let pitch_axis = transform.right().neg();
        let yaw_axis = transform.up();
        match mode {
            AngularIntegration::Sequential => {
                let roll_angle: i64 = fx_mul(omega.x, dt);
                let pitch_angle: i64 = fx_mul(omega.z, dt);
                let yaw_angle: i64 = fx_mul(omega.y, dt);
                transform.rotation = transform.rotation.rotated_about(&roll_axis, roll_angle).rotated_about(
                    &pitch_axis,
                    pitch_angle,
                ).rotated_about(&yaw_axis, yaw_angle);
            },
            AngularIntegration::Combined => {
                let rate = roll_axis.scale(omega.x).plus(&pitch_axis.scale(omega.z)).plus(
                    &yaw_axis.scale(omega.y),
                );
                transform.rotation = transform.rotation.rotated_about(
                    &rate.normalize(),
                    fx_mul(omega.length(), dt),
                );
            },
        }
    }
}

/// `w` lies between nothing and `x`, on the side of `x`.
pub open spec fn slowed(x: int, w: int) -> bool {
    (x >= 0 ==> 0 <= w <= x) && (x <= 0 ==> x <= w <= 0)
}

/// One component of a velocity after rolling resistance alone.
pub open spec fn rolled_component(x: int, speed: int, mass: int, dt: int) -> int {
    let direction = mul_div(x, SCALE as int, speed);
    let force = scaled_mul(scaled_mul(sat(-direction), speed), ROLLING_RESISTANCE as int);
    sat(x + scaled_mul(scaled_div(force, mass), dt))
}

/// Rolling resistance slows one component of a velocity down and does not
/// turn it around.
pub proof fn lemma_rolled_component_slows(x: int, speed: int, mass: int, dt: int)
    requires
        magnitude(x) <= speed <= i64::MAX,
        speed > 0,
        0 < mass <= i64::MAX,
        0 <= dt <= i64::MAX,
        ROLLING_RESISTANCE * dt <= mass * SCALE,
    ensures
        slowed(x, rolled_component(x, speed, mass, dt)),
{
    let s: int = 1_000_000;
    let k: int = 800_000;
    let mx = magnitude(x);
    let d = mul_div(x, s, speed);
    lemma_mul_div_sign(x, s, speed);
    let md = magnitude(d);
    assert(mx * s <= speed * s) by (nonlinear_arith)
        requires
            mx <= speed,
            s == 1_000_000,
    ;
    assert(md <= s) by (nonlinear_arith)
        requires
            md * speed <= speed * s,
            speed > 0,
    ;
    let nd = sat(-d);
    assert(nd == -d);
    let s1 = scaled_mul(nd, speed);
    lemma_mul_div_sign(nd, speed, s);
    let ms1 = magnitude(s1);
    assert(ms1 <= mx) by (nonlinear_arith)
        requires
            ms1 * s <= md * speed,
            md * speed <= mx * s,
            s == 1_000_000,
    ;
    let f = scaled_mul(s1, k);
    lemma_mul_div_sign(s1, k, s);
    let mf = magnitude(f);
    let a = scaled_div(f, mass);
    lemma_mul_div_sign(f, s, mass);
    let ma = magnitude(a);
    let dv = scaled_mul(a, dt);
    lemma_mul_div_sign(a, dt, s);
    let mdv = magnitude(dv);
    assert(ma * mass <= mx * k) by (nonlinear_arith)
        requires
            ma * mass <= mf * s,
            mf * s <= ms1 * k,
            ms1 <= mx,
            k == 800_000,
    ;
    assert(mdv * s * mass <= mx * k * dt) by (nonlinear_arith)
        requires
            mdv * s <= ma * dt,
            ma * mass <= mx * k,
            mass > 0,
            dt >= 0,
            mdv >= 0,
            ma >= 0,
    ;
    assert(mdv <= mx) by (nonlinear_arith)
        requires
            mdv * s * mass <= mx * k * dt,
            k * dt <= mass * s,
            mass > 0,
            s == 1_000_000,
            mx >= 0,
            mdv >= 0,
    ;
}

/// Rolling resistance alone only slows a body down: with no other force,
/// and a tick short enough for the mass, every component of the velocity
/// after the tick lies between nothing and what it was. The body never
/// turns around.
pub proof fn law_rolling_resistance_only_slows(velocity: Vec3, mass: int, dt: int)
    requires
        velocity.spec_length() > 0,
        velocity.x > i64::MIN,
        velocity.y > i64::MIN,
        velocity.z > i64::MIN,
        0 < mass <= i64::MAX,
        0 <= dt <= i64::MAX,
        ROLLING_RESISTANCE * dt <= mass * SCALE,
    ensures
        ({
            let after = accelerated(
                velocity,
                rolling(velocity.spec_normalize(), velocity.spec_length()),
                mass,
                dt,
            );
            &&& slowed(velocity.x as int, after.x as int)
            &&& slowed(velocity.y as int, after.y as int)
            &&& slowed(velocity.z as int, after.z as int)
        }),
{
    let speed = velocity.spec_length();
    let n = velocity.spec_norm_squared();
    assert(velocity.y * velocity.y >= 0) by (nonlinear_arith);
    assert(velocity.x * velocity.x >= 0) by (nonlinear_arith);
    assert(velocity.z * velocity.z >= 0) by (nonlinear_arith);
    lemma_isqrt_reaches(n, velocity.x as int);
    lemma_isqrt_reaches(n, velocity.y as int);
    lemma_isqrt_reaches(n, velocity.z as int);
    lemma_rolled_component_slows(velocity.x as int, speed, mass, dt);
    lemma_rolled_component_slows(velocity.y as int, speed, mass, dt);
    lemma_rolled_component_slows(velocity.z as int, speed, mass, dt);
    let after = accelerated(velocity, rolling(velocity.spec_normalize(), speed), mass, dt);
    assert(after.x == rolled_component(velocity.x as int, speed, mass, dt));
    assert(after.y == rolled_component(velocity.y as int, speed, mass, dt));
    assert(after.z == rolled_component(velocity.z as int, speed, mass, dt));
}

/// The pressure that a body meets has no jump at the tropopause: at that
/// height, wherever the body is and whatever the weather at the surface
/// below it, the pressure is what the barometric formula reaches there over
/// that surface.
pub proof fn law_air_continuous_at_tropopause(
    position: GlobalPosition,
    meta: WeatherMeta,
    temperature: Temperature,
    pressure: Pressure,
)
    requires
        spec_altitude(position.y as int) == TROPOPAUSE,
    ensures
        air_at(position, meta, temperature, pressure).1 == troposphere_pressure(
            sample_or(
                spec_lat(position.x as int),
                spec_lon(position.z as int),
                meta,
                pressure.0@,
                DEFAULT_SURFACE_PRESSURE as int,
            ),
            TROPOPAUSE as int,
            spec_celsius_to_kelvin(
                sample_or(
                    spec_lat(position.x as int),
                    spec_lon(position.z as int),
                    meta,
                    temperature.0@,
                    DEFAULT_SURFACE_TEMP as int,
                ),
            ),
        ),
{
    let lat = spec_lat(position.x as int);
    let lon = spec_lon(position.z as int);
    law_pressure_continuous_at_tropopause(
        sample_or(lat, lon, meta, pressure.0@, DEFAULT_SURFACE_PRESSURE as int),
        sample_or(lat, lon, meta, temperature.0@, DEFAULT_SURFACE_TEMP as int),
        0,
    );
}

/// A level body has the world's `x` axis as its forward axis and the
/// world's `y` axis as its up axis.
pub proof fn lemma_level_axes(transform: Transform)
    requires
        transform.rotation == Quat::spec_identity(),
    ensures
        transform.spec_forward() == (Vec3 { x: SCALE, y: 0, z: 0 }),
        transform.spec_up() == (Vec3 { x: 0, y: SCALE, z: 0 }),
{
    law_identity_turns_nothing(Vec3 { x: SCALE, y: 0, z: 0 });
    law_identity_turns_nothing(Vec3 { x: 0, y: SCALE, z: 0 });
}

/// An engine without thrust pushes nothing.
pub proof fn lemma_no_thrust_no_force(engine: Engine, transform: Transform)
    requires
        engine.current_thrust == 0,
    ensures
        engine.spec_thrust_vector(transform) == Vec3::spec_zero(),
{
    let dir = transform.rotation.spec_then_after(engine.direction).spec_rotate(
        Vec3 { x: SCALE, y: 0, z: 0 },
    );
    lemma_scale_basics(dir, 0);
}

/// The rolling resistance on a body that moves along the world's `x` axis
/// in the positive sense: `0.8` times its speed, against it.
pub proof fn lemma_rolling_along_x(x: i64)
    requires
        x > 0,
    ensures
        rolling(Vec3 { x: SCALE, y: 0, z: 0 }, x as int) == (Vec3 {
            x: (-scaled_mul(x as int, ROLLING_RESISTANCE as int)) as i64,
            y: 0,
            z: 0,
        }),
        0 <= scaled_mul(x as int, ROLLING_RESISTANCE as int) <= x,
{
    let dir = Vec3 { x: SCALE, y: 0, z: 0 };
    let back = dir.spec_neg();
    assert(back == (Vec3 { x: -1_000_000i64, y: 0, z: 0 }));
    lemma_mul_div_cancel(-x, SCALE as int);
    assert((-SCALE) * x == (-x) * SCALE) by (nonlinear_arith);
    lemma_mul_div_zero(x as int, SCALE as int);
    let pushed = back.spec_scale(x as int);
    assert(pushed == (Vec3 { x: (-x) as i64, y: 0, z: 0 }));
    lemma_mul_div_zero(ROLLING_RESISTANCE as int, SCALE as int);
    lemma_mul_div_shrinks(x as int, ROLLING_RESISTANCE as int, SCALE as int);
    lemma_mul_div_sign(x as int, ROLLING_RESISTANCE as int, SCALE as int);
    assert((-x) * ROLLING_RESISTANCE == -(x * ROLLING_RESISTANCE)) by (nonlinear_arith);
    assert(x * ROLLING_RESISTANCE >= 0) by (nonlinear_arith)
        requires
            x > 0,
            ROLLING_RESISTANCE == 800_000,
    ;
    assert(scaled_mul(-x, ROLLING_RESISTANCE as int) == -scaled_mul(
        x as int,
        ROLLING_RESISTANCE as int,
    ));
}

/// The change of a speed under a force against it: not more than the speed,
/// where force times tick is no more than mass times speed.
pub proof fn lemma_push_back_bounded(x: int, force: int, mass: int, dt: int)
    requires
        0 <= x <= i64::MAX,
        i64::MIN <= force <= 0,
        0 < mass <= i64::MAX,
        0 <= dt <= i64::MAX,
        (-force) * dt <= mass * x,
    ensures
        -x <= scaled_mul(scaled_div(force, mass), dt) <= 0,
{
    let s = SCALE as int;
    let a = scaled_div(force, mass);
    lemma_mul_div_sign(force, s, mass);
    let dv = scaled_mul(a, dt);
    lemma_mul_div_sign(a, dt, s);
    let ma = magnitude(a);
    let mdv = magnitude(dv);
    let mf = -force;
    assert(mdv * s * mass <= mf * s * dt) by (nonlinear_arith)
        requires
            mdv * s <= ma * dt,
            ma * mass <= mf * s,
            mass > 0,
            dt >= 0,
            mdv >= 0,
            ma >= 0,
            s == 1_000_000,
    ;
    assert(mdv <= x) by (nonlinear_arith)
        requires
            mdv * s * mass <= mf * s * dt,
            mf * dt <= mass * x,
            mass > 0,
            s == 1_000_000,
            x >= 0,
            mdv >= 0,
    ;
}

/// What the rolling resistance alone takes off the speed `x` of a mass in a
/// tick: `0.8 * x / mass * dt`, rounded toward zero at each step.
pub open spec fn roll_loss(x: int, mass: int, dt: int) -> int {
    scaled_mul(scaled_div(scaled_mul(x, ROLLING_RESISTANCE as int), mass), dt)
}

/// A roll along the ground without thrust and brakes only slows a body
/// down.
///
/// The body is level and rolls along its forward axis in the positive
/// sense, the engine gives no thrust and the brakes are off. Drag, rolling
/// resistance, lift and weight act on it. Where the lift does not exceed
/// the weight, and the tick is short enough for drag and rolling resistance
/// not to stop the body within it, the body stays on the ground, keeps its
/// direction, and is no faster after the tick than before: it never turns
/// around. It is slower after the tick wherever the rolling resistance
/// alone takes a millionth of a metre per second or more off its speed.
pub proof fn law_ground_roll_only_slows(
    x: i64,
    transform: Transform,
    engine: Engine,
    brake: BrakeForce,
    area: i64,
    wing_area: i64,
    mass: i64,
    air: (i64, i64),
    dt: i64,
)
    requires
        x > 0,
        transform.rotation == Quat::spec_identity(),
        engine.current_thrust == 0,
        !brake.1,
        area >= 0,
        air.1 >= 0,
        mass > 0,
        dt >= 0,
        (magnitude(spec_drag_force(area as int, Vec3 { x, y: 0, z: 0 }, air.0 as int, air.1 as int).x as int)
            + scaled_mul(x as int, ROLLING_RESISTANCE as int)) * dt <= mass * x,
        spec_lift_force(
            Vec3 { x: SCALE, y: 0, z: 0 },
            Vec3 { x, y: 0, z: 0 },
            Vec3 { x: 0, y: SCALE, z: 0 },
            spec_air_density(air.1 as int, air.0 as int),
            wing_area as int,
        ).y <= scaled_mul(mass as int, GRAVITY as int),
    ensures
        ({
            let after = grounded_velocity(
                Vec3 { x, y: 0, z: 0 },
                transform,
                engine,
                brake,
                area as int,
                wing_area as int,
                mass as int,
                (air.0 as int, air.1 as int),
                dt as int,
            );
            &&& 0 <= after.x <= x
            &&& after.y == 0
            &&& after.z == 0
            &&& !takes_off(after)
            &&& roll_loss(x as int, mass as int, dt as int) >= 1 ==> after.x < x
        }),
{
    let v = Vec3 { x, y: 0, z: 0 };
    let fwd = Vec3 { x: SCALE, y: 0, z: 0 };
    let up = Vec3 { x: 0, y: SCALE, z: 0 };
    let a = (air.0 as int, air.1 as int);
    lemma_level_axes(transform);
    lemma_no_thrust_no_force(engine, transform);
    lemma_along_x(x);
    lemma_along_x(SCALE);
    lemma_along_y(SCALE);

    // the forces, one by one
    let thrust = engine.spec_thrust_vector(transform);
    let drag = spec_drag_force(area as int, v, a.0, a.1);
    law_drag_opposes_velocity(area as int, v, a.0, a.1);
    assert(drag.y == 0 && drag.z == 0 && drag.x <= 0);
    let lift = spec_lift_force(fwd, v, up, spec_air_density(a.1, a.0), wing_area as int);
    let lift_mag = lift_magnitude(
        spec_air_density(a.1, a.0),
        v.spec_project_onto(fwd).spec_length(),
        wing_area as int,
        lift_coefficient(spec_angle_of_attack(fwd, v, up)),
    );
    lemma_scale_basics(up, lift_mag as i64);
    assert(lift.x == 0 && lift.z == 0);
    let dir = ground_direction(v, fwd);
    assert(dir == fwd);
    lemma_rolling_along_x(x);
    let roll = rolling(dir, v.spec_length());
    let r = scaled_mul(x as int, ROLLING_RESISTANCE as int);
    assert(roll == (Vec3 { x: (-r) as i64, y: 0, z: 0 }));
    lemma_mul_div_sign(mass as int, GRAVITY as int, SCALE as int);
    let weight = scaled_mul(mass as int, GRAVITY as int);
    let gravity = gravity_force(mass as int);
    assert(gravity == (Vec3 { x: 0, y: (-weight) as i64, z: 0 }));

    // their sum
    let f = flight_forces(v, transform, engine, area as int, wing_area as int, a);
    assert(f.0 == thrust && f.1 == drag && f.2 == lift);
    let total = grounded_force(v, transform, engine, brake, area as int, wing_area as int, mass as int, a);
    assert(braking(brake, dir) == Vec3::spec_zero());
    assert(total.x == sat(drag.x + (-r)));
    assert(total.y == sat(lift.y - weight));
    assert(total.z == 0);
    assert(total.y <= 0);
    assert(magnitude(total.x as int) <= magnitude(drag.x as int) + r);

    // what they do to the velocity
    assert((-(total.x as int)) * dt <= mass * x) by (nonlinear_arith)
        requires
            0 <= -(total.x as int) <= magnitude(drag.x as int) + r,
            (magnitude(drag.x as int) + r) * dt <= mass * x,
            dt >= 0,
    ;
    lemma_push_back_bounded(x as int, total.x as int, mass as int, dt as int);
    // no less than what the rolling resistance alone takes off
    let alone = scaled_div(r, mass as int);
    let with_drag = scaled_div(total.x as int, mass as int);
    lemma_mul_div_monotone(total.x as int, -r, SCALE as int, mass as int);
    lemma_mul_div_negated(r, SCALE as int, mass as int);
    assert(with_drag <= -alone);
    lemma_mul_div_monotone(with_drag, -alone, dt as int, SCALE as int);
    lemma_mul_div_negated(alone, dt as int, SCALE as int);
    assert(scaled_mul(with_drag, dt as int) <= -roll_loss(x as int, mass as int, dt as int));
    lemma_mul_div_sign(total.y as int, SCALE as int, mass as int);
    lemma_mul_div_sign(scaled_div(total.y as int, mass as int), dt as int, SCALE as int);
    lemma_mul_div_zero(SCALE as int, mass as int);
    lemma_mul_div_zero(dt as int, SCALE as int);
    let pushed = accelerated(v, total, mass as int, dt as int);
    assert(0 <= pushed.x <= x);
    assert(pushed.y <= 0);
    assert(pushed.z == 0);

    // and what the ground leaves of it
    lemma_mul_div_cancel(pushed.x as int, SCALE as int);
    lemma_mul_div_zero(pushed.y as int, SCALE as int);
    lemma_mul_div_zero(pushed.z as int, SCALE as int);
    assert(pushed.spec_dot(fwd) == pushed.x);
    lemma_scale_basics(fwd, pushed.x);
}

/// A level body at rest on the ground, without thrust and brakes, stays at
/// rest: so a roll that has come to its end does not begin anew, and over
/// any number of ticks the body never rolls backward.
pub proof fn law_rest_stays_at_rest(
    transform: Transform,
    engine: Engine,
    brake: BrakeForce,
    area: i64,
    wing_area: i64,
    mass: i64,
    air: (i64, i64),
    dt: i64,
)
    requires
        transform.rotation == Quat::spec_identity(),
        engine.current_thrust == 0,
        !brake.1,
        mass > 0,
        dt >= 0,
    ensures
        grounded_velocity(
            Vec3::spec_zero(),
            transform,
            engine,
            brake,
            area as int,
            wing_area as int,
            mass as int,
            (air.0 as int, air.1 as int),
            dt as int,
        ) == Vec3::spec_zero(),
{
    let v = Vec3::spec_zero();
    let fwd = Vec3 { x: SCALE, y: 0, z: 0 };
    let up = Vec3 { x: 0, y: SCALE, z: 0 };
    let a = (air.0 as int, air.1 as int);
    lemma_level_axes(transform);
    lemma_no_thrust_no_force(engine, transform);
    lemma_along_x(SCALE);
    assert(is_sqrt(0, 0));
    lemma_isqrt_is(0, 0);
    assert(v.spec_length() == 0);
    lemma_mul_div_zero(SCALE as int, SCALE as int);
    lemma_mul_div_zero(0, SCALE as int);
    assert(v.spec_dot(fwd) == 0);
    lemma_mul_div_cancel(SCALE as int, SCALE as int);
    assert(fwd.spec_dot(fwd) == SCALE);
    lemma_scale_basics(fwd, 0);
    assert(v.spec_project_onto(fwd) == Vec3::spec_zero());
    let drag = spec_drag_force(area as int, v, a.0, a.1);
    assert(drag == Vec3::spec_zero());
    let lift = spec_lift_force(fwd, v, up, spec_air_density(a.1, a.0), wing_area as int);
    assert(lift == Vec3::spec_zero());
    let dir = ground_direction(v, fwd);
    assert(dir == fwd);
    let back = dir.spec_neg();
    lemma_scale_basics(back, 0);
    lemma_scale_basics(Vec3::spec_zero(), ROLLING_RESISTANCE);
    assert(rolling(dir, 0) == Vec3::spec_zero());
    lemma_mul_div_sign(mass as int, GRAVITY as int, SCALE as int);
    let weight = scaled_mul(mass as int, GRAVITY as int);
    let total = grounded_force(v, transform, engine, brake, area as int, wing_area as int, mass as int, a);
    assert(total == (Vec3 { x: 0, y: (-weight) as i64, z: 0 }));
    lemma_mul_div_sign(total.y as int, SCALE as int, mass as int);
    lemma_mul_div_sign(scaled_div(total.y as int, mass as int), dt as int, SCALE as int);
    lemma_mul_div_zero(SCALE as int, mass as int);
    lemma_mul_div_zero(dt as int, SCALE as int);
    let pushed = accelerated(v, total, mass as int, dt as int);
    assert(pushed.x == 0 && pushed.z == 0 && pushed.y <= 0);
    lemma_mul_div_zero(pushed.y as int, SCALE as int);
    assert(pushed.spec_dot(fwd) == 0);
}

/// A body on the ground never sinks: whatever the forces, its velocity after
/// a tick does not point downward.
pub proof fn law_grounded_never_sinks(velocity: Vec3, forward: Vec3)
    ensures
        held_to_ground(velocity, forward).y >= 0,
{
}

/// A velocity that is held to the ground either takes the body off or has
/// no vertical part at all.
pub proof fn law_take_off_or_level(velocity: Vec3, forward: Vec3)
    ensures
        takes_off(held_to_ground(velocity, forward)) || held_to_ground(velocity, forward).y == 0,
{
}

} // verus!
