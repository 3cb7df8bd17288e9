//! One tick of the flight model for one aircraft: the steps of the model in
//! their order.
use crate::control_surfaces::{
    apply_angular_damping, commanded_rates, damping_factor, update_angular_projectile_velocity,
    AngularVelocity,
};
use crate::controls::{pedal_input, spec_pedal_input, Joystick, KeyState, Throttle};
use crate::cross_section::{update_cross_section, AreaCache, CrossSectionArea, Triangle};
use crate::engine::{update_engine_thrust, Engine};
use crate::fixed::{fx_mul, lemma_mul_div_sign, sat, scaled_mul, SCALE};
use crate::lift::CF104_WING_AREA;
use crate::mass::{
    all_wf, fuel_step, throttled_all, update_fuel_mass_system, update_tank_flow_rate, weights_sum,
    ExternalFuelTankBundle, InternalFuelTankBundle, Mass, MassBundle, MassComponent, MassData,
};
use crate::projectile::{
    accelerated, air_at, airborne_force, grounded_velocity, takes_off, update_grounded_turn,
    update_grounded_velocity, update_projectile_velocity, update_transform, BrakeForce,
    GForceCache, Grounded, GroundedBundle, PlaneBundle, ProjectilePlugin, SteeringWheel, Velocity,
    WingArea,
};
use crate::rotation::Transform;
use crate::vector::Vec3;
use crate::weather::{Pressure, Temperature, WeatherMeta};
use crate::world::{GlobalPosition, MovingOrigin};
use vstd::prelude::*;

verus! {

/// An aircraft: what makes it up, where it is drawn, and what it has while
/// it stands on the ground.
#[derive(Debug)]
pub struct Plane {
    pub bundle: PlaneBundle,
    pub transform: Transform,
    /// The tag of a body on the ground; an airborne aircraft has none.
    pub grounded: Option<Grounded>,
    pub brake_force: BrakeForce,
    pub turn_radius: SteeringWheel,
}

/// What the pilot does in a tick.
#[derive(Clone, Copy, Debug, PartialEq, Eq, Structural)]
pub struct ControlInput {
    /// The throttle, a fraction between 0 and 1.
    pub throttle: Throttle,
    /// The stick, each axis between -1 and 1.
    pub joystick: Joystick,
    pub left_pedal: KeyState,
    pub right_pedal: KeyState,
    /// Whether the brakes are on.
    pub brake: bool,
}

/// The weather that the flight model reads.
#[derive(Debug)]
pub struct Weather {
    pub meta: WeatherMeta,
    pub temperature: Temperature,
    pub pressure: Pressure,
}

/// What the internal tank of the aircraft holds when full, in kg.
pub const CF104_INTERNAL_FUEL: i64 = 2_608_000_000;

/// What one tip tank of the aircraft holds when full, in kg.
pub const CF104_TIP_TANK: i64 = 454_000_000;

/// The index, among the records of the aircraft, of its internal tank.
pub const CF104_INTERNAL_TANK: usize = 1;

/// The records that make up the mass of the aircraft as it is spawned: the
/// empty airframe, a full internal tank, a store and, where it carries tip
/// tanks, two of them, each filled to `tip_fuel_tanks` of what it holds and
/// each feeding the internal tank.
pub open spec fn cf104_records(tip_fuel_tanks: Option<i64>) -> Seq<MassComponent> {
    let fixed = seq![
        MassComponent::Fixed(MassBundle { mass_data: MassData { weight: 6_300_000_000 } }),
        MassComponent::Internal(InternalFuelTankBundle::spec_new(CF104_INTERNAL_FUEL)),
        MassComponent::Fixed(MassBundle { mass_data: MassData { weight: 226_796_200 } }),
    ];
    match tip_fuel_tanks {
        Some(level) => {
            let tip = MassComponent::External(
                ExternalFuelTankBundle::spec_new(
                    scaled_mul(CF104_TIP_TANK as int, level as int) as i64,
                    CF104_INTERNAL_TANK,
                ),
            );
            fixed.push(tip).push(tip)
        },
        None => fixed,
    }
}

impl Plane {
    /// The aircraft as it is spawned: on the ground at `transform`, at rest,
    /// with a cold engine, its brakes off and its nose wheel straight, and
    /// with the records of [`cf104_records`]. Its position in the world is
    /// its position in render space.
    pub fn cf104(transform: Transform, tip_fuel_tanks: Option<i64>) -> (r: Plane)
        ensures
            r.transform == transform,
            r.grounded == Some(Grounded),
            r.brake_force == BrakeForce(8_000_000_000, false),
            r.turn_radius == (SteeringWheel {
                max_angle: 785_398,
                input_dir: 0,
                current_angle: 0,
                delta_speed: 2_000_000,
            }),
            r.bundle.mass.components@ == cf104_records(tip_fuel_tanks),
            (tip_fuel_tanks matches Some(level) ==> level >= 0) ==> all_wf(r.bundle.mass.components@),
            r.bundle.position == (GlobalPosition {
                x: transform.translation.x,
                y: transform.translation.y,
                z: transform.translation.z,
            }),
            r.bundle.velocity == Velocity(Vec3::spec_zero()),
            r.bundle.angular_velocity == AngularVelocity(Vec3::spec_zero()),
            r.bundle.net_force == (GForceCache { net_force: Vec3::spec_zero(), mass: 0 }),
            r.bundle.wing_area == WingArea(CF104_WING_AREA),
            r.bundle.engine == Engine::spec_cf104(),
            r.bundle.cross_section_area == (CrossSectionArea { cache: AreaCache::Empty, area: 0 }),
    {
        let mut bundle = PlaneBundle::cf_104(transform.translation);
        let mut components: Vec<MassComponent> = Vec::new();
        components.push(MassComponent::Fixed(MassBundle::empty_cf_104()));
        components.push(MassComponent::Internal(InternalFuelTankBundle::new(CF104_INTERNAL_FUEL)));
        components.push(MassComponent::Fixed(MassBundle::nuke()));
        match tip_fuel_tanks {
            Some(level) => {
                let held: i64 = fx_mul(CF104_TIP_TANK, level);
                components.push(
                    MassComponent::External(ExternalFuelTankBundle::new(held, CF104_INTERNAL_TANK)),
                );
                components.push(
                    MassComponent::External(ExternalFuelTankBundle::new(held, CF104_INTERNAL_TANK)),
                );
                proof {
                    lemma_mul_div_sign(CF104_TIP_TANK as int, level as int, SCALE as int);
                }
            },
            None => {},
        }
        assert(components@ =~= cf104_records(tip_fuel_tanks));
        proof {
            if tip_fuel_tanks matches Some(level) ==> level >= 0 {
                assert forall|i: int| 0 <= i < components@.len() implies (#[trigger] components@[i]).wf() by {
                    if i == 0 {
                    } else if i == 1 {
                    } else if i == 2 {
                    } else if i == 3 {
                    } else {
                    }
                }
            }
        }
        bundle.mass = Mass { components };
        let ground = GroundedBundle::cf_104();
        Plane {
            bundle,
            transform,
            grounded: Some(ground.grounded),
            brake_force: ground.brake_force,
            turn_radius: ground.turn_radius,
        }
    }

    /// The brakes as the pilot sets them.
    pub open spec fn brakes(self, input: ControlInput) -> BrakeForce {
        BrakeForce(self.brake_force.0, input.brake)
    }

    /// The nose wheel with what the pedals ask of it.
    pub open spec fn steering(self, input: ControlInput) -> SteeringWheel {
        SteeringWheel {
            input_dir: spec_pedal_input(input.left_pedal, input.right_pedal) as i64,
            ..self.turn_radius
        }
    }

    /// The angular velocity after the tick: set from the controls in the
    /// air, left alone on the ground, and damped in either case.
    pub open spec fn next_angular_velocity(self, input: ControlInput, dt: int) -> Vec3 {
        let speed = self.bundle.velocity.0.spec_length();
        let commanded = if self.grounded.is_none() {
            commanded_rates(
                input.joystick,
                spec_pedal_input(input.left_pedal, input.right_pedal),
                speed,
            )
        } else {
            self.bundle.angular_velocity.0
        };
        commanded.spec_scale(damping_factor(speed, dt))
    }

    /// The nose wheel after the tick: turned on the ground, left alone in
    /// the air.
    pub open spec fn next_wheel(self, input: ControlInput, dt: int) -> SteeringWheel {
        if self.grounded.is_some() {
            self.steering(input).turned(self.bundle.velocity.0.spec_length(), dt)
        } else {
            self.steering(input)
        }
    }

    /// The transform after steering, before the body moves.
    pub open spec fn steered_transform(self, input: ControlInput, dt: int) -> Transform {
        if self.grounded.is_some() {
            self.transform.steered(self.steering(input), self.bundle.velocity.0.spec_length(), dt)
        } else {
            self.transform
        }
    }

    /// The velocity after the tick.
    pub open spec fn next_velocity(
        self,
        input: ControlInput,
        weather: Weather,
        triangles: Seq<Triangle>,
        dt: int,
    ) -> Vec3 {
        let v = self.bundle.velocity.0;
        let transform = self.steered_transform(input, dt);
        let engine = self.bundle.engine.ticked(input.throttle.0 as int, dt);
        let area = self.bundle.cross_section_area.updated(
            v,
            self.transform.spec_forward(),
            triangles,
        ).area as int;
        let mass = sat(
            weights_sum(
                fuel_step(throttled_all(self.bundle.mass.components@, input.throttle.0 as int), dt),
            ),
        );
        let air = air_at(self.bundle.position, weather.meta, weather.temperature, weather.pressure);
        if self.grounded.is_some() {
            grounded_velocity(
                v,
                transform,
                engine,
                self.brakes(input),
                area,
                self.bundle.wing_area.0 as int,
                mass,
                air,
                dt,
            )
        } else {
            accelerated(
                v,
                airborne_force(v, transform, engine, area, self.bundle.wing_area.0 as int, mass, air),
                mass,
                dt,
            )
        }
    }

    /// What is recorded of the forces after the tick: in the air the sum of
    /// the forces of the tick and the mass that they moved; on the ground
    /// what was recorded before.
    pub open spec fn next_net_force(
        self,
        input: ControlInput,
        weather: Weather,
        triangles: Seq<Triangle>,
        dt: int,
    ) -> GForceCache {
        if self.grounded.is_some() {
            self.bundle.net_force
        } else {
            let engine = self.bundle.engine.ticked(input.throttle.0 as int, dt);
            let area = self.bundle.cross_section_area.updated(
                self.bundle.velocity.0,
                self.transform.spec_forward(),
                triangles,
            ).area as int;
            let mass = sat(
                weights_sum(
                    fuel_step(
                        throttled_all(self.bundle.mass.components@, input.throttle.0 as int),
                        dt,
                    ),
                ),
            );
            let air = air_at(
                self.bundle.position,
                weather.meta,
                weather.temperature,
                weather.pressure,
            );
            GForceCache {
                net_force: airborne_force(
                    self.bundle.velocity.0,
                    self.transform,
                    engine,
                    area,
                    self.bundle.wing_area.0 as int,
                    mass,
                    air,
                ),
                mass: mass as i64,
            }
        }
    }

    /// The aircraft takes off in this tick.
    pub open spec fn lifts_off(self, input: ControlInput, weather: Weather, triangles: Seq<Triangle>, dt: int) -> bool {
        self.grounded.is_some() && takes_off(self.next_velocity(input, weather, triangles, dt))
    }
}

impl ProjectilePlugin {
    /// Advances one aircraft by one tick of `dt` seconds.
    ///
    /// The brakes and the nose wheel are set as the pilot asks, the nose
    /// wheel by the pedals. Then, in this order: the frontal area is brought
    /// up to date; the throttle
    /// is read into the tanks; fuel flows; the engine spools; in the air the
    /// controls set the angular velocity; the angular velocity is damped; on
    /// the ground the nose wheel steers; the velocity changes, in the air or
    /// on the ground, and an aircraft on the ground may take off; position
    /// and orientation move on, the orientation as this schedule is set up.
    ///
    /// An aircraft that is on the ground at the start of the tick is moved
    /// as a body on the ground for the whole tick, also where it takes off
    /// in it. `entity` is the number under which the aircraft becomes the
    /// moving origin when it takes off.
    pub fn update(
        &self,
        dt: i64,
        entity: usize,
        input: &ControlInput,
        weather: &Weather,
        triangles: &Vec<Triangle>,
        origin: &mut MovingOrigin,
        plane: &mut Plane,
    )
        requires
            weather.meta.wf(),
        ensures
            ({
                let before = *old(plane);
                let after = *final(plane);
                let v = before.next_velocity(*input, *weather, triangles@, dt as int);
                let lifts = before.lifts_off(*input, *weather, triangles@, dt as int);
                let steered = before.steered_transform(*input, dt as int);
                let origin_after = if lifts {
                    MovingOrigin(Some(entity))
                } else {
                    *old(origin)
                };
                let resynced = if lifts {
                    GlobalPosition {
                        x: steered.translation.x,
                        y: steered.translation.y,
                        z: steered.translation.z,
                    }
                } else {
                    before.bundle.position
                };
                &&& after.bundle.cross_section_area == before.bundle.cross_section_area.updated(
                    before.bundle.velocity.0,
                    before.transform.spec_forward(),
                    triangles@,
                )
                &&& after.bundle.mass.components@ == fuel_step(
                    throttled_all(before.bundle.mass.components@, input.throttle.0 as int),
                    dt as int,
                )
                &&& after.bundle.engine == before.bundle.engine.ticked(input.throttle.0 as int, dt as int)
                &&& after.bundle.angular_velocity.0 == before.next_angular_velocity(*input, dt as int)
                &&& after.turn_radius == before.next_wheel(*input, dt as int)
                &&& after.brake_force == before.brakes(*input)
                &&& after.bundle.wing_area == before.bundle.wing_area
                &&& after.bundle.net_force == before.next_net_force(
                    *input,
                    *weather,
                    triangles@,
                    dt as int,
                )
                &&& after.bundle.velocity.0 == v
                &&& after.grounded == (if lifts {
                    None
                } else {
                    before.grounded
                })
                &&& *final(origin) == origin_after
                &&& after.bundle.position == resynced.spec_moved(v.spec_scale(dt as int))
                &&& after.transform == steered.advanced(
                    origin_after,
                    self.angular_integration,
                    v,
                    after.bundle.angular_velocity.0,
                    dt as int,
                )
            }),
    {
        plane.brake_force = BrakeForce(plane.brake_force.0, input.brake);
        plane.turn_radius.input_dir = pedal_input(input.left_pedal, input.right_pedal);
        let forward = plane.transform.forward();
        let speed_vector = plane.bundle.velocity.0;
        let mut cross_section: CrossSectionArea = plane.bundle.cross_section_area;
        update_cross_section(&speed_vector, &forward, triangles, &mut cross_section);
        plane.bundle.cross_section_area = cross_section;

        update_tank_flow_rate(input.throttle.0, &mut plane.bundle.mass);
        update_fuel_mass_system(dt, &mut plane.bundle.mass);

        let mut engine: Engine = plane.bundle.engine;
        update_engine_thrust(dt, input.throttle.0, &mut engine);
        plane.bundle.engine = engine;

        let mut ang_vel: AngularVelocity = plane.bundle.angular_velocity;
        if plane.grounded.is_none() {
            update_angular_projectile_velocity(
                &input.joystick,
                input.left_pedal,
                input.right_pedal,
                &speed_vector,
                &mut ang_vel,
            );
        }
        apply_angular_damping(dt, &speed_vector, &mut ang_vel);
        plane.bundle.angular_velocity = ang_vel;

        let mut transform: Transform = plane.transform;
        let mut velocity: Velocity = plane.bundle.velocity;
        let mut position: GlobalPosition = plane.bundle.position;
        let mut grounded: Option<Grounded> = plane.grounded;
        if grounded.is_some() {
            let mut wheel: SteeringWheel = plane.turn_radius;
            update_grounded_turn(dt, &speed_vector, &mut transform, &mut wheel);
            plane.turn_radius = wheel;
            update_grounded_velocity(
                dt,
                entity,
                origin,
                &weather.meta,
                &weather.temperature,
                &weather.pressure,
                &mut grounded,
                &mut velocity,
                &plane.brake_force,
                &transform,
                &mut position,
                &plane.bundle.mass,
                &cross_section,
                &plane.bundle.wing_area,
                &engine,
            );
        } else {
            let mut cache: GForceCache = plane.bundle.net_force;
            update_projectile_velocity(
                dt,
                &weather.meta,
                &weather.temperature,
                &weather.pressure,
                &mut velocity,
                &mut cache,
                &position,
                &transform,
                &plane.bundle.mass,
                &cross_section,
                &plane.bundle.wing_area,
                &engine,
            );
            plane.bundle.net_force = cache;
        }
        update_transform(
            dt,
            origin,
            self.angular_integration,
            &mut transform,
            &mut position,
            &velocity,
            &ang_vel,
        );
        plane.transform = transform;
        plane.bundle.velocity = velocity;
        plane.bundle.position = position;
        plane.grounded = grounded;
    }
}

} // verus!
