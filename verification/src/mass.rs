//! The mass of a vehicle: the records that contribute to it, the fuel tanks
//! among them, and the flow of fuel between tanks.
use crate::fixed::{clamp_to_i64, fx_add, fx_max, fx_min, fx_mul, fx_sub, max2, min2, sat, scaled_mul};
use vstd::prelude::*;

verus! {

/// Throttle above which the tanks are switched on: one ten-thousandth.
pub const TANK_ACTIVATION_THROTTLE: i64 = 100;

/// Flow rate at or below which an active tank moves no fuel, in kg/s.
pub const MIN_FLOW_RATE: i64 = 10;

/// The weight of one record, in millionths of a kilogram.
#[derive(Clone, Copy, Debug, PartialEq, Eq, Structural)]
pub struct MassData {
    pub weight: i64,
}

/// Marks a tank that feeds another tank instead of the engine.
#[derive(Clone, Copy, Debug, PartialEq, Eq, Structural)]
pub struct ExternalTank;

/// A fuel tank. Its content is the weight of the record that it belongs to.
#[derive(Clone, Copy, Debug, PartialEq, Eq)]
pub struct Tank {
    pub max_capacity: i64,
    pub active: bool,
    /// Flow rate at idle and at full throttle, in kg/s.
    pub flow_rates: (i64, i64),
    pub flow_rate: i64,
    /// The index, among the records of the vehicle, of the tank that this
    /// one feeds; `None` for a tank that feeds the engine.
    pub target: Option<usize>,
}

/// A record without a tank: airframe, stores.
#[derive(Clone, Copy, Debug, PartialEq, Eq, Structural)]
pub struct MassBundle {
    pub mass_data: MassData,
}

/// An internal tank: it feeds the engine.
#[derive(Clone, Copy, Debug, PartialEq, Eq)]
pub struct InternalFuelTankBundle {
    pub mass_data: MassData,
    pub tank: Tank,
}

/// An external tank: it feeds an internal tank.
#[derive(Clone, Copy, Debug, PartialEq, Eq)]
pub struct ExternalFuelTankBundle {
    pub mass_data: MassData,
    pub tank: Tank,
    pub external: ExternalTank,
}

/// One record that contributes to the mass of a vehicle.
#[derive(Clone, Copy, Debug, PartialEq, Eq)]
pub enum MassComponent {
    Fixed(MassBundle),
    Internal(InternalFuelTankBundle),
    External(ExternalFuelTankBundle),
}

/// The records that make up the mass of one vehicle.
#[derive(Debug)]
pub struct Mass {
    pub components: Vec<MassComponent>,
}

/// The fuel that a tank with `flow_rate` moves in `dt` seconds; never
/// negative.
pub open spec fn flow_amount(flow_rate: int, dt: int) -> int {
    max2(0, scaled_mul(flow_rate, dt))
}

/// What an external tank hands over: the flow, limited by what it holds and
/// by the room left in the tank that it feeds.
pub open spec fn transfer_amount(flow: int, content: int, room: int) -> int {
    max2(0, min2(flow, min2(content, room)))
}

/// A tank moves fuel when it is switched on and its flow rate is above the
/// minimum.
pub open spec fn tank_flows(tank: Tank) -> bool {
    tank.active && tank.flow_rate > MIN_FLOW_RATE
}

/// The flow rate of a tank at `throttle`: interpolated between the rates at
/// idle and at full throttle.
pub open spec fn flow_rate_at(tank: Tank, throttle: int) -> int {
    sat(
        tank.flow_rates.0 + scaled_mul(throttle, sat(tank.flow_rates.1 - tank.flow_rates.0)),
    )
}

/// A tank after the throttle was read: switched on once the throttle is
/// above the activation threshold, its flow rate set for the throttle.
pub open spec fn throttled(tank: Tank, throttle: int) -> Tank {
    Tank {
        active: tank.active || throttle > TANK_ACTIVATION_THROTTLE,
        flow_rate: flow_rate_at(tank, throttle) as i64,
        ..tank
    }
}

impl MassData {
    pub fn new(weight: i64) -> (r: MassData)
        ensures
            r.weight == weight,
    {
        MassData { weight }
    }
}

impl MassBundle {
    /// The empty airframe: 6300 kg.
    pub fn empty_cf_104() -> (r: MassBundle)
        ensures
            r == (MassBundle { mass_data: MassData { weight: 6_300_000_000 } }),
    {
        MassBundle { mass_data: MassData::new(6_300_000_000) }
    }

    /// A store of 226.7962 kg.
    pub fn nuke() -> (r: MassBundle)
        ensures
            r == (MassBundle { mass_data: MassData { weight: 226_796_200 } }),
    {
        MassBundle { mass_data: MassData::new(226_796_200) }
    }
}

impl InternalFuelTankBundle {
    /// The content is between empty and full.
    pub open spec fn wf(&self) -> bool {
        0 <= self.mass_data.weight <= self.tank.max_capacity
    }

    /// The tank after `dt` seconds of feeding the engine: it loses its flow,
    /// at most what it holds.
    pub open spec fn burned(self, dt: int) -> InternalFuelTankBundle {
        if tank_flows(self.tank) {
            let used = max2(
                0,
                min2(flow_amount(self.tank.flow_rate as int, dt), self.mass_data.weight as int),
            );
            InternalFuelTankBundle {
                mass_data: MassData { weight: sat(self.mass_data.weight - used) as i64 },
                ..self
            }
        } else {
            self
        }
    }

    /// A full internal tank, switched off, with a flow between 0.1 kg/s at
    /// idle and 5 kg/s at full throttle.
    pub open spec fn spec_new(max_capacity: i64) -> InternalFuelTankBundle {
        InternalFuelTankBundle {
            mass_data: MassData { weight: max_capacity },
            tank: Tank {
                max_capacity,
                active: false,
                flow_rates: (100_000i64, 5_000_000i64),
                flow_rate: 0,
                target: None,
            },
        }
    }

    /// A full internal tank, switched off.
    pub fn new(max_capacity: i64) -> (r: InternalFuelTankBundle)
        ensures
            r == InternalFuelTankBundle::spec_new(max_capacity),
            max_capacity >= 0 ==> r.wf(),
    {
        InternalFuelTankBundle {
            mass_data: MassData::new(max_capacity),
            tank: Tank {
                max_capacity,
                active: false,
                flow_rates: (100_000, 5_000_000),
                flow_rate: 0,
                target: None,
            },
        }
    }

    /// Feeds the engine for `dt` seconds.
    pub fn burn(&self, dt: i64) -> (r: InternalFuelTankBundle)
        ensures
            r == self.burned(dt as int),
            self.wf() ==> r.wf() && r.mass_data.weight <= self.mass_data.weight,
    {
        if self.tank.active && self.tank.flow_rate > MIN_FLOW_RATE {
            let flow: i64 = fx_max(0, fx_mul(self.tank.flow_rate, dt));
            let used: i64 = fx_max(0, fx_min(flow, self.mass_data.weight));
            InternalFuelTankBundle {
                mass_data: MassData { weight: fx_sub(self.mass_data.weight, used) },
                tank: self.tank,
            }
        } else {
            *self
        }
    }
}

impl ExternalFuelTankBundle {
    /// The content is between empty and full.
    pub open spec fn wf(&self) -> bool {
        0 <= self.mass_data.weight <= self.tank.max_capacity
    }

    /// The fuel that this tank hands to `internal` in `dt` seconds.
    pub open spec fn handed_over(self, internal: InternalFuelTankBundle, dt: int) -> int {
        if tank_flows(self.tank) {
            transfer_amount(
                flow_amount(self.tank.flow_rate as int, dt),
                self.mass_data.weight as int,
                sat(internal.tank.max_capacity - internal.mass_data.weight),
            )
        } else {
            0
        }
    }

    /// This tank after it fed `internal` for `dt` seconds.
    pub open spec fn drained(self, internal: InternalFuelTankBundle, dt: int) -> ExternalFuelTankBundle {
        ExternalFuelTankBundle {
            mass_data: MassData {
                weight: sat(self.mass_data.weight - self.handed_over(internal, dt)) as i64,
            },
            ..self
        }
    }

    /// `internal` after this tank fed it for `dt` seconds.
    pub open spec fn filled(self, internal: InternalFuelTankBundle, dt: int) -> InternalFuelTankBundle {
        InternalFuelTankBundle {
            mass_data: MassData {
                weight: sat(internal.mass_data.weight + self.handed_over(internal, dt)) as i64,
            },
            ..internal
        }
    }

    /// A full external tank, switched off, with a flow between 0.1 kg/s at
    /// idle and 2.5 kg/s at full throttle, that feeds the record at index
    /// `internal_tank`.
    pub open spec fn spec_new(max_capacity: i64, internal_tank: usize) -> ExternalFuelTankBundle {
        ExternalFuelTankBundle {
            mass_data: MassData { weight: max_capacity },
            tank: Tank {
                max_capacity,
                active: false,
                flow_rates: (100_000i64, 2_500_000i64),
                flow_rate: 0,
                target: Some(internal_tank),
            },
            external: ExternalTank,
        }
    }

    /// A full external tank, switched off, that feeds the record at index
    /// `internal_tank`.
    pub fn new(max_capacity: i64, internal_tank: usize) -> (r: ExternalFuelTankBundle)
        ensures
            r == ExternalFuelTankBundle::spec_new(max_capacity, internal_tank),
            max_capacity >= 0 ==> r.wf(),
    {
        ExternalFuelTankBundle {
            mass_data: MassData::new(max_capacity),
            tank: Tank {
                max_capacity,
                active: false,
                flow_rates: (100_000, 2_500_000),
                flow_rate: 0,
                target: Some(internal_tank),
            },
            external: ExternalTank,
        }
    }

    /// Moves the fuel of `dt` seconds from this tank into `internal` and
    /// returns both tanks as they are afterwards.
    ///
    /// The amount is the flow of the tick, at most what this tank holds and
    /// at most the room left in `internal`. Between two tanks that are
    /// neither overfull nor below empty, what one loses the other gains, and
    /// both stay between empty and full.
    pub fn transfer(&self, internal: &InternalFuelTankBundle, dt: i64) -> (r: (
        ExternalFuelTankBundle,
        InternalFuelTankBundle,
    ))
        ensures
            r.0 == self.drained(*internal, dt as int),
            r.1 == self.filled(*internal, dt as int),
            self.wf() && internal.wf() ==> {
                &&& r.0.mass_data.weight + r.1.mass_data.weight == self.mass_data.weight
                    + internal.mass_data.weight
                &&& r.0.wf()
                &&& r.1.wf()
                &&& r.0.mass_data.weight <= self.mass_data.weight
                &&& r.1.mass_data.weight >= internal.mass_data.weight
            },
    {
        let amount: i64 = if self.tank.active && self.tank.flow_rate > MIN_FLOW_RATE {
            let flow: i64 = fx_max(0, fx_mul(self.tank.flow_rate, dt));
            let room: i64 = fx_sub(internal.tank.max_capacity, internal.mass_data.weight);
            fx_max(0, fx_min(flow, fx_min(self.mass_data.weight, room)))
        } else {
            0
        };
        (
            ExternalFuelTankBundle {
                mass_data: MassData { weight: fx_sub(self.mass_data.weight, amount) },
                tank: self.tank,
                external: self.external,
            },
            InternalFuelTankBundle {
                mass_data: MassData { weight: fx_add(internal.mass_data.weight, amount) },
                tank: internal.tank,
            },
        )
    }
}

impl MassComponent {
    /// The weight of the record.
    pub open spec fn weight(self) -> int {
        match self {
            MassComponent::Fixed(b) => b.mass_data.weight as int,
            MassComponent::Internal(b) => b.mass_data.weight as int,
            MassComponent::External(b) => b.mass_data.weight as int,
        }
    }

    /// A tank holds between nothing and its capacity.
    pub open spec fn wf(self) -> bool {
        match self {
            MassComponent::Fixed(_) => true,
            MassComponent::Internal(b) => b.wf(),
            MassComponent::External(b) => b.wf(),
        }
    }

    /// The record after the throttle was read.
    pub open spec fn throttled(self, throttle: int) -> MassComponent {
        match self {
            MassComponent::Fixed(b) => self,
            MassComponent::Internal(b) => MassComponent::Internal(
                InternalFuelTankBundle { tank: throttled(b.tank, throttle), ..b },
            ),
            MassComponent::External(b) => MassComponent::External(
                ExternalFuelTankBundle { tank: throttled(b.tank, throttle), ..b },
            ),
        }
    }

    /// The record after `dt` seconds of feeding the engine.
    pub open spec fn burned(self, dt: int) -> MassComponent {
        match self {
            MassComponent::Internal(b) => MassComponent::Internal(b.burned(dt)),
            _ => self,
        }
    }

    pub fn get_weight(&self) -> (w: i64)
        ensures
            w == self.weight(),
    {
        match self {
            MassComponent::Fixed(b) => b.mass_data.weight,
            MassComponent::Internal(b) => b.mass_data.weight,
            MassComponent::External(b) => b.mass_data.weight,
        }
    }
}

/// The sum of the weights of the records.
pub open spec fn weights_sum(s: Seq<MassComponent>) -> int
    decreases s.len(),
{
    if s.len() == 0 {
        0
    } else {
        weights_sum(s.drop_last()) + s.last().weight()
    }
}

/// Every tank among the records holds between nothing and its capacity.
pub open spec fn all_wf(s: Seq<MassComponent>) -> bool {
    forall|i: int| 0 <= i < s.len() ==> (#[trigger] s[i]).wf()
}

/// The records after the external tank at index `k` fed its target for `dt`
/// seconds. Nothing changes unless record `k` is an external tank whose
/// target is the index of an internal tank.
pub open spec fn fed(s: Seq<MassComponent>, k: int, dt: int) -> Seq<MassComponent> {
    if 0 <= k < s.len() {
        match s[k] {
            MassComponent::External(e) => match e.tank.target {
                Some(t) => if t < s.len() {
                    match s[t as int] {
                        MassComponent::Internal(i) => s.update(
                            k,
                            MassComponent::External(e.drained(i, dt)),
                        ).update(t as int, MassComponent::Internal(e.filled(i, dt))),
                        _ => s,
                    }
                } else {
                    s
                },
                None => s,
            },
            _ => s,
        }
    } else {
        s
    }
}

/// The records after the first `n` of them, in order, fed their targets.
pub open spec fn fed_upto(s: Seq<MassComponent>, n: nat, dt: int) -> Seq<MassComponent>
    decreases n,
{
    if n == 0 {
        s
    } else {
        fed(fed_upto(s, (n - 1) as nat, dt), n - 1, dt)
    }
}

/// The records after every internal tank fed the engine for `dt` seconds.
pub open spec fn burned_all(s: Seq<MassComponent>, dt: int) -> Seq<MassComponent> {
    Seq::new(s.len(), |i: int| s[i].burned(dt))
}

/// The records after one tick of `dt` seconds: first every internal tank
/// feeds the engine, then every external tank, in the order of the records,
/// feeds its target.
pub open spec fn fuel_step(s: Seq<MassComponent>, dt: int) -> Seq<MassComponent> {
    fed_upto(burned_all(s, dt), s.len(), dt)
}

/// The records after the throttle was read.
pub open spec fn throttled_all(s: Seq<MassComponent>, throttle: int) -> Seq<MassComponent> {
    Seq::new(s.len(), |i: int| s[i].throttled(throttle))
}

/// Feeding keeps the number of records.
pub proof fn lemma_fed_len(s: Seq<MassComponent>, k: int, dt: int)
    ensures
        fed(s, k, dt).len() == s.len(),
{
}

/// Feeding in order keeps the number of records.
pub proof fn lemma_fed_upto_len(s: Seq<MassComponent>, n: nat, dt: int)
    ensures
        fed_upto(s, n, dt).len() == s.len(),
    decreases n,
{
    if n > 0 {
        lemma_fed_upto_len(s, (n - 1) as nat, dt);
        lemma_fed_len(fed_upto(s, (n - 1) as nat, dt), n - 1, dt);
    }
}

/// Sets the flow rate of one tank for the throttle and switches the tank on
/// once the throttle is above the activation threshold.
pub fn throttle_tank(tank: &Tank, throttle: i64) -> (r: Tank)
    ensures
        r == throttled(*tank, throttle as int),
{
    let span: i64 = fx_sub(tank.flow_rates.1, tank.flow_rates.0);
    Tank {
        max_capacity: tank.max_capacity,
        active: tank.active || throttle > TANK_ACTIVATION_THROTTLE,
        flow_rates: tank.flow_rates,
        flow_rate: fx_add(tank.flow_rates.0, fx_mul(throttle, span)),
        target: tank.target,
    }
}

/// Reads the throttle, a fraction between 0 and 1, into every tank: the flow
/// rate becomes the idle rate plus the throttle's share of the span up to the
/// full rate, and a throttle above the activation threshold switches the
/// tank on.
pub fn update_tank_flow_rate(throttle: i64, masses: &mut Mass)
    ensures
        final(masses).components@ == throttled_all(old(masses).components@, throttle as int),
{
    let n: usize = masses.components.len();
    let mut k: usize = 0;
    while k < n
        invariant
            0 <= k <= n,
            n == masses.components.len(),
            n == old(masses).components.len(),
            forall|i: int|
                0 <= i < k ==> masses.components[i] == old(masses).components[i].throttled(
                    throttle as int,
                ),
            forall|i: int| k <= i < n ==> masses.components[i] == old(masses).components[i],
        decreases n - k,
    {
        let c: MassComponent = masses.components[k];
        let updated: MassComponent = match c {
            MassComponent::Fixed(b) => c,
            MassComponent::Internal(b) => MassComponent::Internal(
                InternalFuelTankBundle { mass_data: b.mass_data, tank: throttle_tank(&b.tank, throttle) },
            ),
            MassComponent::External(b) => MassComponent::External(
                ExternalFuelTankBundle {
                    mass_data: b.mass_data,
                    tank: throttle_tank(&b.tank, throttle),
                    external: b.external,
                },
            ),
        };
        masses.components.set(k, updated);
        k = k + 1;
    }
    assert(masses.components@ =~= throttled_all(old(masses).components@, throttle as int));
}

/// Moves the fuel of one tick of `dt` seconds.
///
/// First every internal tank that flows loses its flow to the engine, at
/// most what it holds. Then every external tank that flows, in the order of
/// the records, hands its flow to its target, at most what it holds and at
/// most the room left in the target. An external tank whose target is not
/// the index of an internal tank hands over nothing.
pub fn update_fuel_mass_system(dt: i64, masses: &mut Mass)
    ensures
        final(masses).components@ == fuel_step(old(masses).components@, dt as int),
{
    let n: usize = masses.components.len();
    let mut k: usize = 0;
    while k < n
        invariant
            0 <= k <= n,
            n == masses.components.len(),
            n == old(masses).components.len(),
            forall|i: int|
                0 <= i < k ==> masses.components[i] == old(masses).components[i].burned(dt as int),
            forall|i: int| k <= i < n ==> masses.components[i] == old(masses).components[i],
        decreases n - k,
    {
        let c: MassComponent = masses.components[k];
        match c {
            MassComponent::Internal(b) => {
                masses.components.set(k, MassComponent::Internal(b.burn(dt)));
            },
            _ => {},
        }
        k = k + 1;
    }
    let ghost burned = burned_all(old(masses).components@, dt as int);
    assert(masses.components@ =~= burned);
    let mut k: usize = 0;
    while k < n
        invariant
            0 <= k <= n,
            n == masses.components.len(),
            n == burned.len(),
            masses.components@ == fed_upto(burned, k as nat, dt as int),
        decreases n - k,
    {
        let c: MassComponent = masses.components[k];
        match c {
            MassComponent::External(e) => {
                match e.tank.target {
                    Some(t) => {
                        if t < n {
                            let target: MassComponent = masses.components[t];
                            match target {
                                MassComponent::Internal(i) => {
                                    let pair = e.transfer(&i, dt);
                                    masses.components.set(k, MassComponent::External(pair.0));
                                    masses.components.set(t, MassComponent::Internal(pair.1));
                                },
                                _ => {},
                            }
                        }
                    },
                    None => {},
                }
            },
            _ => {},
        }
        k = k + 1;
    }
}

/// Adds up the weights of all records of the vehicle.
pub fn get_weight(masses: &Mass) -> (w: i64)
    ensures
        w == sat(weights_sum(masses.components@)),
{
    let n: usize = masses.components.len();
    let mut acc: i128 = 0;
    let mut k: usize = 0;
    while k < n
        invariant
            0 <= k <= n,
            n == masses.components.len(),
            acc == weights_sum(masses.components@.take(k as int)),
            -0x8000_0000_0000_0000 * k <= acc <= 0x8000_0000_0000_0000 * k,
        decreases n - k,
    {
        let w: i64 = masses.components[k].get_weight();
        proof {
            let next = masses.components@.take(k as int + 1);
            assert(next.drop_last() =~= masses.components@.take(k as int));
            assert(next.last() == masses.components@[k as int]);
        }
        acc = acc + w as i128;
        k = k + 1;
    }
    assert(masses.components@.take(n as int) =~= masses.components@);
    clamp_to_i64(acc)
}

/// The law of fuel transfer: between an external tank and the internal tank
/// that it feeds, each holding between nothing and its capacity, a tick moves
/// fuel without creating or losing any, and leaves each tank between empty
/// and full.
pub proof fn law_transfer_conserves_mass(
    external: ExternalFuelTankBundle,
    internal: InternalFuelTankBundle,
    dt: int,
)
    requires
        external.wf(),
        internal.wf(),
    ensures
        external.drained(internal, dt).mass_data.weight + external.filled(
            internal,
            dt,
        ).mass_data.weight == external.mass_data.weight + internal.mass_data.weight,
        0 <= external.drained(internal, dt).mass_data.weight <= external.tank.max_capacity,
        0 <= external.filled(internal, dt).mass_data.weight <= internal.tank.max_capacity,
{
}

/// One external tank feeding its target leaves the total weight of the
/// records as it was, when every tank holds between nothing and its capacity.
pub proof fn law_feeding_conserves_total(s: Seq<MassComponent>, k: int, dt: int)
    requires
        all_wf(s),
    ensures
        weights_sum(fed(s, k, dt)) == weights_sum(s),
        all_wf(fed(s, k, dt)),
{
    if 0 <= k < s.len() {
        match s[k] {
            MassComponent::External(e) => match e.tank.target {
                Some(t) => if t < s.len() {
                    match s[t as int] {
                        MassComponent::Internal(i) => {
                            assert(s[k].wf());
                            assert(s[t as int].wf());
                            law_transfer_conserves_mass(e, i, dt);
                            let a = MassComponent::External(e.drained(i, dt));
                            let b = MassComponent::Internal(e.filled(i, dt));
                            let s1 = s.update(k, a);
                            lemma_weights_sum_update(s, k, a);
                            lemma_weights_sum_update(s1, t as int, b);
                            assert(s1[t as int] == s[t as int]);
                            assert forall|j: int| 0 <= j < s.len() implies (#[trigger] fed(
                                s,
                                k,
                                dt,
                            )[j]).wf() by {
                                assert(s[j].wf());
                            }
                        },
                        _ => {},
                    }
                },
                None => {},
            },
            _ => {},
        }
    }
}

/// A whole tick of fuel transfers between tanks leaves the total weight of
/// the records as it was.
pub proof fn law_transfers_conserve_total(s: Seq<MassComponent>, n: nat, dt: int)
    requires
        all_wf(s),
    ensures
        weights_sum(fed_upto(s, n, dt)) == weights_sum(s),
        all_wf(fed_upto(s, n, dt)),
    decreases n,
{
    if n > 0 {
        law_transfers_conserve_total(s, (n - 1) as nat, dt);
        law_feeding_conserves_total(fed_upto(s, (n - 1) as nat, dt), n - 1, dt);
    }
}

/// Where no record of one list weighs more than the record at its place in
/// another, the one list weighs no more than the other.
pub proof fn lemma_weights_sum_ordered(a: Seq<MassComponent>, b: Seq<MassComponent>)
    requires
        a.len() == b.len(),
        forall|i: int| 0 <= i < a.len() ==> (#[trigger] a[i]).weight() <= b[i].weight(),
    ensures
        weights_sum(a) <= weights_sum(b),
    decreases a.len(),
{
    if a.len() > 0 {
        assert(a.last().weight() <= b[b.len() - 1].weight());
        lemma_weights_sum_ordered(a.drop_last(), b.drop_last());
    }
}

/// A tick of fuel keeps every tank between empty and full and makes the
/// vehicle no heavier: what the engine burns is lost, and what flows between
/// tanks is kept.
pub proof fn law_fuel_tick_keeps_tanks_in_bounds(s: Seq<MassComponent>, dt: int)
    requires
        all_wf(s),
    ensures
        fuel_step(s, dt).len() == s.len(),
        all_wf(fuel_step(s, dt)),
        weights_sum(fuel_step(s, dt)) <= weights_sum(s),
{
    let burned = burned_all(s, dt);
    assert forall|i: int| 0 <= i < burned.len() implies (#[trigger] burned[i]).wf() && burned[i].weight()
        <= s[i].weight() by {
        assert(s[i].wf());
    }
    lemma_weights_sum_ordered(burned, s);
    law_transfers_conserve_total(burned, s.len(), dt);
    lemma_fed_upto_len(burned, s.len(), dt);
}

/// Replacing one record changes the sum of the weights by the difference of
/// the two records' weights.
pub proof fn lemma_weights_sum_update(s: Seq<MassComponent>, k: int, c: MassComponent)
    requires
        0 <= k < s.len(),
    ensures
        weights_sum(s.update(k, c)) == weights_sum(s) - s[k].weight() + c.weight(),
    decreases s.len(),
{
    let u = s.update(k, c);
    if k == s.len() - 1 {
        assert(u.drop_last() =~= s.drop_last());
    } else {
        assert(u.drop_last() =~= s.drop_last().update(k, c));
        lemma_weights_sum_update(s.drop_last(), k, c);
    }
}

} // verus!
