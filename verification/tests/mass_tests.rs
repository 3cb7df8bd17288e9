use flight_core::fixed::SCALE;
use flight_core::mass::{
    get_weight, throttle_tank, update_fuel_mass_system, update_tank_flow_rate,
    ExternalFuelTankBundle, InternalFuelTankBundle, Mass, MassBundle, MassComponent, MassData,
};

const KG: i64 = SCALE;
const SECOND: i64 = SCALE;

fn flowing_internal(content: i64, capacity: i64, rate: i64) -> InternalFuelTankBundle {
    let mut t = InternalFuelTankBundle::new(capacity);
    t.mass_data = MassData::new(content);
    t.tank.active = true;
    t.tank.flow_rate = rate;
    t
}

fn flowing_external(content: i64, capacity: i64, rate: i64, target: usize) -> ExternalFuelTankBundle {
    let mut t = ExternalFuelTankBundle::new(capacity, target);
    t.mass_data = MassData::new(content);
    t.tank.active = true;
    t.tank.flow_rate = rate;
    t
}

#[test]
fn new_tanks_are_full_and_off() {
    let i = InternalFuelTankBundle::new(900 * KG);
    assert_eq!(i.mass_data.weight, 900 * KG);
    assert_eq!(i.tank.max_capacity, 900 * KG);
    assert!(!i.tank.active);
    assert_eq!(i.tank.flow_rates, (100_000, 5_000_000));
    assert_eq!(i.tank.flow_rate, 0);
    assert_eq!(i.tank.target, None);
    let e = ExternalFuelTankBundle::new(400 * KG, 3);
    assert_eq!(e.mass_data.weight, 400 * KG);
    assert_eq!(e.tank.flow_rates, (100_000, 2_500_000));
    assert_eq!(e.tank.target, Some(3));
    assert_eq!(MassBundle::empty_cf_104().mass_data.weight, 6_300 * KG);
    assert_eq!(MassBundle::nuke().mass_data.weight, 226_796_200);
}

#[test]
fn transfer_moves_the_flow() {
    let e = flowing_external(100 * KG, 400 * KG, 2 * KG, 0);
    let i = flowing_internal(500 * KG, 900 * KG, 0);
    let (e2, i2) = e.transfer(&i, SECOND / 2);
    assert_eq!(e2.mass_data.weight, 99 * KG);
    assert_eq!(i2.mass_data.weight, 501 * KG);
    assert_eq!(e2.tank, e.tank);
    assert_eq!(i2.tank, i.tank);
}

#[test]
fn transfer_is_limited_by_what_the_external_tank_holds() {
    let e = flowing_external(KG / 4, 400 * KG, 2 * KG, 0);
    let i = flowing_internal(500 * KG, 900 * KG, 0);
    let (e2, i2) = e.transfer(&i, SECOND);
    assert_eq!(e2.mass_data.weight, 0);
    assert_eq!(i2.mass_data.weight, 500 * KG + KG / 4);
}

#[test]
fn transfer_is_limited_by_the_room_in_the_internal_tank() {
    let e = flowing_external(100 * KG, 400 * KG, 2 * KG, 0);
    let i = flowing_internal(900 * KG - 3, 900 * KG, 0);
    let (e2, i2) = e.transfer(&i, SECOND);
    assert_eq!(e2.mass_data.weight, 100 * KG - 3);
    assert_eq!(i2.mass_data.weight, 900 * KG);
    let full = flowing_internal(900 * KG, 900 * KG, 0);
    let (e3, i3) = e.transfer(&full, SECOND);
    assert_eq!(e3.mass_data.weight, 100 * KG);
    assert_eq!(i3.mass_data.weight, 900 * KG);
}

#[test]
fn transfer_conserves_mass_for_many_flows() {
    let mut seed: u64 = 7;
    for _ in 0..2000 {
        seed = seed.wrapping_mul(6364136223846793005).wrapping_add(1442695040888963407);
        let cap_e = (seed >> 40) as i64 % (500 * KG) + 1;
        seed = seed.wrapping_mul(6364136223846793005).wrapping_add(1442695040888963407);
        let cap_i = (seed >> 40) as i64 % (900 * KG) + 1;
        seed = seed.wrapping_mul(6364136223846793005).wrapping_add(1442695040888963407);
        let e0 = (seed >> 40) as i64 % (cap_e + 1);
        seed = seed.wrapping_mul(6364136223846793005).wrapping_add(1442695040888963407);
        let i0 = (seed >> 40) as i64 % (cap_i + 1);
        seed = seed.wrapping_mul(6364136223846793005).wrapping_add(1442695040888963407);
        let rate = (seed >> 40) as i64 % (600 * KG);
        seed = seed.wrapping_mul(6364136223846793005).wrapping_add(1442695040888963407);
        let dt = (seed >> 40) as i64 % (3 * SECOND) - SECOND;
        let e = flowing_external(e0, cap_e, rate, 0);
        let i = flowing_internal(i0, cap_i, 0);
        let (e2, i2) = e.transfer(&i, dt);
        assert_eq!(e2.mass_data.weight + i2.mass_data.weight, e0 + i0);
        assert!(0 <= e2.mass_data.weight && e2.mass_data.weight <= e0);
        assert!(i0 <= i2.mass_data.weight && i2.mass_data.weight <= cap_i);
    }
}

#[test]
fn a_tank_that_is_off_or_hardly_flows_moves_nothing() {
    let mut e = flowing_external(100 * KG, 400 * KG, 2 * KG, 0);
    let i = flowing_internal(500 * KG, 900 * KG, 3 * KG);
    e.tank.active = false;
    assert_eq!(e.transfer(&i, SECOND), (e, i));
    e.tank.active = true;
    e.tank.flow_rate = 10;
    assert_eq!(e.transfer(&i, SECOND), (e, i));
    e.tank.flow_rate = 11;
    assert_eq!(e.transfer(&i, SECOND).0.mass_data.weight, 100 * KG - 11);
    // a negative time step moves nothing
    e.tank.flow_rate = 2 * KG;
    assert_eq!(e.transfer(&i, -SECOND), (e, i));
    let mut off = i;
    off.tank.active = false;
    assert_eq!(off.burn(SECOND), off);
}

#[test]
fn burning_empties_an_internal_tank_and_no_more() {
    let i = flowing_internal(5 * KG, 900 * KG, 3 * KG);
    let after = i.burn(SECOND);
    assert_eq!(after.mass_data.weight, 2 * KG);
    let after = after.burn(SECOND);
    assert_eq!(after.mass_data.weight, 0);
    assert_eq!(after.burn(SECOND).mass_data.weight, 0);
    assert_eq!(i.burn(-SECOND), i);
}

#[test]
fn throttle_sets_the_flow_rate() {
    let t = InternalFuelTankBundle::new(900 * KG).tank;
    let idle = throttle_tank(&t, 0);
    assert_eq!(idle.flow_rate, 100_000);
    assert!(!idle.active);
    let barely = throttle_tank(&t, 100);
    assert!(!barely.active);
    let open = throttle_tank(&t, 101);
    assert!(open.active);
    let half = throttle_tank(&t, SCALE / 2);
    assert_eq!(half.flow_rate, 2_550_000);
    assert!(half.active);
    let full = throttle_tank(&t, SCALE);
    assert_eq!(full.flow_rate, 5_000_000);
    // once on, a tank stays on
    assert!(throttle_tank(&full, 0).active);
    assert_eq!(throttle_tank(&full, 0).flow_rate, 100_000);
    assert_eq!(full.max_capacity, t.max_capacity);
    assert_eq!(full.target, t.target);
}

fn airframe_with_tanks() -> Mass {
    Mass {
        components: vec![
            MassComponent::Fixed(MassBundle::empty_cf_104()),
            MassComponent::Internal(InternalFuelTankBundle::new(900 * KG)),
            MassComponent::External(ExternalFuelTankBundle::new(400 * KG, 1)),
            MassComponent::External(ExternalFuelTankBundle::new(400 * KG, 1)),
            MassComponent::Fixed(MassBundle::nuke()),
        ],
    }
}

#[test]
fn weight_is_the_sum_of_the_records() {
    let m = airframe_with_tanks();
    assert_eq!(get_weight(&m), 6_300 * KG + 900 * KG + 800 * KG + 226_796_200);
    assert_eq!(get_weight(&Mass { components: vec![] }), 0);
    let heavy = Mass {
        components: vec![
            MassComponent::Fixed(MassBundle { mass_data: MassData::new(i64::MAX) }),
            MassComponent::Fixed(MassBundle { mass_data: MassData::new(i64::MAX) }),
            MassComponent::Fixed(MassBundle { mass_data: MassData::new(-5) }),
        ],
    };
    assert_eq!(get_weight(&heavy), i64::MAX);
    assert_eq!(m.components[2].get_weight(), 400 * KG);
}

#[test]
fn a_tick_of_fuel() {
    let mut m = airframe_with_tanks();
    update_tank_flow_rate(SCALE, &mut m);
    let before = get_weight(&m);
    update_fuel_mass_system(SECOND, &mut m);
    // the internal tank burns 5 kg, then takes 2.5 kg from each external tank
    assert_eq!(m.components[1].get_weight(), 900 * KG);
    assert_eq!(m.components[2].get_weight(), 400 * KG - 2_500_000);
    assert_eq!(m.components[3].get_weight(), 400 * KG - 2_500_000);
    assert_eq!(m.components[0].get_weight(), 6_300 * KG);
    assert_eq!(get_weight(&m), before - 5 * KG);
    // the second external tank finds the room that the first has left
    let mut m = airframe_with_tanks();
    update_tank_flow_rate(SCALE, &mut m);
    if let MassComponent::Internal(ref mut i) = m.components[1] {
        i.mass_data = MassData::new(900 * KG - 1_000_000);
        i.tank.flow_rate = 2_000_000;
    }
    update_fuel_mass_system(SECOND, &mut m);
    assert_eq!(m.components[1].get_weight(), 900 * KG);
    assert_eq!(m.components[2].get_weight(), 400 * KG - 2_500_000);
    assert_eq!(m.components[3].get_weight(), 400 * KG - 500_000);
}

#[test]
fn an_external_tank_without_an_internal_target_keeps_its_fuel() {
    let mut m = Mass {
        components: vec![
            MassComponent::External(ExternalFuelTankBundle::new(400 * KG, 0)),
            MassComponent::External(ExternalFuelTankBundle::new(400 * KG, 7)),
            MassComponent::External(ExternalFuelTankBundle::new(400 * KG, 3)),
            MassComponent::Fixed(MassBundle::nuke()),
        ],
    };
    update_tank_flow_rate(SCALE, &mut m);
    let before = m.components.clone();
    update_fuel_mass_system(SECOND, &mut m);
    assert_eq!(m.components, before);
}
