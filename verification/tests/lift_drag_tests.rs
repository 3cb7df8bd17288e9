use flight_core::drag::{drag_coefficient_at, drag_force};
use flight_core::fixed::SCALE;
use flight_core::lift::{
    angle_of_attack, cl, lift_force, CF104_INCIDENT_OFFSET, CF104_STALL_ALPHA, CF104_WING_AREA,
};
use flight_core::vector::Vec3;

const M: i64 = SCALE;

fn units(x: i64) -> f64 {
    x as f64 / SCALE as f64
}

fn v(x: i64, y: i64, z: i64) -> Vec3 {
    Vec3::new(x * M, y * M, z * M)
}

#[test]
fn lift_coefficient_is_straight_below_the_stall() {
    assert_eq!(cl(0), 800_000);
    assert_eq!(cl(100_000), 1_370_000);
    assert_eq!(cl(-100_000), 230_000);
    assert_eq!(cl(CF104_INCIDENT_OFFSET), 601_031);
    assert_eq!(cl(CF104_STALL_ALPHA - 1), 2_292_248);
    assert_eq!(cl(-CF104_STALL_ALPHA + 1), -692_248);
}

#[test]
fn lift_coefficient_has_no_jump_at_the_stall() {
    // 0.8 + 5.7 * 0.261799
    assert_eq!(cl(CF104_STALL_ALPHA), 2_292_254);
    assert_eq!(cl(-CF104_STALL_ALPHA), -692_254);
    assert!((cl(CF104_STALL_ALPHA) - cl(CF104_STALL_ALPHA - 1)).abs() <= 6);
    assert!((cl(CF104_STALL_ALPHA + 1) - cl(CF104_STALL_ALPHA)).abs() <= 1);
    assert!((cl(-CF104_STALL_ALPHA - 1) - cl(-CF104_STALL_ALPHA)).abs() <= 1);
}

#[test]
fn lift_coefficient_tapers_past_the_stall() {
    for degrees in [20, 30, 45, 60, 90, 105, 150, 180] {
        let alpha = (degrees as f64).to_radians();
        let want = 2.292254 * (alpha - 0.261799).cos();
        let got = units(cl((alpha * 1e6) as i64));
        assert!((got - want).abs() < 1e-5, "{degrees}: {got} {want}");
        let mirrored = units(cl(-(alpha * 1e6) as i64));
        let want = -0.692254 * (alpha - 0.261799).cos();
        assert!((mirrored - want).abs() < 1e-5, "-{degrees}: {mirrored} {want}");
    }
    assert!(cl(500_000) < cl(CF104_STALL_ALPHA));
    assert_eq!(cl(i64::MAX), cl(i64::MAX));
}

#[test]
fn angle_of_attack_is_the_angle_to_the_wind_plus_the_incidence() {
    let forward = v(1, 0, 0);
    let up = v(0, 1, 0);
    // the air comes along the forward axis when the body moves against it
    assert_eq!(angle_of_attack(&forward, &v(-50, 0, 0), &up), CF104_INCIDENT_OFFSET);
    // what the velocity has along the up axis plays no part
    assert_eq!(angle_of_attack(&forward, &v(-50, 20, 0), &up), CF104_INCIDENT_OFFSET);
    assert_eq!(angle_of_attack(&forward, &v(-50, 0, -50), &up), -785_398 + CF104_INCIDENT_OFFSET);
    assert_eq!(angle_of_attack(&forward, &v(-50, 0, 50), &up), 785_398 + CF104_INCIDENT_OFFSET);
    assert_eq!(angle_of_attack(&forward, &v(50, 0, 0), &up), 3_141_592 + CF104_INCIDENT_OFFSET);
    assert_eq!(angle_of_attack(&forward, &Vec3::zero(), &up), CF104_INCIDENT_OFFSET);
}

#[test]
fn lift_acts_along_the_up_axis() {
    let forward = v(1, 0, 0);
    let up = v(0, 1, 0);
    let rho = 1_225_000;
    let lift = lift_force(&forward, &v(-100, 0, 0), &up, rho, CF104_WING_AREA);
    assert_eq!((lift.x, lift.z), (0, 0));
    // 0.5 * rho * v^2 * 18.22 * cl
    let want = 0.5 * 1.225 * 100.0 * 100.0 * 18.22 * 0.601031;
    assert!((units(lift.y) - want).abs() < 0.1, "{} {want}", units(lift.y));
    assert_eq!(lift.y, 67_073_557_022);
    // the speed along the forward axis counts, whatever its sign
    let sideways = lift_force(&forward, &v(0, 0, 100), &up, rho, CF104_WING_AREA);
    assert_eq!(sideways, Vec3::zero());
    assert_eq!(lift_force(&forward, &Vec3::zero(), &up, rho, CF104_WING_AREA), Vec3::zero());
    assert_eq!(lift_force(&forward, &Vec3::new(-999, 0, 0), &up, rho, CF104_WING_AREA), Vec3::zero());
    assert!(lift_force(&forward, &Vec3::new(-1_000, 0, 0), &up, rho, CF104_WING_AREA).y >= 0);
    // four times the lift at twice the speed
    let double = lift_force(&forward, &v(-200, 0, 0), &up, rho, CF104_WING_AREA);
    assert!((double.y - 4 * lift.y).abs() <= 8);
    // half the wing, half the lift
    let half_wing = lift_force(&forward, &v(-100, 0, 0), &up, rho, CF104_WING_AREA / 2);
    assert!((2 * half_wing.y - lift.y).abs() <= 2);
    assert_eq!(lift_force(&forward, &v(-100, 0, 0), &up, rho, 0), Vec3::zero());
    let tilted = lift_force(&forward, &v(-100, 0, 0), &v(0, 0, 3), rho, CF104_WING_AREA);
    assert_eq!((tilted.x, tilted.y), (0, 0));
    assert_eq!(tilted.z, lift.y);
}

#[test]
fn drag_coefficient_over_the_mach_number() {
    assert_eq!(drag_coefficient_at(0), 20_000);
    assert_eq!(drag_coefficient_at(799_999), 20_000);
    assert_eq!(drag_coefficient_at(800_000), 20_000);
    assert_eq!(drag_coefficient_at(900_000), 40_000);
    assert_eq!(drag_coefficient_at(1_000_000), 60_000);
    assert_eq!(drag_coefficient_at(1_199_999), 99_999);
    assert_eq!(drag_coefficient_at(1_200_000), 40_000);
    assert_eq!(drag_coefficient_at(2_200_000), 60_000);
    assert_eq!(drag_coefficient_at(-5 * M), 20_000);
}

#[test]
fn drag_opposes_the_velocity() {
    let t = 288_150_000;
    let p = 101_325 * M;
    let area = 3 * M;
    let d = drag_force(area, &v(100, 0, 0), t, p);
    // 0.5 * rho * v^2 * cd * area
    let want = 0.5 * 1.225012 * 100.0 * 100.0 * 0.02 * 3.0;
    assert!((units(d.x) + want).abs() < 1e-3, "{} {want}", units(d.x));
    assert_eq!(d, Vec3::new(-367_503_600, 0, 0));
    let back = drag_force(area, &v(-100, 0, 0), t, p);
    assert_eq!(back, Vec3::new(367_503_600, 0, 0));
    let skew = drag_force(area, &v(30, -40, 0), t, p);
    assert!(skew.x < 0 && skew.y > 0 && skew.z == 0);
    assert!((units(skew.x) + 0.6 * want / 4.0).abs() < 1e-3);
    assert!((units(skew.y) - 0.8 * want / 4.0).abs() < 1e-3);
}

#[test]
fn drag_rises_through_the_speed_of_sound() {
    let t = 288_150_000;
    let p = 101_325 * M;
    let area = 3 * M;
    let speed_of_sound = 340.292286;
    for (mach, cd) in [(0.5, 0.02), (0.9, 0.04), (1.1, 0.08), (1.5, 0.046), (2.0, 0.056)] {
        let speed = mach * speed_of_sound;
        let d = drag_force(area, &Vec3::new((speed * 1e6) as i64, 0, 0), t, p);
        let want = 0.5 * 1.225012 * speed * speed * cd * 3.0;
        assert!((units(d.x) + want).abs() / want < 1e-4, "{mach}: {} {want}", units(d.x));
    }
}

#[test]
fn no_drag_at_rest_or_without_air() {
    let t = 288_150_000;
    let p = 101_325 * M;
    assert_eq!(drag_force(3 * M, &Vec3::zero(), t, p), Vec3::zero());
    assert_eq!(drag_force(3 * M, &Vec3::new(999, 0, 0), t, p), Vec3::zero());
    assert_eq!(drag_force(0, &v(100, 0, 0), t, p), Vec3::zero());
    assert_eq!(drag_force(3 * M, &v(100, 0, 0), t, 0), Vec3::zero());
    assert_eq!(drag_force(3 * M, &v(100, 0, 0), 0, p), Vec3::zero());
}
