use flight_core::fixed::SCALE;
use flight_core::rotation::{Quat, Transform};
use flight_core::vector::Vec3;

fn v(x: i64, y: i64, z: i64) -> Vec3 {
    Vec3::new(x * SCALE, y * SCALE, z * SCALE)
}

#[test]
fn sums_and_products_of_vectors() {
    assert_eq!(v(1, 2, 3).plus(&v(4, 5, 6)), v(5, 7, 9));
    assert_eq!(v(1, 2, 3).minus(&v(4, 5, 6)), v(-3, -3, -3));
    assert_eq!(v(1, -2, 3).neg(), v(-1, 2, -3));
    assert_eq!(v(1, -2, 3).scale(2 * SCALE), v(2, -4, 6));
    assert_eq!(v(1, -2, 3).scale(SCALE / 2), Vec3::new(500_000, -1_000_000, 1_500_000));
    assert_eq!(v(2, -4, 6).div(2 * SCALE), v(1, -2, 3));
    assert_eq!(v(1, 2, 3).dot(&v(4, 5, 6)), 32 * SCALE);
    assert_eq!(v(1, 0, 0).cross(&v(0, 1, 0)), v(0, 0, 1));
    assert_eq!(v(0, 1, 0).cross(&v(0, 0, 1)), v(1, 0, 0));
    assert_eq!(v(1, 2, 3).cross(&v(4, 5, 6)), v(-3, 6, -3));
    assert_eq!(Vec3::zero(), v(0, 0, 0));
    let top = Vec3::new(i64::MAX, i64::MIN, 0);
    assert_eq!(top.plus(&top), Vec3::new(i64::MAX, i64::MIN, 0));
}

#[test]
fn lengths() {
    assert_eq!(v(3, 4, 0).length(), 5 * SCALE);
    assert_eq!(v(0, 0, -7).length(), 7 * SCALE);
    assert_eq!(v(1, 1, 1).length(), 1_732_050);
    assert_eq!(Vec3::zero().length(), 0);
    assert_eq!(Vec3::new(i64::MIN, i64::MIN, i64::MIN).length(), i64::MAX);
    assert_eq!(v(3, 4, 0).norm_squared(), 25_000_000_000_000);
    assert_eq!(v(3, 4, 0).normalize(), Vec3::new(600_000, 800_000, 0));
    assert_eq!(v(0, -9, 0).normalize(), v(0, -1, 0));
    assert_eq!(Vec3::zero().normalize(), Vec3::zero());
}

#[test]
fn projections() {
    assert_eq!(v(3, 4, 5).project_onto(&v(1, 0, 0)), v(3, 0, 0));
    assert_eq!(v(3, 4, 5).project_onto(&v(0, 2, 0)), v(0, 4, 0));
    assert_eq!(v(3, 4, 5).project_onto(&Vec3::zero()), Vec3::zero());
}

#[test]
fn quarter_turns() {
    // a quarter turn about y: sin and cos of 45 degrees
    let q = Quat { x: 0, y: 707_107, z: 0, w: 707_107 };
    let turned = q.rotate(&v(1, 0, 0));
    assert!(turned.x.abs() <= 2, "{turned:?}");
    assert_eq!(turned.y, 0);
    assert!((turned.z + SCALE).abs() <= 2, "{turned:?}");
    assert_eq!(Quat::identity().rotate(&v(1, 2, 3)), v(1, 2, 3));
    // half a turn about y turns x around and leaves y
    let half = Quat { x: 0, y: SCALE, z: 0, w: 0 };
    assert_eq!(half.rotate(&v(1, 0, 0)), v(-1, 0, 0));
    assert_eq!(half.rotate(&v(0, 1, 0)), v(0, 1, 0));
    assert_eq!(half.conjugate(), Quat { x: 0, y: -SCALE, z: 0, w: 0 });
    assert_eq!(Quat::identity().then_after(&half), half);
    assert_eq!(half.then_after(&half), Quat { x: 0, y: 0, z: 0, w: -SCALE });
}

#[test]
fn rotations_from_axis_and_angle() {
    let y = v(0, 1, 0);
    assert_eq!(Quat::from_axis_angle(&y, 0), Quat::identity());
    assert_eq!(Quat::from_rotation_y(0), Quat::identity());
    let q = Quat::from_rotation_y(1_570_796);
    assert!((q.y - 707_106).abs() <= 2 && (q.w - 707_106).abs() <= 2, "{q:?}");
    assert_eq!((q.x, q.z), (0, 0));
    let turned = Quat::identity().rotated_about(&y, 1_570_796).rotate(&v(0, 0, 1));
    assert!((turned.x - SCALE).abs() <= 5 && turned.z.abs() <= 5, "{turned:?}");
    assert_eq!(Quat { x: 0, y: 0, z: 0, w: 0 }.normalize(), Quat::identity());
    assert_eq!(Quat { x: 0, y: 3 * SCALE, z: 0, w: 4 * SCALE }.normalize(), Quat { x: 0, y: 600_000, z: 0, w: 800_000 });
    let huge = Quat { x: i64::MIN, y: i64::MIN, z: i64::MIN, w: i64::MIN }.normalize();
    assert_eq!(huge, Quat { x: -SCALE, y: -SCALE, z: -SCALE, w: -SCALE });
}

#[test]
fn axes_of_a_transform() {
    let t = Transform { translation: Vec3::zero(), rotation: Quat::identity() };
    assert_eq!(t.forward(), v(1, 0, 0));
    assert_eq!(t.up(), v(0, 1, 0));
    assert_eq!(t.right(), v(0, 0, 1));
    let t = Transform { translation: Vec3::zero(), rotation: Quat { x: 0, y: SCALE, z: 0, w: 0 } };
    assert_eq!(t.forward(), v(-1, 0, 0));
    assert_eq!(t.up(), v(0, 1, 0));
    assert_eq!(t.right(), v(0, 0, -1));
}
