use flight_core::cross_section::{
    contour_fits, contour_twice_area, cross_section_area, plane_basis, project_point,
    project_triangle, shapes_area, shapes_fit, unite, update_cross_section, AreaCache,
    CrossSectionArea, Point2, Triangle, AREA_UNIT,
};
use flight_core::fixed::{fx_mul, SCALE};
use flight_core::vector::Vec3;

const M: i64 = SCALE;
const MM: i32 = 1_000;

fn p(x: i32, y: i32) -> Point2 {
    Point2::new(x, y)
}

fn v(x: i64, y: i64, z: i64) -> Vec3 {
    Vec3::new(x * M, y * M, z * M)
}

/// A triangle in the plane at right angles to the x axis.
fn wall(y0: i64, z0: i64, size: i64) -> Triangle {
    Triangle { a: v(0, y0, z0), b: v(0, y0, z0 + size), c: v(0, y0 + size, z0) }
}

#[test]
fn shoelace_areas() {
    let ccw = vec![p(0, 0), p(4, 0), p(4, 3), p(0, 3)];
    assert_eq!(contour_twice_area(&ccw), 24);
    let cw = vec![p(0, 3), p(4, 3), p(4, 0), p(0, 0)];
    assert_eq!(contour_twice_area(&cw), -24);
    assert_eq!(contour_twice_area(&vec![p(0, 0), p(4, 0), p(0, 3)]), 12);
    assert_eq!(contour_twice_area(&vec![]), 0);
    assert_eq!(contour_twice_area(&vec![p(5, 5)]), 0);
    assert_eq!(contour_twice_area(&vec![p(5, 5), p(9, 9)]), 0);
    let far = vec![p(i32::MIN, i32::MIN), p(i32::MAX, i32::MIN), p(i32::MAX, i32::MAX), p(i32::MIN, i32::MAX)];
    assert_eq!(contour_twice_area(&far), 2 * (u32::MAX as i128) * (u32::MAX as i128));
}

#[test]
fn areas_of_polygons_count_holes_against_their_boundary() {
    let outer = vec![p(0, 0), p(4_000 * MM, 0), p(4_000 * MM, 3_000 * MM), p(0, 3_000 * MM)];
    let hole = vec![p(1_000 * MM, 2_000 * MM), p(2_000 * MM, 2_000 * MM), p(2_000 * MM, 1_000 * MM), p(1_000 * MM, 1_000 * MM)];
    assert_eq!(shapes_area(&vec![vec![outer.clone()]]), 12 * M);
    assert_eq!(shapes_area(&vec![vec![outer.clone(), hole.clone()]]), 11 * M);
    assert_eq!(shapes_area(&vec![vec![outer.clone(), hole], vec![outer]]), 23 * M);
    assert_eq!(shapes_area(&vec![]), 0);
    assert_eq!(shapes_area(&vec![vec![], vec![vec![]]]), 0);
}

#[test]
fn limits_of_the_plane() {
    let edge = (1 << 30) - 1;
    assert!(contour_fits(&vec![p(edge, -edge), p(0, 0)]));
    assert!(!contour_fits(&vec![p(0, 0), p(edge + 1, 0)]));
    assert!(!contour_fits(&vec![p(0, -edge - 1)]));
    assert!(contour_fits(&vec![]));
    assert!(shapes_fit(&vec![vec![vec![p(edge, edge)]], vec![]]));
    assert!(!shapes_fit(&vec![vec![vec![p(0, 0)], vec![p(0, i32::MIN)]]]));
}

#[test]
fn union_counts_overlapping_parts_once() {
    let square = |x: i32, y: i32, s: i32| vec![p(x, y), p(x + s, y), p(x + s, y + s), p(x, y + s)];
    // one square
    let one = unite(&vec![square(0, 0, 2_000 * MM)]).unwrap();
    assert_eq!(shapes_area(&one), 4 * M);
    // the same square twice
    let twice = unite(&vec![square(0, 0, 2_000 * MM), square(0, 0, 2_000 * MM)]).unwrap();
    assert_eq!(shapes_area(&twice), 4 * M);
    // two squares that share a quarter
    let overlapping = unite(&vec![square(0, 0, 2_000 * MM), square(1_000 * MM, 1_000 * MM, 2_000 * MM)]).unwrap();
    assert_eq!(shapes_area(&overlapping), 7 * M);
    assert_eq!(overlapping.len(), 1);
    // two squares apart
    let apart = unite(&vec![square(0, 0, 2_000 * MM), square(5_000 * MM, 0, 1_000 * MM)]).unwrap();
    assert_eq!(shapes_area(&apart), 5 * M);
    assert_eq!(apart.len(), 2);
    // a clockwise square counts like a counterclockwise one
    let clockwise = vec![p(0, 2_000 * MM), p(2_000 * MM, 2_000 * MM), p(2_000 * MM, 0), p(0, 0)];
    let turned = unite(&vec![clockwise, square(1_000 * MM, 1_000 * MM, 2_000 * MM)]).unwrap();
    assert_eq!(shapes_area(&turned), 7 * M);
    // a ring of four bars keeps its hole
    let ring = unite(&vec![
        vec![p(0, 0), p(3_000 * MM, 0), p(3_000 * MM, 1_000 * MM), p(0, 1_000 * MM)],
        vec![p(0, 2_000 * MM), p(3_000 * MM, 2_000 * MM), p(3_000 * MM, 3_000 * MM), p(0, 3_000 * MM)],
        vec![p(0, 0), p(1_000 * MM, 0), p(1_000 * MM, 3_000 * MM), p(0, 3_000 * MM)],
        vec![p(2_000 * MM, 0), p(3_000 * MM, 0), p(3_000 * MM, 3_000 * MM), p(2_000 * MM, 3_000 * MM)],
    ]).unwrap();
    assert_eq!(shapes_area(&ring), 8 * M);
    assert_eq!(unite(&vec![]).unwrap().len(), 0);
}

#[test]
fn union_refuses_points_outside_the_limit() {
    let far = vec![p(0, 0), p(1 << 30, 0), p(0, 5)];
    assert_eq!(unite(&vec![far.clone()]), None);
    let near = vec![p(0, 0), p(5, 0), p(0, 5)];
    assert_eq!(unite(&vec![near.clone(), far, near]), None);
}

#[test]
fn the_plane_stands_at_right_angles_to_the_wind() {
    let (u, w) = plane_basis(&v(1, 0, 0));
    assert_eq!(u, v(0, 0, 1));
    assert_eq!(w, v(0, -1, 0));
    let (u, w) = plane_basis(&v(0, 0, 1));
    assert_eq!(u, v(0, 1, 0));
    assert_eq!(w, v(-1, 0, 0));
    let (u, w) = plane_basis(&v(0, 1, 0));
    assert_eq!(u, v(0, 0, -1));
    assert_eq!(w, v(-1, 0, 0));
    let (u, w) = plane_basis(&v(-1, 0, 0));
    assert_eq!((u, w), (v(0, 0, -1), v(0, -1, 0)));
    assert_eq!(project_point(&v(7, 2, 3), &u, &w), Some(p(-3_000 * MM, -2_000 * MM)));
    assert_eq!(project_point(&v(0, 2_000, 0), &u, &w), None);
    let t = wall(1, 2, 3);
    assert_eq!(
        project_triangle(&t, &u, &w),
        Some(vec![p(-2_000 * MM, -1_000 * MM), p(-5_000 * MM, -1_000 * MM), p(-2_000 * MM, -4_000 * MM)])
    );
    let far = Triangle { a: v(0, 0, 0), b: v(0, 0, 1), c: v(0, 1_074, 0) };
    assert_eq!(project_triangle(&far, &u, &w), None);
}

#[test]
fn frontal_area_of_triangles() {
    let wind = v(-80, 0, 0);
    let one = cross_section_area(&wind, &vec![wall(0, 0, 2)]);
    assert_eq!(one, Some(fx_mul(2 * M, AREA_UNIT)));
    assert_eq!(one, Some(297_376_986));
    // the same triangle further along the wind hides behind the first
    let behind = Triangle { a: v(5, 0, 0), b: v(5, 0, 2), c: v(5, 2, 0) };
    assert_eq!(cross_section_area(&wind, &vec![wall(0, 0, 2), behind]), one);
    // a triangle beside it adds its own area
    assert_eq!(cross_section_area(&wind, &vec![wall(0, 0, 2), wall(0, 2, 2)]), Some(fx_mul(4 * M, AREA_UNIT)));
    // two triangles that make up a square, and a third inside it
    let other_half = Triangle { a: v(0, 2, 2), b: v(0, 0, 2), c: v(0, 2, 0) };
    assert_eq!(
        cross_section_area(&wind, &vec![wall(0, 0, 2), other_half, wall(0, 0, 1)]),
        Some(fx_mul(4 * M, AREA_UNIT))
    );
    // a triangle seen from its edge has no area
    let flat = Triangle { a: v(0, 0, 0), b: v(3, 0, 0), c: v(0, 3, 0) };
    assert_eq!(cross_section_area(&v(0, 0, 9), &vec![flat]), Some(4_500_000 * 148_688_493 / M));
    assert_eq!(cross_section_area(&v(0, 9, 0), &vec![flat]), Some(0));
    assert_eq!(cross_section_area(&wind, &vec![]), Some(0));
    // beyond a kilometre the plane ends
    assert_eq!(cross_section_area(&wind, &vec![wall(0, 0, 2), wall(0, 0, 1_074)]), None);
}

#[test]
fn the_area_is_kept_while_the_wind_stays_in_its_cone() {
    let forward = v(-1, 0, 0);
    let small = vec![wall(0, 0, 2)];
    let large = vec![wall(0, 0, 4)];
    let mut area = CrossSectionArea::default();
    assert_eq!(area, CrossSectionArea { cache: AreaCache::Empty, area: 0 });
    update_cross_section(&v(-80, 0, 0), &forward, &small, &mut area);
    assert_eq!(area.area, 297_376_986);
    assert_eq!(area.cache, AreaCache::Final { area: 297_376_986, angle: 0 });
    // four degrees off: the remembered area stays, whatever the triangles
    let off4 = Vec3::new(-80 * M, 0, 5_594_145);
    update_cross_section(&off4, &forward, &large, &mut area);
    assert_eq!(area.cache, AreaCache::Final { area: 297_376_986, angle: 0 });
    assert_eq!(area.area, 297_376_986);
    // six degrees off: computed anew and remembered with the new angle
    let off6 = Vec3::new(-80 * M, 0, 8_408_339);
    update_cross_section(&off6, &forward, &large, &mut area);
    match area.cache {
        AreaCache::Final { area: a, angle } => {
            assert_eq!(a, area.area);
            assert!((angle - 104_720).abs() <= 2, "{angle}");
            // the wall is seen at an angle of six degrees
            let want = 8.0 * 148.688493 * 6f64.to_radians().cos();
            assert!((a as f64 / 1e6 - want).abs() < 0.01, "{a} {want}");
        }
        AreaCache::Empty => panic!("nothing remembered"),
    }
    // back within five degrees of the new angle
    let remembered = area;
    update_cross_section(&off4, &forward, &small, &mut area);
    assert_eq!(area, remembered);
    // at rest there is no area and nothing is remembered
    update_cross_section(&Vec3::new(100, 0, 0), &forward, &small, &mut area);
    assert_eq!(area, CrossSectionArea { cache: AreaCache::Empty, area: 0 });
    // what cannot be computed changes nothing
    let mut kept = remembered;
    update_cross_section(&v(0, 0, 50), &forward, &vec![wall(0, 0, 1_074)], &mut kept);
    assert_eq!(kept, remembered);
}

#[test]
fn union_of_many_triangles_stays_within_their_box() {
    let mut seed: u64 = 11;
    let mut next = |limit: i32| {
        seed = seed.wrapping_mul(6364136223846793005).wrapping_add(1442695040888963407);
        ((seed >> 33) % limit as u64) as i32
    };
    let side = 10_000 * MM;
    let mut contours = vec![];
    let mut largest: i128 = 0;
    for k in 0..120 {
        let t = if k % 10 == 0 {
            // three points on a line, or twice the same point
            let (x, y) = (next(side), next(side));
            vec![p(x, y), p(x / 2, y / 2), p(0, 0)]
        } else if k % 10 == 1 {
            let a = p(next(side), next(side));
            vec![a, a, p(next(side), next(side))]
        } else {
            vec![p(next(side), next(side)), p(next(side), next(side)), p(next(side), next(side))]
        };
        largest = largest.max(contour_twice_area(&t).abs() / 2_000_000);
        contours.push(t);
    }
    let shapes = unite(&contours).unwrap();
    assert!(shapes_fit(&shapes));
    let area = shapes_area(&shapes) as i128;
    assert!(area >= largest, "{area} {largest}");
    assert!(area <= 100 * M as i128, "{area}");
    // the order of the triangles plays no part in the area
    contours.reverse();
    let again = unite(&contours).unwrap();
    assert!((shapes_area(&again) as i128 - area).abs() <= 1, "{} {area}", shapes_area(&again));
}
