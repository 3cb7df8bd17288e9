//! The frontal area of a body: the area of the shadow that its triangles
//! cast on the plane at right angles to the relative wind.
//!
//! The triangles are laid into that plane, united into polygons, so that
//! overlapping triangles count once, and the polygons measured. The union
//! of polygons is the work of the `i_overlay` crate.
use crate::elementary::{atan2, fx_atan2};
use crate::fixed::{
    clamp_to_i64, fx_abs, fx_mul, fx_sub, magnitude, sat, scaled_mul, trunc_div, SCALE,
};
use crate::vector::Vec3;
use i_overlay::i_float::int::point::IntPoint;
use vstd::prelude::*;

verus! {

/// Coordinates of the plane must lie strictly between `-COORD_LIMIT` and
/// `COORD_LIMIT`, in millionths of a metre.
pub const COORD_LIMIT: i64 = 0x4000_0000;

/// Square metres to one square unit of the collision meshes.
pub const AREA_UNIT: i64 = 148_688_493;

/// Speed at or below which a body has no frontal area, in m/s.
pub const MIN_AREA_SPEED: i64 = 100;

/// Change of the wind's angle to the forward axis, in radians, up to which
/// the last area stays in use: 5 degrees.
pub const AREA_CONE: i64 = 87_266;

/// Component of a unit vector along the world's `x` axis from which the
/// vector counts as parallel to that axis.
pub const PARALLEL_LIMIT: i64 = 999_990;

/// A point of the plane, in millionths of a metre.
#[derive(Clone, Copy, Debug, PartialEq, Eq, Structural)]
pub struct Point2 {
    pub x: i32,
    pub y: i32,
}

impl Point2 {
    pub fn new(x: i32, y: i32) -> (r: Point2)
        ensures
            r == (Point2 { x, y }),
    {
        Point2 { x, y }
    }
}

/// A triangle in space, relative to the body.
#[derive(Clone, Copy, Debug, PartialEq, Eq, Structural)]
pub struct Triangle {
    pub a: Vec3,
    pub b: Vec3,
    pub c: Vec3,
}

/// What is remembered of the last area that was computed.
#[derive(Clone, Copy, Debug, PartialEq, Eq, Structural)]
pub enum AreaCache {
    /// Nothing is remembered.
    Empty,
    /// The area, and the angle between the wind and the forward axis for
    /// which it was computed.
    Final { area: i64, angle: i64 },
}

/// The frontal area of a body, in m^2.
#[derive(Clone, Copy, Debug, PartialEq, Eq, Structural)]
pub struct CrossSectionArea {
    pub cache: AreaCache,
    pub area: i64,
}

/// The polygons that cover what `subject` or `clip` covers, each of the two
/// filled by the even-odd rule: what `i_overlay` returns for their union. A
/// polygon is a list of contours, the outer boundary first, counterclockwise,
/// then its holes, clockwise.
pub uninterp spec fn union_of(subject: Seq<Seq<Seq<Point2>>>, clip: Seq<Seq<Seq<Point2>>>) -> Seq<
    Seq<Seq<Point2>>,
>;

/// The points of a list of polygons.
pub open spec fn shapes_view(shapes: Vec<Vec<Vec<Point2>>>) -> Seq<Seq<Seq<Point2>>> {
    shapes@.map_values(|s: Vec<Vec<Point2>>| s@.map_values(|c: Vec<Point2>| c@))
}

/// The lists of points of a list of contours.
pub open spec fn contours_view(contours: Vec<Vec<Point2>>) -> Seq<Seq<Point2>> {
    contours@.map_values(|c: Vec<Point2>| c@)
}

/// Both coordinates of the point lie inside the limit.
pub open spec fn point_in_range(p: Point2) -> bool {
    -COORD_LIMIT < p.x < COORD_LIMIT && -COORD_LIMIT < p.y < COORD_LIMIT
}

pub open spec fn contour_in_range(c: Seq<Point2>) -> bool {
    forall|k: int| 0 <= k < c.len() ==> point_in_range(#[trigger] c[k])
}

pub open spec fn shape_in_range(s: Seq<Seq<Point2>>) -> bool {
    forall|j: int| 0 <= j < s.len() ==> contour_in_range(#[trigger] s[j])
}

pub open spec fn shapes_in_range(shapes: Seq<Seq<Seq<Point2>>>) -> bool {
    forall|i: int| 0 <= i < shapes.len() ==> shape_in_range(#[trigger] shapes[i])
}

/// The union of the first `n` contours, taken one after the other into an
/// empty plane; `None` once a point lies outside the limit.
pub open spec fn united(contours: Seq<Seq<Point2>>, n: nat) -> Option<Seq<Seq<Seq<Point2>>>>
    decreases n,
{
    if n == 0 {
        Some(Seq::empty())
    } else {
        match united(contours, (n - 1) as nat) {
            Some(s) => if shapes_in_range(s) && contour_in_range(contours[n - 1]) {
                Some(union_of(s, seq![seq![contours[n - 1]]]))
            } else {
                None
            },
            None => None,
        }
    }
}

/// Clamps a mathematical integer into the range of 128 bits.
pub open spec fn sat128(x: int) -> int {
    if x < i128::MIN as int {
        i128::MIN as int
    } else if x > i128::MAX as int {
        i128::MAX as int
    } else {
        x
    }
}

/// The share of the edge that starts at point `i` in the doubled area of a
/// contour: the cross product of the point with the next one, the first
/// following the last.
pub open spec fn edge_cross(c: Seq<Point2>, i: int) -> int {
    let j = if i + 1 == c.len() {
        0
    } else {
        i + 1
    };
    c[i].x * c[j].y - c[j].x * c[i].y
}

/// The sum of the first `n` edges' shares.
pub open spec fn twice_area_upto(c: Seq<Point2>, n: nat) -> int
    decreases n,
{
    if n == 0 {
        0
    } else {
        twice_area_upto(c, (n - 1) as nat) + edge_cross(c, n - 1)
    }
}

/// Twice the area that a contour encloses, by the shoelace formula: positive
/// for a counterclockwise contour, negative for a clockwise one.
pub open spec fn twice_area(c: Seq<Point2>) -> int {
    twice_area_upto(c, c.len())
}

/// The sum of the doubled areas of the first `n` contours of a polygon,
/// saturating.
pub open spec fn shape_twice_area(s: Seq<Seq<Point2>>, n: nat) -> int
    decreases n,
{
    if n == 0 {
        0
    } else {
        sat128(shape_twice_area(s, (n - 1) as nat) + twice_area(s[n - 1]))
    }
}

/// The sum of the doubled areas of the first `n` polygons, saturating.
pub open spec fn shapes_twice_area(shapes: Seq<Seq<Seq<Point2>>>, n: nat) -> int
    decreases n,
{
    if n == 0 {
        0
    } else {
        sat128(
            shapes_twice_area(shapes, (n - 1) as nat) + shape_twice_area(
                shapes[n - 1],
                shapes[n - 1].len(),
            ),
        )
    }
}

/// The area of a list of polygons, in m^2: holes, being clockwise, count
/// against the boundary around them.
pub open spec fn area_of(shapes: Seq<Seq<Seq<Point2>>>) -> int {
    sat(trunc_div(shapes_twice_area(shapes, shapes.len()), 2_000_000))
}

/// The unit vector of the plane's first axis: at right angles to the wind
/// and to the world's `x` axis, or to its `y` axis where the wind blows
/// along `x`.
pub open spec fn plane_u(direction: Vec3) -> Vec3 {
    let helper = if sat(magnitude(direction.x as int)) >= PARALLEL_LIMIT {
        Vec3 { x: 0, y: SCALE, z: 0 }
    } else {
        Vec3 { x: SCALE, y: 0, z: 0 }
    };
    direction.spec_cross(helper).spec_normalize()
}

/// The unit vector of the plane's second axis: at right angles to the wind
/// and to the first axis.
pub open spec fn plane_w(direction: Vec3) -> Vec3 {
    direction.spec_cross(plane_u(direction)).spec_normalize()
}

/// A point of space laid into the plane with the axes `u` and `w`; `None`
/// where it falls outside the limit.
pub open spec fn projected(p: Vec3, u: Vec3, w: Vec3) -> Option<Point2> {
    let x = p.spec_dot(u);
    let y = p.spec_dot(w);
    if -COORD_LIMIT < x < COORD_LIMIT && -COORD_LIMIT < y < COORD_LIMIT {
        Some(Point2 { x: x as i32, y: y as i32 })
    } else {
        None
    }
}

/// A triangle laid into the plane.
pub open spec fn projected_triangle(t: Triangle, u: Vec3, w: Vec3) -> Option<Seq<Point2>> {
    match (projected(t.a, u, w), projected(t.b, u, w), projected(t.c, u, w)) {
        (Some(a), Some(b), Some(c)) => Some(seq![a, b, c]),
        _ => None,
    }
}

/// The first `n` triangles laid into the plane; `None` where one of them
/// falls outside the limit.
pub open spec fn projected_all(triangles: Seq<Triangle>, u: Vec3, w: Vec3, n: nat) -> Option<
    Seq<Seq<Point2>>,
>
    decreases n,
{
    if n == 0 {
        Some(Seq::empty())
    } else {
        match (projected_all(triangles, u, w, (n - 1) as nat), projected_triangle(triangles[n - 1], u, w)) {
            (Some(done), Some(t)) => Some(done.push(t)),
            _ => None,
        }
    }
}

/// The frontal area, in m^2, of the triangles for a wind along `velocity`:
/// the area of the union of their shadows, in units of the meshes, times
/// [`AREA_UNIT`]. `None` where a point falls outside the limit.
pub open spec fn frontal_area(velocity: Vec3, triangles: Seq<Triangle>) -> Option<int> {
    let d = velocity.spec_normalize();
    match projected_all(triangles, plane_u(d), plane_w(d), triangles.len()) {
        Some(contours) => match united(contours, contours.len()) {
            Some(shapes) => Some(scaled_mul(area_of(shapes), AREA_UNIT as int)),
            None => None,
        },
        None => None,
    }
}

/// The angle between the wind and the forward axis, in radians between 0
/// and pi.
pub open spec fn wind_angle(velocity: Vec3, forward: Vec3) -> int {
    let d = velocity.spec_normalize();
    atan2(d.spec_cross(forward).spec_length(), d.spec_dot(forward))
}

impl CrossSectionArea {
    /// The frontal area after a tick.
    ///
    /// A body at rest has none. A body that moves keeps the area of the last
    /// computation while the wind's angle to the forward axis stays within 5
    /// degrees of the angle of that computation; beyond that, or with
    /// nothing remembered, the area is computed anew and remembered with its
    /// angle. Where it cannot be computed, nothing changes.
    pub open spec fn updated(self, velocity: Vec3, forward: Vec3, triangles: Seq<Triangle>) -> CrossSectionArea {
        if velocity.spec_length() <= MIN_AREA_SPEED {
            CrossSectionArea { cache: AreaCache::Empty, area: 0 }
        } else {
            let angle = wind_angle(velocity, forward);
            match self.cache {
                AreaCache::Final { area, angle: last } if sat(magnitude(sat(angle - last)))
                    <= AREA_CONE => CrossSectionArea { cache: self.cache, area },
                _ => match frontal_area(velocity, triangles) {
                    Some(a) => CrossSectionArea {
                        cache: AreaCache::Final { area: a as i64, angle: angle as i64 },
                        area: a as i64,
                    },
                    None => self,
                },
            }
        }
    }
}

/// Unites two lists of polygons.
///
/// Calls `i_overlay::core::overlay::Overlay::overlay` with the union rule
/// and the even-odd fill rule on the 32-bit engine, `subject` as the
/// subject and `clip` as the clip. The contract gives the result its name,
/// [`union_of`], and states nothing else of it. `i_overlay` asks that every
/// coordinate lie inside the limit and does not check it.
#[verifier::external_body]
fn overlay_union(subject: &Vec<Vec<Vec<Point2>>>, clip: &Vec<Vec<Vec<Point2>>>) -> (out: Vec<Vec<Vec<Point2>>>)
    requires
        shapes_in_range(shapes_view(*subject)),
        shapes_in_range(shapes_view(*clip)),
    ensures
        shapes_view(out) == union_of(shapes_view(*subject), shapes_view(*clip)),
{
    let conv = |v: &Vec<Vec<Vec<Point2>>>| -> Vec<Vec<Vec<IntPoint<i32>>>> {
        v.iter().map(|s| s.iter().map(|c| c.iter().map(|p| IntPoint::new(p.x, p.y)).collect()).collect()).collect()
    };
    i_overlay::core::overlay::Overlay::from_subj_and_clip(&conv(subject), &conv(clip))
        .overlay(i_overlay::core::overlay_rule::OverlayRule::Union, i_overlay::core::fill_rule::FillRule::EvenOdd)
        .iter().map(|s| s.iter().map(|c| c.iter().map(|p| Point2 { x: p.x, y: p.y }).collect()).collect()).collect()
}

/// Tells whether every point of the contour lies inside the limit.
pub fn contour_fits(c: &Vec<Point2>) -> (ok: bool)
    ensures
        ok == contour_in_range(c@),
{
    let n: usize = c.len();
    let mut k: usize = 0;
    while k < n
        invariant
            0 <= k <= n,
            n == c.len(),
            forall|i: int| 0 <= i < k ==> point_in_range(#[trigger] c[i]),
        decreases n - k,
    {
        let p: Point2 = c[k];
        if !(-COORD_LIMIT < p.x as i64 && (p.x as i64) < COORD_LIMIT && -COORD_LIMIT < p.y as i64 && (
        p.y as i64) < COORD_LIMIT) {
            assert(!point_in_range(c[k as int]));
            return false;
        }
        k = k + 1;
    }
    true
}

/// Tells whether every point of the polygons lies inside the limit.
pub fn shapes_fit(shapes: &Vec<Vec<Vec<Point2>>>) -> (ok: bool)
    ensures
        ok == shapes_in_range(shapes_view(*shapes)),
{
    let ghost view = shapes_view(*shapes);
    let n: usize = shapes.len();
    let mut i: usize = 0;
    while i < n
        invariant
            0 <= i <= n,
            n == shapes.len(),
            view == shapes_view(*shapes),
            forall|a: int| 0 <= a < i ==> shape_in_range(#[trigger] view[a]),
        decreases n - i,
    {
        let shape = &shapes[i];
        let m: usize = shape.len();
        let mut j: usize = 0;
        while j < m
            invariant
                0 <= j <= m,
                0 <= i < n,
                n == shapes.len(),
                shape == shapes[i as int],
                m == shape.len(),
                view == shapes_view(*shapes),
                forall|b: int| 0 <= b < j ==> contour_in_range(#[trigger] view[i as int][b]),
            decreases m - j,
        {
            if !contour_fits(&shape[j]) {
                assert(view[i as int][j as int] == shape[j as int]@);
                assert(!shape_in_range(view[i as int]));
                return false;
            }
            assert(view[i as int][j as int] == shape[j as int]@);
            j = j + 1;
        }
        assert(view[i as int].len() == m);
        i = i + 1;
    }
    true
}

/// Unites the contours, one after the other, into polygons that cover what
/// any of them covers; `None` once a point lies outside the limit.
pub fn unite(contours: &Vec<Vec<Point2>>) -> (r: Option<Vec<Vec<Vec<Point2>>>>)
    ensures
        match r {
            Some(shapes) => united(contours_view(*contours), contours.len() as nat) == Some(
                shapes_view(shapes),
            ),
            None => united(contours_view(*contours), contours.len() as nat).is_none(),
        },
{
    let ghost view = contours_view(*contours);
    let n: usize = contours.len();
    let mut shapes: Vec<Vec<Vec<Point2>>> = Vec::new();
    assert(shapes_view(shapes) =~= Seq::empty());
    let mut k: usize = 0;
    while k < n
        invariant
            0 <= k <= n,
            n == contours.len(),
            view == contours_view(*contours),
            united(view, k as nat) == Some(shapes_view(shapes)),
        decreases n - k,
    {
        assert(view[k as int] == contours[k as int]@);
        if !shapes_fit(&shapes) || !contour_fits(&contours[k]) {
            proof {
                lemma_united_stays_none(view, (k + 1) as nat, n as nat);
            }
            return None;
        }
        let mut shape: Vec<Vec<Point2>> = Vec::new();
        shape.push(contours[k].clone());
        let mut clip: Vec<Vec<Vec<Point2>>> = Vec::new();
        clip.push(shape);
        assert(shapes_view(clip) =~= seq![seq![view[k as int]]]) by {
            assert(shapes_view(clip)[0] =~= seq![view[k as int]]);
        }
        assert(shapes_in_range(shapes_view(clip))) by {
            assert(shape_in_range(shapes_view(clip)[0]));
        }
        shapes = overlay_union(&shapes, &clip);
        k = k + 1;
    }
    Some(shapes)
}

/// Once a union has failed it stays failed.
pub proof fn lemma_united_stays_none(contours: Seq<Seq<Point2>>, k: nat, n: nat)
    requires
        k <= n,
        united(contours, k).is_none(),
    ensures
        united(contours, n).is_none(),
    decreases n,
{
    if n > k {
        lemma_united_stays_none(contours, k, (n - 1) as nat);
    }
}

/// Twice the area that a contour encloses.
pub fn contour_twice_area(c: &Vec<Point2>) -> (r: i128)
    ensures
        r == twice_area(c@),
{
    let n: usize = c.len();
    let mut acc: i128 = 0;
    let mut i: usize = 0;
    while i < n
        invariant
            0 <= i <= n,
            n == c.len(),
            acc == twice_area_upto(c@, i as nat),
            -0x8000_0000_0000_0000 * i <= acc <= 0x8000_0000_0000_0000 * i,
        decreases n - i,
    {
        let j: usize = if i + 1 == n {
            0
        } else {
            i + 1
        };
        let p: Point2 = c[i];
        let q: Point2 = c[j];
        let px: i128 = p.x as i128;
        let py: i128 = p.y as i128;
        let qx: i128 = q.x as i128;
        let qy: i128 = q.y as i128;
        assert(-0x4000_0000_0000_0000 <= px * qy <= 0x4000_0000_0000_0000) by (nonlinear_arith)
            requires
                -0x8000_0000 <= px <= 0x8000_0000,
                -0x8000_0000 <= qy <= 0x8000_0000,
        ;
        assert(-0x4000_0000_0000_0000 <= qx * py <= 0x4000_0000_0000_0000) by (nonlinear_arith)
            requires
                -0x8000_0000 <= qx <= 0x8000_0000,
                -0x8000_0000 <= py <= 0x8000_0000,
        ;
        acc = acc + (px * qy - qx * py);
        i = i + 1;
    }
    acc
}

/// Saturating sum of two 128-bit numbers.
pub fn add_sat128(a: i128, b: i128) -> (r: i128)
    ensures
        r == sat128(a + b),
{
    match a.checked_add(b) {
        Some(s) => s,
        None => if a < 0 {
            i128::MIN
        } else {
            i128::MAX
        },
    }
}

/// The area of a list of polygons, in m^2.
pub fn shapes_area(shapes: &Vec<Vec<Vec<Point2>>>) -> (r: i64)
    ensures
        r == area_of(shapes_view(*shapes)),
{
    let ghost view = shapes_view(*shapes);
    let n: usize = shapes.len();
    let mut total: i128 = 0;
    let mut i: usize = 0;
    while i < n
        invariant
            0 <= i <= n,
            n == shapes.len(),
            view == shapes_view(*shapes),
            total == shapes_twice_area(view, i as nat),
        decreases n - i,
    {
        let shape = &shapes[i];
        let m: usize = shape.len();
        let mut part: i128 = 0;
        let mut j: usize = 0;
        while j < m
            invariant
                0 <= j <= m,
                0 <= i < n,
                n == shapes.len(),
                shape == shapes[i as int],
                m == shape.len(),
                view == shapes_view(*shapes),
                part == shape_twice_area(view[i as int], j as nat),
            decreases m - j,
        {
            assert(view[i as int][j as int] == shape[j as int]@);
            part = add_sat128(part, contour_twice_area(&shape[j]));
            j = j + 1;
        }
        assert(view[i as int].len() == m);
        total = add_sat128(total, part);
        i = i + 1;
    }
    clamp_to_i64(total / 2_000_000)
}

/// Lays a point of space into the plane with the axes `u` and `w`.
pub fn project_point(p: &Vec3, u: &Vec3, w: &Vec3) -> (r: Option<Point2>)
    ensures
        r == projected(*p, *u, *w),
{
    let x: i64 = p.dot(u);
    let y: i64 = p.dot(w);
    if -COORD_LIMIT < x && x < COORD_LIMIT && -COORD_LIMIT < y && y < COORD_LIMIT {
        Some(Point2 { x: x as i32, y: y as i32 })
    } else {
        None
    }
}

/// Lays a triangle into the plane with the axes `u` and `w`.
pub fn project_triangle(t: &Triangle, u: &Vec3, w: &Vec3) -> (r: Option<Vec<Point2>>)
    ensures
        match r {
            Some(c) => projected_triangle(*t, *u, *w) == Some(c@),
            None => projected_triangle(*t, *u, *w).is_none(),
        },
{
    match (project_point(&t.a, u, w), project_point(&t.b, u, w), project_point(&t.c, u, w)) {
        (Some(a), Some(b), Some(c)) => {
            let mut contour: Vec<Point2> = Vec::new();
            contour.push(a);
            contour.push(b);
            contour.push(c);
            assert(contour@ =~= seq![a, b, c]);
            Some(contour)
        },
        _ => None,
    }
}

/// The two axes of the plane at right angles to a wind along `direction`.
pub fn plane_basis(direction: &Vec3) -> (r: (Vec3, Vec3))
    ensures
        r.0 == plane_u(*direction),
        r.1 == plane_w(*direction),
{
    let helper = if fx_abs(direction.x) >= PARALLEL_LIMIT {
        Vec3 { x: 0, y: SCALE, z: 0 }
    } else {
        Vec3 { x: SCALE, y: 0, z: 0 }
    };
    let u = direction.cross(&helper).normalize();
    let w = direction.cross(&u).normalize();
    (u, w)
}

/// Once a triangle has fallen outside the limit the projection stays
/// failed.
pub proof fn lemma_projected_stays_none(triangles: Seq<Triangle>, u: Vec3, w: Vec3, k: nat, n: nat)
    requires
        k <= n,
        projected_all(triangles, u, w, k).is_none(),
    ensures
        projected_all(triangles, u, w, n).is_none(),
    decreases n,
{
    if n > k {
        lemma_projected_stays_none(triangles, u, w, k, (n - 1) as nat);
    }
}

/// The frontal area, in m^2, of the triangles for a wind along `velocity`.
pub fn cross_section_area(velocity: &Vec3, triangles: &Vec<Triangle>) -> (r: Option<i64>)
    ensures
        match r {
            Some(a) => frontal_area(*velocity, triangles@) == Some(a as int),
            None => frontal_area(*velocity, triangles@).is_none(),
        },
{
    let d = velocity.normalize();
    let (u, w) = plane_basis(&d);
    let n: usize = triangles.len();
    let mut contours: Vec<Vec<Point2>> = Vec::new();
    assert(contours_view(contours) =~= Seq::empty());
    let mut k: usize = 0;
    while k < n
        invariant
            0 <= k <= n,
            n == triangles.len(),
            contours.len() == k,
            d == velocity.spec_normalize(),
            u == plane_u(d),
            w == plane_w(d),
            projected_all(triangles@, u, w, k as nat) == Some(contours_view(contours)),
        decreases n - k,
    {
        match project_triangle(&triangles[k], &u, &w) {
            Some(c) => {
                let ghost before = contours_view(contours);
                contours.push(c);
                assert(contours_view(contours) =~= before.push(c@));
            },
            None => {
                proof {
                    assert(projected_triangle(triangles@[k as int], u, w).is_none());
                    assert(projected_all(triangles@, u, w, (k + 1) as nat).is_none());
                    lemma_projected_stays_none(triangles@, u, w, (k + 1) as nat, n as nat);
                }
                return None;
            },
        }
        k = k + 1;
    }
    assert(contours_view(contours).len() == contours.len());
    match unite(&contours) {
        Some(shapes) => Some(fx_mul(shapes_area(&shapes), AREA_UNIT)),
        None => None,
    }
}

/// Brings the frontal area of a body up to date for the tick.
///
/// `velocity` is the body's velocity, `forward` its forward axis and
/// `triangles` its collision triangles relative to its position, all in
/// the world frame.
pub fn update_cross_section(
    velocity: &Vec3,
    forward: &Vec3,
    triangles: &Vec<Triangle>,
    cross_section: &mut CrossSectionArea,
)
    ensures
        *final(cross_section) == old(cross_section).updated(*velocity, *forward, triangles@),
{
    if velocity.length() <= MIN_AREA_SPEED {
        cross_section.cache = AreaCache::Empty;
        cross_section.area = 0;
        return;
    }
    let d = velocity.normalize();
    let angle: i64 = fx_atan2(d.cross(forward).length(), d.dot(forward));
    match cross_section.cache {
        AreaCache::Final { area, angle: last } => {
            if fx_abs(fx_sub(angle, last)) <= AREA_CONE {
                cross_section.area = area;
                return;
            }
        },
        AreaCache::Empty => {},
    }
    match cross_section_area(velocity, triangles) {
        Some(a) => {
            cross_section.cache = AreaCache::Final { area: a, angle };
            cross_section.area = a;
        },
        None => {},
    }
}

/// The shoelace formula gives for a triangle the cross product of two of
/// its sides: twice its area, positive for a counterclockwise triangle.
pub proof fn law_triangle_area(a: Point2, b: Point2, c: Point2)
    ensures
        twice_area(seq![a, b, c]) == (b.x - a.x) * (c.y - a.y) - (c.x - a.x) * (b.y - a.y),
        twice_area(seq![a, c, b]) == -twice_area(seq![a, b, c]),
{
    let t = seq![a, b, c];
    assert(twice_area_upto(t, 0) == 0);
    assert(twice_area_upto(t, 1) == edge_cross(t, 0));
    assert(twice_area_upto(t, 2) == edge_cross(t, 0) + edge_cross(t, 1));
    assert(twice_area_upto(t, 3) == edge_cross(t, 0) + edge_cross(t, 1) + edge_cross(t, 2));
    let r = seq![a, c, b];
    assert(twice_area_upto(r, 0) == 0);
    assert(twice_area_upto(r, 1) == edge_cross(r, 0));
    assert(twice_area_upto(r, 2) == edge_cross(r, 0) + edge_cross(r, 1));
    assert(twice_area_upto(r, 3) == edge_cross(r, 0) + edge_cross(r, 1) + edge_cross(r, 2));
    let (ax, ay, bx, by, cx, cy) = (a.x as int, a.y as int, b.x as int, b.y as int, c.x as int, c.y as int);
    assert((ax * by - bx * ay) + (bx * cy - cx * by) + (cx * ay - ax * cy) == (bx - ax) * (cy - ay) - (cx
        - ax) * (by - ay)) by (nonlinear_arith);
    assert((ax * cy - cx * ay) + (cx * by - bx * cy) + (bx * ay - ax * by) == -((ax * by - bx * ay) + (bx
        * cy - cx * by) + (cx * ay - ax * cy))) by (nonlinear_arith);
}

impl Default for AreaCache {
    fn default() -> (r: AreaCache)
        ensures
            r == AreaCache::Empty,
    {
        AreaCache::Empty
    }
}

impl Default for CrossSectionArea {
    fn default() -> (r: CrossSectionArea)
        ensures
            r == (CrossSectionArea { cache: AreaCache::Empty, area: 0 }),
    {
        CrossSectionArea { cache: AreaCache::Empty, area: 0 }
    }
}

} // verus!
