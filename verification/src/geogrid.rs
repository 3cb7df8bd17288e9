//! Sampling of scalar and categorical fields over a rectangular, non-uniform
//! latitude/longitude grid.
use crate::fixed::{
    clamp, clamp_to_i64, lemma_mul_div_cancel, max2, min2, sat, trunc_div, SCALE,
};
use vstd::prelude::*;

verus! {

/// Why a grid cannot be sampled.
#[derive(Clone, Copy, Debug, PartialEq, Eq, Structural)]
pub enum LookupError {
    /// An axis has too few grid lines.
    InsufficientGrid,
    /// The data array does not hold one value per grid point.
    SizeMismatch,
}

/// The two axes of a grid: the latitudes and longitudes of its grid lines, in
/// millionths of a degree. A data array belonging to the grid holds one value
/// per grid point, row-major: the value at `(lat_idx, lon_idx)` is at
/// `lat_idx * lons.len() + lon_idx`.
#[derive(Debug)]
pub struct GeoGrid {
    pub lats: Vec<i64>,
    pub lons: Vec<i64>,
}

/// `axis` is strictly increasing.
pub open spec fn strictly_increasing(axis: Seq<i64>) -> bool {
    forall|i: int, j: int| 0 <= i < j < axis.len() ==> axis[i] < axis[j]
}

/// `i` is the cell of `axis` that holds `x`: grid line `i` is at or below `x`
/// and the next one is above it, the last cell also taking its upper boundary.
pub open spec fn is_cell(axis: Seq<i64>, x: int, i: int) -> bool {
    &&& 0 <= i <= axis.len() - 2
    &&& axis[i] <= x
    &&& (i == axis.len() - 2 || x < axis[i + 1])
}

/// The cell of `axis` that holds `x`.
pub open spec fn cell_index(axis: Seq<i64>, x: int) -> int {
    choose|i: int| is_cell(axis, x, i)
}

/// Distance between two points of an axis.
pub open spec fn gap(a: int, b: int) -> int {
    if a >= b {
        a - b
    } else {
        b - a
    }
}

/// `k` is the grid line of `axis` nearest to `x`, the upper one of two that
/// are equally near.
pub open spec fn is_nearest(axis: Seq<i64>, x: int, k: int) -> bool {
    &&& 0 <= k < axis.len()
    &&& forall|j: int|
        0 <= j < axis.len() ==> gap(axis[k] as int, x) < gap(#[trigger] axis[j] as int, x) || (gap(
            axis[k] as int,
            x,
        ) == gap(axis[j] as int, x) && j <= k)
}

/// The index of the grid line nearest to `x`.
pub open spec fn nearest_index(axis: Seq<i64>, x: int) -> int {
    choose|k: int| is_nearest(axis, x, k)
}

/// Fractional position of `x` between the grid lines `x0` and `x1`, as a
/// fixed-point number. The denominator is floored to one millionth, so that
/// two grid lines in one place divide by no zero; between the lines of a
/// strictly increasing axis the floor is never reached.
pub open spec fn cell_weight(x: int, x0: int, x1: int) -> int {
    trunc_div((x - x0) * SCALE as int, if x1 - x0 < 1 { 1 } else { x1 - x0 })
}

/// Linear interpolation from `a` (at `t == 0`) to `b` (at `t == SCALE`).
pub open spec fn lerp(a: int, b: int, t: int) -> int {
    sat(trunc_div(a * (SCALE as int - t) + b * t, SCALE as int))
}

/// Bilinear interpolation of `data` at `(lat, lon)`, both clamped into the
/// range that the axes cover.
pub open spec fn bilinear(lat: int, lon: int, lats: Seq<i64>, lons: Seq<i64>, data: Seq<i64>) -> int {
    let clat = clamp(lat, lats[0] as int, lats[lats.len() - 1] as int);
    let clon = clamp(lon, lons[0] as int, lons[lons.len() - 1] as int);
    let i = cell_index(lats, clat);
    let j = cell_index(lons, clon);
    let t = cell_weight(clat, lats[i] as int, lats[i + 1] as int);
    let u = cell_weight(clon, lons[j] as int, lons[j + 1] as int);
    let n = lons.len() as int;
    let f0 = lerp(data[i * n + j] as int, data[(i + 1) * n + j] as int, t);
    let f1 = lerp(data[i * n + j + 1] as int, data[(i + 1) * n + j + 1] as int, t);
    lerp(f0, f1, u)
}

/// What sampling returns: an error for an unusable grid, else the
/// interpolated value.
pub open spec fn sample(lat: int, lon: int, lats: Seq<i64>, lons: Seq<i64>, data: Seq<i64>) -> Result<
    i64,
    LookupError,
> {
    if lats.len() < 2 || lons.len() < 2 {
        Err(LookupError::InsufficientGrid)
    } else if data.len() != lats.len() * lons.len() {
        Err(LookupError::SizeMismatch)
    } else {
        Ok(bilinear(lat, lon, lats, lons, data) as i64)
    }
}

/// What categorical sampling returns: an error for an unusable grid, else the
/// value stored at the grid point nearest on each axis.
pub open spec fn sample_nearest<T>(lat: int, lon: int, lats: Seq<i64>, lons: Seq<i64>, data: Seq<T>) -> Result<
    T,
    LookupError,
> {
    if lats.len() < 1 || lons.len() < 1 {
        Err(LookupError::InsufficientGrid)
    } else if data.len() != lats.len() * lons.len() {
        Err(LookupError::SizeMismatch)
    } else {
        let clat = clamp(lat, lats[0] as int, lats[lats.len() - 1] as int);
        let clon = clamp(lon, lons[0] as int, lons[lons.len() - 1] as int);
        Ok(data[nearest_index(lats, clat) * lons.len() + nearest_index(lons, clon)])
    }
}

/// On a strictly increasing axis a point lies in one cell only.
pub proof fn lemma_cell_unique(axis: Seq<i64>, x: int, i: int, j: int)
    requires
        strictly_increasing(axis),
        is_cell(axis, x, i),
        is_cell(axis, x, j),
    ensures
        i == j,
{
    if i < j {
        assert(axis[i + 1] <= axis[j]);
    } else if j < i {
        assert(axis[j + 1] <= axis[i]);
    }
}

/// Any index that passes [`is_cell`] is the value of [`cell_index`].
pub proof fn lemma_cell_index_is(axis: Seq<i64>, x: int, i: int)
    requires
        strictly_increasing(axis),
        is_cell(axis, x, i),
    ensures
        cell_index(axis, x) == i,
{
    lemma_cell_unique(axis, x, i, cell_index(axis, x));
}

/// On a strictly increasing axis one grid line only is the nearest.
pub proof fn lemma_nearest_unique(axis: Seq<i64>, x: int, k: int, m: int)
    requires
        is_nearest(axis, x, k),
        is_nearest(axis, x, m),
    ensures
        k == m,
{
    let at_k = axis[k];
    let at_m = axis[m];
}

/// Any index that passes [`is_nearest`] is the value of [`nearest_index`].
pub proof fn lemma_nearest_index_is(axis: Seq<i64>, x: int, k: int)
    requires
        is_nearest(axis, x, k),
    ensures
        nearest_index(axis, x) == k,
{
    lemma_nearest_unique(axis, x, k, nearest_index(axis, x));
}

/// The weight of a point inside its cell lies between 0 and 1.
pub proof fn lemma_cell_weight_range(x: int, x0: int, x1: int)
    requires
        x0 <= x <= x1,
    ensures
        0 <= cell_weight(x, x0, x1) <= SCALE,
        x == x0 ==> cell_weight(x, x0, x1) == 0,
        x == x1 && x0 < x1 ==> cell_weight(x, x0, x1) == SCALE,
{
    let d = if x1 - x0 < 1 { 1 } else { x1 - x0 };
    let a = x - x0;
    assert(0 <= (a * 1_000_000) / d <= 1_000_000) by (nonlinear_arith)
        requires
            0 <= a <= d,
            d >= 1,
    ;
    assert(a * 1_000_000 >= 0) by (nonlinear_arith)
        requires
            a >= 0,
    ;
    if x == x1 && x0 < x1 {
        assert(a * 1_000_000 == 1_000_000 * d) by (nonlinear_arith)
            requires
                a == d,
        ;
        lemma_mul_div_cancel(1_000_000, d);
    }
}

/// Interpolation stays between its two end values and returns them exactly
/// at the ends.
pub proof fn lemma_lerp_range(a: int, b: int, t: int)
    requires
        i64::MIN <= a <= i64::MAX,
        i64::MIN <= b <= i64::MAX,
        0 <= t <= SCALE,
    ensures
        a <= b ==> a <= lerp(a, b, t) <= b,
        b <= a ==> b <= lerp(a, b, t) <= a,
        lerp(a, b, 0) == a,
        lerp(a, b, SCALE as int) == b,
        lerp(a, b, t) == trunc_div(a * (SCALE as int - t) + b * t, SCALE as int),
{
    let s: int = 1_000_000;
    let lo = if a <= b { a } else { b };
    let hi = if a <= b { b } else { a };
    let w = a * (s - t) + b * t;
    assert(lo * s <= w <= hi * s) by (nonlinear_arith)
        requires
            lo <= a <= hi,
            lo <= b <= hi,
            0 <= t <= s,
            w == a * (s - t) + b * t,
    ;
    lemma_trunc_div_between(w, lo, hi, s);
    assert(a * (s - 0) + b * 0 == a * s) by (nonlinear_arith);
    assert(a * (s - s) + b * s == b * s) by (nonlinear_arith);
    lemma_mul_div_cancel(a, s);
    lemma_mul_div_cancel(b, s);
}

/// A numerator between `lo * d` and `hi * d` gives a quotient between `lo`
/// and `hi`.
pub proof fn lemma_trunc_div_between(w: int, lo: int, hi: int, d: int)
    requires
        d > 0,
        lo * d <= w <= hi * d,
    ensures
        lo <= trunc_div(w, d) <= hi,
{
    if w >= 0 {
        assert(w / d <= hi) by (nonlinear_arith)
            requires
                w <= hi * d,
                d > 0,
        ;
        assert(w / d >= 0) by (nonlinear_arith)
            requires
                w >= 0,
                d > 0,
        ;
        assert(lo <= 0 || lo <= w / d) by (nonlinear_arith)
            requires
                lo * d <= w,
                d > 0,
        ;
    } else {
        let m = -w;
        let nlo = -lo;
        let nhi = -hi;
        assert(nlo * d == -(lo * d)) by (nonlinear_arith)
            requires
                nlo == -lo,
        ;
        assert(nhi * d == -(hi * d)) by (nonlinear_arith)
            requires
                nhi == -hi,
        ;
        assert(m / d >= 0) by (nonlinear_arith)
            requires
                m > 0,
                d > 0,
        ;
        assert(m / d <= nlo) by (nonlinear_arith)
            requires
                m <= nlo * d,
                d > 0,
        ;
        assert(nhi <= 0 || nhi <= m / d) by (nonlinear_arith)
            requires
                nhi * d <= m,
                d > 0,
        ;
    }
}

impl GeoGrid {
    /// Both axes are strictly increasing.
    pub open spec fn wf(&self) -> bool {
        strictly_increasing(self.lats@) && strictly_increasing(self.lons@)
    }

    /// Builds a grid from its two axes.
    pub fn new(lats: Vec<i64>, lons: Vec<i64>) -> (g: GeoGrid)
        ensures
            g.lats == lats,
            g.lons == lons,
    {
        GeoGrid { lats, lons }
    }

    /// Tells whether both axes are strictly increasing.
    pub fn is_valid(&self) -> (ok: bool)
        ensures
            ok == self.wf(),
    {
        axis_is_increasing(&self.lats) && axis_is_increasing(&self.lons)
    }
}

/// Tells whether `axis` is strictly increasing.
pub fn axis_is_increasing(axis: &Vec<i64>) -> (ok: bool)
    ensures
        ok == strictly_increasing(axis@),
{
    let n: usize = axis.len();
    if n < 2 {
        return true;
    }
    let mut k: usize = 1;
    while k < n
        invariant
            1 <= k <= n,
            n == axis.len(),
            forall|i: int, j: int| 0 <= i < j < k ==> axis[i] < axis[j],
        decreases n - k,
    {
        if axis[k - 1] >= axis[k] {
            return false;
        }
        assert forall|i: int, j: int| 0 <= i < j < k + 1 implies axis[i] < axis[j] by {
            if j == k && i < k - 1 {
                assert(axis[i] < axis[k - 1]);
            }
        }
        k = k + 1;
    }
    true
}

/// Finds the cell of `axis` that holds `x` by bisection.
pub fn locate_cell(axis: &Vec<i64>, x: i64) -> (i: usize)
    requires
        axis.len() >= 2,
        strictly_increasing(axis@),
        axis[0] <= x,
    ensures
        is_cell(axis@, x as int, i as int),
        i as int == cell_index(axis@, x as int),
{
    let n: usize = axis.len();
    let mut lo: usize = 0;
    let mut hi: usize = n - 1;
    while hi - lo > 1
        invariant
            n == axis.len(),
            0 <= lo < hi <= n - 1,
            axis[lo as int] <= x,
            hi == n - 1 || x < axis[hi as int],
        decreases hi - lo,
    {
        let mid: usize = lo + (hi - lo) / 2;
        if axis[mid] <= x {
            lo = mid;
        } else {
            hi = mid;
        }
    }
    proof {
        lemma_cell_index_is(axis@, x as int, lo as int);
    }
    lo
}

/// Finds the grid line of `axis` nearest to `x`.
pub fn locate_nearest(axis: &Vec<i64>, x: i64) -> (k: usize)
    requires
        axis.len() >= 1,
        strictly_increasing(axis@),
        axis[0] <= x <= axis[axis.len() - 1],
    ensures
        is_nearest(axis@, x as int, k as int),
        k as int == nearest_index(axis@, x as int),
{
    let n: usize = axis.len();
    if n == 1 {
        proof {
            lemma_nearest_index_is(axis@, x as int, 0);
        }
        return 0;
    }
    let i: usize = locate_cell(axis, x);
    let below: i128 = x as i128 - axis[i] as i128;
    let above: i128 = axis[i + 1] as i128 - x as i128;
    let k: usize = if below < above {
        i
    } else {
        i + 1
    };
    proof {
        assert forall|j: int| 0 <= j < axis.len() implies gap(axis[k as int] as int, x as int) < gap(
            #[trigger] axis[j] as int,
            x as int,
        ) || (gap(axis[k as int] as int, x as int) == gap(axis[j] as int, x as int) && j <= k) by {
            if j < i {
                assert(axis[j] < axis[i as int]);
            }
            if j > i + 1 {
                assert(axis[i + 1] < axis[j]);
            }
        }
        lemma_nearest_index_is(axis@, x as int, k as int);
    }
    k
}

/// Computes the weight of `x` inside the cell `[x0, x1]`.
pub fn weight_in_cell(x: i64, x0: i64, x1: i64) -> (t: i64)
    requires
        x0 <= x <= x1,
    ensures
        t == cell_weight(x as int, x0 as int, x1 as int),
        0 <= t <= SCALE,
{
    let span: i128 = x1 as i128 - x0 as i128;
    let denom: i128 = if span < 1 {
        1
    } else {
        span
    };
    let num: i128 = (x as i128 - x0 as i128) * 1_000_000;
    proof {
        lemma_cell_weight_range(x as int, x0 as int, x1 as int);
    }
    (num / denom) as i64
}

/// Interpolates between `a` and `b` with a weight between 0 and 1.
pub fn interpolate(a: i64, b: i64, t: i64) -> (r: i64)
    requires
        0 <= t <= SCALE,
    ensures
        r == lerp(a as int, b as int, t as int),
{
    let wa: i128 = a as i128;
    let wb: i128 = b as i128;
    let wt: i128 = t as i128;
    assert(-0x8000_0000_0000_0000 * 1_000_000 <= wa * (1_000_000 - wt) + wb * wt
        <= 0x8000_0000_0000_0000 * 1_000_000) by (nonlinear_arith)
        requires
            -0x8000_0000_0000_0000 <= wa <= 0x8000_0000_0000_0000,
            -0x8000_0000_0000_0000 <= wb <= 0x8000_0000_0000_0000,
            0 <= wt <= 1_000_000,
    ;
    assert(-0x8000_0000_0000_0000 * 1_000_000 <= wa * (1_000_000 - wt)
        <= 0x8000_0000_0000_0000 * 1_000_000) by (nonlinear_arith)
        requires
            -0x8000_0000_0000_0000 <= wa <= 0x8000_0000_0000_0000,
            0 <= wt <= 1_000_000,
    ;
    assert(-0x8000_0000_0000_0000 * 1_000_000 <= wb * wt <= 0x8000_0000_0000_0000 * 1_000_000)
        by (nonlinear_arith)
        requires
            -0x8000_0000_0000_0000 <= wb <= 0x8000_0000_0000_0000,
            0 <= wt <= 1_000_000,
    ;
    let w: i128 = wa * (1_000_000 - wt) + wb * wt;
    clamp_to_i64(w / 1_000_000)
}

/// Samples `data` at `(lat, lon)` by bilinear interpolation.
///
/// The point is first clamped into the range that the axes cover, so a point
/// outside the grid samples the nearest edge. Fails when an axis has fewer
/// than two grid lines or when `data` does not hold one value per grid point.
pub fn find(lat: i64, lon: i64, meta: &GeoGrid, data: &Vec<i64>) -> (r: Result<i64, LookupError>)
    requires
        meta.wf(),
    ensures
        r == sample(lat as int, lon as int, meta.lats@, meta.lons@, data@),
{
    let n_lat: usize = meta.lats.len();
    let n_lon: usize = meta.lons.len();
    if n_lat < 2 || n_lon < 2 {
        return Err(LookupError::InsufficientGrid);
    }
    if !holds_one_per_point(data.len(), n_lat, n_lon) {
        return Err(LookupError::SizeMismatch);
    }
    let clat: i64 = clamp_axis(lat, &meta.lats);
    let clon: i64 = clamp_axis(lon, &meta.lons);
    let i: usize = locate_cell(&meta.lats, clat);
    let j: usize = locate_cell(&meta.lons, clon);
    let t: i64 = weight_in_cell(clat, meta.lats[i], meta.lats[i + 1]);
    let u: i64 = weight_in_cell(clon, meta.lons[j], meta.lons[j + 1]);
    proof {
        lemma_index_in_bounds(i as int, j as int, n_lat as int, n_lon as int);
    }
    let base: usize = i * n_lon + j;
    let f00: i64 = data[base];
    let f01: i64 = data[base + 1];
    let f10: i64 = data[base + n_lon];
    let f11: i64 = data[base + n_lon + 1];
    let f0: i64 = interpolate(f00, f10, t);
    let f1: i64 = interpolate(f01, f11, t);
    Ok(interpolate(f0, f1, u))
}

/// Tells whether an array of `len` values holds one value for each point of
/// a grid of `n_lat` by `n_lon` lines.
pub fn holds_one_per_point(len: usize, n_lat: usize, n_lon: usize) -> (ok: bool)
    ensures
        ok == (len as int == (n_lat as nat) * (n_lon as nat)),
{
    match n_lat.checked_mul(n_lon) {
        None => false,
        Some(total) => len == total,
    }
}

/// Clamps `x` into the range that a non-empty increasing axis covers.
pub fn clamp_axis(x: i64, axis: &Vec<i64>) -> (r: i64)
    requires
        axis.len() >= 1,
        strictly_increasing(axis@),
    ensures
        r == clamp(x as int, axis[0] as int, axis[axis.len() - 1] as int),
        axis[0] <= r <= axis[axis.len() - 1],
{
    let first: i64 = axis[0];
    let last: i64 = axis[axis.len() - 1];
    assert(first <= last) by {
        if axis.len() > 1 {
            assert(axis[0] < axis[axis.len() - 1]);
        }
    }
    if x < first {
        first
    } else if x > last {
        last
    } else {
        x
    }
}

/// The four corners of cell `(i, j)` lie inside a row-major array of
/// `n_lat * n_lon` values.
pub proof fn lemma_index_in_bounds(i: int, j: int, n_lat: int, n_lon: int)
    requires
        0 <= i <= n_lat - 2,
        0 <= j <= n_lon - 2,
    ensures
        0 <= i * n_lon,
        (i + 1) * n_lon == i * n_lon + n_lon,
        i * n_lon + n_lon + j + 1 < n_lat * n_lon,
{
    assert((i + 1) * n_lon == i * n_lon + n_lon) by (nonlinear_arith);
    assert((i + 1) * n_lon + j + 1 < n_lat * n_lon) by (nonlinear_arith)
        requires
            i + 1 <= n_lat - 1,
            j + 1 <= n_lon - 1,
            n_lon >= 1,
    ;
    assert(0 <= i * n_lon) by (nonlinear_arith)
        requires
            i >= 0,
            n_lon >= 1,
    ;
}

/// Grid point `(i, j)` lies inside a row-major array of `n_lat * n_lon`
/// values.
pub proof fn lemma_point_in_bounds(i: int, j: int, n_lat: int, n_lon: int)
    requires
        0 <= i < n_lat,
        0 <= j < n_lon,
    ensures
        0 <= i * n_lon,
        i * n_lon + j < n_lat * n_lon,
{
    assert(i * n_lon + j < n_lat * n_lon) by (nonlinear_arith)
        requires
            i <= n_lat - 1,
            j <= n_lon - 1,
            n_lon >= 1,
    ;
    assert(0 <= i * n_lon) by (nonlinear_arith)
        requires
            i >= 0,
            n_lon >= 1,
    ;
}

/// At a grid line the cell weight is exactly 0, or exactly 1 for the last
/// line, which belongs to the cell below it.
pub proof fn lemma_axis_at_grid_line(axis: Seq<i64>, i: int)
    requires
        strictly_increasing(axis),
        axis.len() >= 2,
        0 <= i < axis.len(),
    ensures
        ({
            let c = cell_index(axis, axis[i] as int);
            let t = cell_weight(axis[i] as int, axis[c] as int, axis[c + 1] as int);
            if i == axis.len() - 1 {
                c == i - 1 && t == SCALE
            } else {
                c == i && t == 0
            }
        }),
{
    let x = axis[i] as int;
    if i == axis.len() - 1 {
        assert(axis[i - 1] < axis[i]);
        lemma_cell_index_is(axis, x, i - 1);
        lemma_cell_weight_range(x, axis[i - 1] as int, axis[i] as int);
    } else {
        assert(axis[i] < axis[i + 1]);
        lemma_cell_index_is(axis, x, i);
        lemma_cell_weight_range(x, axis[i] as int, axis[i + 1] as int);
    }
}

/// Sampling is a function of the point, the axes and the data: two results
/// obtained for the same inputs are equal.
pub proof fn law_sample_repeatable(
    lat: int,
    lon: int,
    lats: Seq<i64>,
    lons: Seq<i64>,
    data: Seq<i64>,
    first: Result<i64, LookupError>,
    second: Result<i64, LookupError>,
)
    requires
        first == sample(lat, lon, lats, lons, data),
        second == sample(lat, lon, lats, lons, data),
    ensures
        first == second,
{
}

/// Sampling exactly at a grid point returns the value stored for that point.
pub proof fn law_sample_at_grid_point(lats: Seq<i64>, lons: Seq<i64>, data: Seq<i64>, i: int, j: int)
    requires
        strictly_increasing(lats),
        strictly_increasing(lons),
        lats.len() >= 2,
        lons.len() >= 2,
        data.len() == lats.len() * lons.len(),
        0 <= i < lats.len(),
        0 <= j < lons.len(),
    ensures
        sample(lats[i] as int, lons[j] as int, lats, lons, data) == Ok::<i64, LookupError>(
            data[i * lons.len() + j],
        ),
{
    let n = lons.len() as int;
    let lat = lats[i] as int;
    let lon = lons[j] as int;
    assert(lats[0] <= lats[i] <= lats[lats.len() - 1]);
    assert(lons[0] <= lons[j] <= lons[lons.len() - 1]);
    lemma_axis_at_grid_line(lats, i);
    lemma_axis_at_grid_line(lons, j);
    let ci = cell_index(lats, lat);
    let cj = cell_index(lons, lon);
    let t = cell_weight(lat, lats[ci] as int, lats[ci + 1] as int);
    let u = cell_weight(lon, lons[cj] as int, lons[cj + 1] as int);
    lemma_index_in_bounds(ci, cj, lats.len() as int, n);
    let f00 = data[ci * n + cj] as int;
    let f10 = data[(ci + 1) * n + cj] as int;
    let f01 = data[ci * n + cj + 1] as int;
    let f11 = data[(ci + 1) * n + cj + 1] as int;
    lemma_lerp_range(f00, f10, t);
    lemma_lerp_range(f01, f11, t);
    let f0 = lerp(f00, f10, t);
    let f1 = lerp(f01, f11, t);
    lemma_lerp_range(f0, f1, u);
    assert(i * n == ci * n || i * n == (ci + 1) * n);
}

/// A point outside the range that the axes cover samples like the nearest
/// point of the edge: nothing is extrapolated. In particular every latitude
/// at or beyond the last grid line samples like the last grid line itself.
pub proof fn law_sample_clamps(lat: int, lon: int, lats: Seq<i64>, lons: Seq<i64>, data: Seq<i64>)
    requires
        strictly_increasing(lats),
        strictly_increasing(lons),
        lats.len() >= 1,
        lons.len() >= 1,
    ensures
        sample(lat, lon, lats, lons, data) == sample(
            clamp(lat, lats[0] as int, lats[lats.len() - 1] as int),
            clamp(lon, lons[0] as int, lons[lons.len() - 1] as int),
            lats,
            lons,
            data,
        ),
        lat >= lats[lats.len() - 1] ==> sample(lat, lon, lats, lons, data) == sample(
            lats[lats.len() - 1] as int,
            lon,
            lats,
            lons,
            data,
        ),
        lon >= lons[lons.len() - 1] ==> sample(lat, lon, lats, lons, data) == sample(
            lat,
            lons[lons.len() - 1] as int,
            lats,
            lons,
            data,
        ),
{
    assert(lats[0] <= lats[lats.len() - 1]);
    assert(lons[0] <= lons[lons.len() - 1]);
}

/// The sampled value lies between the smallest and the largest of the four
/// values stored at the corners of the cell that holds the clamped point.
pub proof fn law_sample_within_corners(lat: int, lon: int, lats: Seq<i64>, lons: Seq<i64>, data: Seq<i64>)
    requires
        strictly_increasing(lats),
        strictly_increasing(lons),
        lats.len() >= 2,
        lons.len() >= 2,
        data.len() == lats.len() * lons.len(),
    ensures
        ({
            let clat = clamp(lat, lats[0] as int, lats[lats.len() - 1] as int);
            let clon = clamp(lon, lons[0] as int, lons[lons.len() - 1] as int);
            let i = cell_index(lats, clat);
            let j = cell_index(lons, clon);
            let n = lons.len() as int;
            let f00 = data[i * n + j] as int;
            let f10 = data[(i + 1) * n + j] as int;
            let f01 = data[i * n + j + 1] as int;
            let f11 = data[(i + 1) * n + j + 1] as int;
            let v = bilinear(lat, lon, lats, lons, data);
            &&& min2(min2(f00, f10), min2(f01, f11)) <= v
            &&& v <= max2(max2(f00, f10), max2(f01, f11))
        }),
{
    let n = lons.len() as int;
    assert(lats[0] <= lats[lats.len() - 1]);
    assert(lons[0] <= lons[lons.len() - 1]);
    let clat = clamp(lat, lats[0] as int, lats[lats.len() - 1] as int);
    let clon = clamp(lon, lons[0] as int, lons[lons.len() - 1] as int);
    lemma_cell_exists(lats, clat);
    lemma_cell_exists(lons, clon);
    let i = cell_index(lats, clat);
    let j = cell_index(lons, clon);
    assert(lats[i] <= lats[lats.len() - 1]);
    assert(lons[j] <= lons[lons.len() - 1]);
    lemma_cell_weight_range(clat, lats[i] as int, lats[i + 1] as int);
    lemma_cell_weight_range(clon, lons[j] as int, lons[j + 1] as int);
    let t = cell_weight(clat, lats[i] as int, lats[i + 1] as int);
    let u = cell_weight(clon, lons[j] as int, lons[j + 1] as int);
    lemma_index_in_bounds(i, j, lats.len() as int, n);
    let f00 = data[i * n + j] as int;
    let f10 = data[(i + 1) * n + j] as int;
    let f01 = data[i * n + j + 1] as int;
    let f11 = data[(i + 1) * n + j + 1] as int;
    lemma_lerp_range(f00, f10, t);
    lemma_lerp_range(f01, f11, t);
    lemma_lerp_range(lerp(f00, f10, t), lerp(f01, f11, t), u);
}

/// Every point inside the range of an axis with two or more grid lines lies
/// in a cell.
pub proof fn lemma_cell_exists(axis: Seq<i64>, x: int)
    requires
        axis.len() >= 2,
        axis[0] <= x <= axis[axis.len() - 1],
    ensures
        is_cell(axis, x, cell_index(axis, x)),
        axis[cell_index(axis, x)] <= x <= axis[cell_index(axis, x) + 1],
{
    let k = lemma_cell_search(axis, x, axis.len() - 2);
    assert(is_cell(axis, x, k));
}

/// Walks down from cell `from` to the cell that holds `x`.
pub proof fn lemma_cell_search(axis: Seq<i64>, x: int, from: int) -> (k: int)
    requires
        axis.len() >= 2,
        axis[0] <= x <= axis[axis.len() - 1],
        0 <= from <= axis.len() - 2,
        from == axis.len() - 2 || x < axis[from + 1],
    ensures
        is_cell(axis, x, k),
    decreases from,
{
    if axis[from] <= x {
        from
    } else {
        lemma_cell_search(axis, x, from - 1)
    }
}

} // verus!
