use flight_core::fixed::SCALE;
use flight_core::geogrid::{find, GeoGrid, LookupError};

fn unit_square() -> (GeoGrid, Vec<i64>) {
    // corners [0,0]=10, [1,0]=20, [0,1]=30, [1,1]=40, first index latitude
    let grid = GeoGrid::new(vec![0, SCALE], vec![0, SCALE]);
    let data = vec![10 * SCALE, 30 * SCALE, 20 * SCALE, 40 * SCALE];
    (grid, data)
}

#[test]
fn centre_of_two_by_two_grid_is_the_average() {
    let (grid, data) = unit_square();
    assert!(grid.is_valid());
    assert_eq!(find(SCALE / 2, SCALE / 2, &grid, &data), Ok(25 * SCALE));
}

#[test]
fn sampling_at_grid_points_returns_stored_values() {
    let (grid, data) = unit_square();
    assert_eq!(find(0, 0, &grid, &data), Ok(10 * SCALE));
    assert_eq!(find(SCALE, 0, &grid, &data), Ok(20 * SCALE));
    assert_eq!(find(0, SCALE, &grid, &data), Ok(30 * SCALE));
    assert_eq!(find(SCALE, SCALE, &grid, &data), Ok(40 * SCALE));
}

#[test]
fn sampling_twice_gives_the_same_value() {
    let (grid, data) = unit_square();
    let first = find(123_456, 654_321, &grid, &data);
    let second = find(123_456, 654_321, &grid, &data);
    assert_eq!(first, second);
    // 10 + 10 * 0.123456 + 20 * 0.654321, rounded toward zero at each step
    assert_eq!(first, Ok(24_320_980));
}

#[test]
fn sampling_beyond_the_edge_clamps() {
    let (grid, data) = unit_square();
    let at_edge = find(SCALE, 250_000, &grid, &data);
    assert_eq!(find(90 * SCALE, 250_000, &grid, &data), at_edge);
    assert_eq!(find(i64::MAX, 250_000, &grid, &data), at_edge);
    assert_eq!(at_edge, Ok(25 * SCALE));
    let below = find(i64::MIN, i64::MIN, &grid, &data);
    assert_eq!(below, Ok(10 * SCALE));
}

#[test]
fn interior_line_of_a_three_line_axis() {
    let grid = GeoGrid::new(vec![0, 1_000_000, 4_000_000], vec![10_000_000, 12_000_000]);
    let data = vec![0, 100, 200, 300, 800, 900];
    assert_eq!(find(1_000_000, 10_000_000, &grid, &data), Ok(200));
    // a quarter of the way from latitude 1 to latitude 4, half way in longitude
    assert_eq!(find(1_750_000, 11_000_000, &grid, &data), Ok(400));
}

#[test]
fn too_few_grid_lines_are_rejected() {
    let grid = GeoGrid::new(vec![0], vec![0, SCALE]);
    assert_eq!(find(0, 0, &grid, &vec![1, 2]), Err(LookupError::InsufficientGrid));
    let grid = GeoGrid::new(vec![0, SCALE], vec![]);
    assert_eq!(find(0, 0, &grid, &vec![]), Err(LookupError::InsufficientGrid));
}

#[test]
fn wrong_data_length_is_rejected() {
    let grid = GeoGrid::new(vec![0, SCALE], vec![0, SCALE]);
    assert_eq!(find(0, 0, &grid, &vec![1, 2, 3]), Err(LookupError::SizeMismatch));
    assert_eq!(find(0, 0, &grid, &vec![1, 2, 3, 4, 5]), Err(LookupError::SizeMismatch));
}

#[test]
fn unsorted_axis_is_not_valid() {
    assert!(!GeoGrid::new(vec![0, 5, 5], vec![0, 1]).is_valid());
    assert!(!GeoGrid::new(vec![0, 1], vec![3, 2]).is_valid());
    assert!(GeoGrid::new(vec![], vec![7]).is_valid());
}


/// Bilinear interpolation in floating point, the way the sampler is meant.
fn reference(lat: f64, lon: f64, lats: &[f64], lons: &[f64], data: &[f64]) -> f64 {
    let lat = lat.clamp(lats[0], lats[lats.len() - 1]);
    let lon = lon.clamp(lons[0], lons[lons.len() - 1]);
    let cell = |axis: &[f64], x: f64| -> usize {
        let mut i = 0;
        while i + 2 < axis.len() && axis[i + 1] <= x {
            i += 1;
        }
        i
    };
    let (i, j) = (cell(lats, lat), cell(lons, lon));
    let t = (lat - lats[i]) / (lats[i + 1] - lats[i]);
    let u = (lon - lons[j]) / (lons[j + 1] - lons[j]);
    let at = |a: usize, b: usize| data[a * lons.len() + b];
    let f0 = at(i, j) * (1.0 - t) + at(i + 1, j) * t;
    let f1 = at(i, j + 1) * (1.0 - t) + at(i + 1, j + 1) * t;
    f0 * (1.0 - u) + f1 * u
}

#[test]
fn sampling_agrees_with_interpolation_in_floating_point() {
    let mut seed: u64 = 3;
    let mut next = |limit: i64| {
        seed = seed.wrapping_mul(6364136223846793005).wrapping_add(1442695040888963407);
        ((seed >> 33) % limit as u64) as i64
    };
    for _ in 0..200 {
        let (n_lat, n_lon) = (2 + next(6) as usize, 2 + next(6) as usize);
        let mut lats = vec![next(90 * SCALE) - 45 * SCALE];
        for _ in 1..n_lat {
            lats.push(lats[lats.len() - 1] + 1 + next(5 * SCALE));
        }
        let mut lons = vec![next(90 * SCALE) - 45 * SCALE];
        for _ in 1..n_lon {
            lons.push(lons[lons.len() - 1] + 1 + next(5 * SCALE));
        }
        let data: Vec<i64> = (0..n_lat * n_lon).map(|_| next(4_000 * SCALE) - 2_000 * SCALE).collect();
        let grid = GeoGrid::new(lats.clone(), lons.clone());
        assert!(grid.is_valid());
        let as_float = |v: &Vec<i64>| v.iter().map(|x| *x as f64 / 1e6).collect::<Vec<f64>>();
        let (flats, flons, fdata) = (as_float(&lats), as_float(&lons), as_float(&data));
        for _ in 0..50 {
            let lat = next(120 * SCALE) - 60 * SCALE;
            let lon = next(120 * SCALE) - 60 * SCALE;
            let got = find(lat, lon, &grid, &data).unwrap() as f64 / 1e6;
            let want = reference(lat as f64 / 1e6, lon as f64 / 1e6, &flats, &flons, &fdata);
            // the weights are rounded to millionths, the values lie within 2000
            assert!((got - want).abs() < 0.01, "{got} {want}");
            let lowest = data.iter().min().unwrap();
            let highest = data.iter().max().unwrap();
            let raw = find(lat, lon, &grid, &data).unwrap();
            assert!(*lowest <= raw && raw <= *highest);
        }
        // every grid point gives back its value
        for i in 0..n_lat {
            for j in 0..n_lon {
                assert_eq!(find(lats[i], lons[j], &grid, &data), Ok(data[i * n_lon + j]));
            }
        }
    }
}
