use flight_core::elementary::{fx_atan2, fx_cos, fx_exp, fx_ln, fx_pow, fx_sin, PI};
use flight_core::fixed::SCALE;
use flight_core::series::{Series, WIDE};

fn units(x: i64) -> f64 {
    x as f64 / SCALE as f64
}

fn close(got: i64, want: f64, tolerance: f64) -> bool {
    (units(got) - want).abs() <= tolerance
}

#[test]
fn series_sums() {
    // 1 + 1 + 1/2 + 1/6 + 1/24
    assert_eq!(Series::Exp.sum(WIDE, WIDE, 5), 2_708_333_333_332);
    assert_eq!(Series::Exp.sum(WIDE, WIDE, 0), 0);
    assert_eq!(Series::Exp.sum(WIDE, 0, 24), WIDE);
    // 1 - 1/2 + 1/24
    assert_eq!(Series::Cos.sum(WIDE, WIDE, 3), 541_666_666_666);
    // 1 - 1/6 + 1/120
    assert_eq!(Series::Sin.sum(WIDE, WIDE, 3), 841_666_666_667);
    // 1/2 - 1/24 + 1/160, the square of the argument being 1/4
    assert_eq!(Series::Atan.sum(WIDE / 2, WIDE / 4, 3), 464_583_333_334);
    // 1/2 + 1/24 + 1/160
    assert_eq!(Series::Atanh.sum(WIDE / 2, WIDE / 4, 3), 547_916_666_666);
}

#[test]
fn exponential() {
    assert_eq!(fx_exp(0), SCALE);
    assert_eq!(fx_exp(SCALE), 2_718_281);
    assert_eq!(fx_exp(-SCALE), 367_879);
    assert_eq!(fx_exp(-32 * SCALE), 0);
    assert_eq!(fx_exp(i64::MIN), 0);
    assert_eq!(fx_exp(16 * SCALE), i64::MAX);
    assert_eq!(fx_exp(i64::MAX), i64::MAX);
    let mut x = -14 * SCALE;
    while x < 16 * SCALE {
        let want = units(x).exp();
        assert!(close(fx_exp(x), want, 2e-6 + want * 1e-9), "exp({x})");
        x += 137_531;
    }
}

#[test]
fn logarithm() {
    assert_eq!(fx_ln(SCALE), 0);
    assert_eq!(fx_ln(0), i64::MIN);
    assert_eq!(fx_ln(-5), i64::MIN);
    assert_eq!(fx_ln(2 * SCALE), 693_147);
    assert_eq!(fx_ln(20 * SCALE), 2_995_732);
    assert_eq!(fx_ln(SCALE / 2), -693_147);
    assert_eq!(fx_ln(1), -13_815_510);
    for x in [1, 7, 999, 123_456, 999_999, 1_000_001, 3 * SCALE, 1_000 * SCALE, i64::MAX] {
        assert!(close(fx_ln(x), units(x).ln(), 2e-6), "ln({x})");
    }
}

#[test]
fn power() {
    assert_eq!(fx_pow(SCALE, 5_257_229), SCALE);
    assert_eq!(fx_pow(750_000, 0), SCALE);
    assert_eq!(fx_pow(0, 2 * SCALE), 0);
    assert_eq!(fx_pow(-SCALE, 2 * SCALE), 0);
    assert!(close(fx_pow(2 * SCALE, SCALE / 2), 2f64.sqrt(), 2e-6));
    assert!(close(fx_pow(500_000, 2 * SCALE), 0.25, 2e-6));
    assert!(close(fx_pow(751_865, 5_257_229), 0.751865f64.powf(5.257229), 2e-6));
    assert!(close(fx_pow(3 * SCALE, -2 * SCALE), 1.0 / 9.0, 2e-6));
}

#[test]
fn cosine_and_sine() {
    assert_eq!(fx_cos(0), SCALE);
    assert_eq!(fx_sin(0), 0);
    assert_eq!(fx_cos(PI), -SCALE);
    assert!(fx_sin(PI).abs() <= 1);
    assert!(fx_cos(PI / 2).abs() <= 1);
    assert_eq!(fx_sin(1_570_796), SCALE);
    assert_eq!(fx_sin(-1_570_796), -SCALE);
    assert_eq!(fx_cos(1_047_198), 499_999);
    let mut x = -20 * SCALE;
    while x < 20 * SCALE {
        assert!(close(fx_cos(x), units(x).cos(), 2e-6), "cos({x})");
        assert!(close(fx_sin(x), units(x).sin(), 2e-6), "sin({x})");
        assert_eq!(fx_cos(-x), fx_cos(x));
        assert_eq!(fx_sin(-x), -fx_sin(x));
        x += 77_777;
    }
    assert!(close(fx_cos(1_000_000 * SCALE), 1e6f64.cos(), 1e-5));
}

#[test]
fn angles_of_points() {
    assert_eq!(fx_atan2(0, 0), 0);
    assert_eq!(fx_atan2(0, 5), 0);
    assert_eq!(fx_atan2(5, 0), 1_570_796);
    assert_eq!(fx_atan2(-5, 0), -1_570_796);
    assert_eq!(fx_atan2(0, -5), 3_141_592);
    assert_eq!(fx_atan2(7, 7), 785_398);
    assert_eq!(fx_atan2(7, -7), 2_356_194);
    assert_eq!(fx_atan2(-7, -7), -2_356_194);
    assert_eq!(fx_atan2(i64::MIN, i64::MIN), -2_356_194);
    for (y, x) in [(1, 2), (2, 1), (-3, 10), (10, -3), (-1, -1000), (414_214, 1_000_000), (999, 1_000)] {
        let want = (y as f64).atan2(x as f64);
        assert!(close(fx_atan2(y, x), want, 2e-6), "atan2({y}, {x})");
    }
}

#[test]
fn fractions_have_logarithms_and_powers_within_bounds() {
    let mut x = 1;
    while x <= SCALE {
        assert!(fx_ln(x) <= 0, "ln({x})");
        for exponent in [0, 1, SCALE / 3, SCALE, 5_257_229, 40 * SCALE] {
            let p = fx_pow(x, exponent);
            assert!(0 <= p && p <= SCALE, "pow({x}, {exponent}) = {p}");
        }
        x += 1 + x / 7;
    }
    assert_eq!(fx_ln(SCALE - 1), -1);
    assert_eq!(fx_pow(2 * SCALE - 1, SCALE), 1_999_998);
    let mut x = -40 * SCALE;
    while x <= 0 {
        let e = fx_exp(x);
        assert!(0 <= e && e <= SCALE, "exp({x}) = {e}");
        x += 12_347;
    }
}
