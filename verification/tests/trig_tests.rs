use rust_rpg::trig::{cos_mt, isqrt, sin_mt};

#[test]
fn sine_is_exact_at_quarter_turns() {
    assert_eq!(sin_mt(0), 0);
    assert_eq!(sin_mt(250), 1000);
    assert_eq!(sin_mt(500), 0);
    assert_eq!(sin_mt(750), -1000);
}

#[test]
fn cosine_is_exact_at_quarter_turns() {
    assert_eq!(cos_mt(0), 1000);
    assert_eq!(cos_mt(250), 0);
    assert_eq!(cos_mt(500), -1000);
    assert_eq!(cos_mt(750), 0);
}

#[test]
fn sine_stays_within_milli_unit() {
    for t in 0..1000 {
        let s = sin_mt(t);
        assert!((-1000..=1000).contains(&s));
    }
}

#[test]
fn sine_is_close_to_the_real_sine() {
    for t in 0..1000 {
        let s = sin_mt(t) as f64 / 1000.0;
        let exact = (t as f64 / 1000.0 * std::f64::consts::TAU).sin();
        assert!((s - exact).abs() < 0.02, "t={t}: {s} vs {exact}");
    }
}

#[test]
fn isqrt_matches_perfect_and_imperfect_squares() {
    assert_eq!(isqrt(0), 0);
    assert_eq!(isqrt(1), 1);
    assert_eq!(isqrt(24), 4);
    assert_eq!(isqrt(25), 5);
    assert_eq!(isqrt(26), 5);
    assert_eq!(isqrt(2_500_000_000_000_000_000), 1_581_138_830);
}
