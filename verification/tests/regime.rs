use springs::{select_regime, Regime};

#[test]
fn the_critical_band_takes_precedence() {
    // Inside the band the critical formula is used whichever side of 1 the
    // ratio falls on.
    assert_eq!(select_regime(true, true), Regime::CriticallyDamped);
    assert_eq!(select_regime(true, false), Regime::CriticallyDamped);
}

#[test]
fn below_one_outside_the_band_is_underdamped() {
    assert_eq!(select_regime(false, true), Regime::Underdamped);
}

#[test]
fn above_one_outside_the_band_is_overdamped() {
    assert_eq!(select_regime(false, false), Regime::Overdamped);
}

#[test]
fn the_comparisons_a_solver_makes_pick_the_textbook_regimes() {
    const CRITICAL_EPSILON: f64 = 1e-4;
    let regime_of = |zeta: f64| select_regime((zeta - 1.0).abs() < CRITICAL_EPSILON, zeta < 1.0);

    assert_eq!(regime_of(0.3), Regime::Underdamped);
    assert_eq!(regime_of(0.999_8), Regime::Underdamped);
    assert_eq!(regime_of(0.999_99), Regime::CriticallyDamped);
    assert_eq!(regime_of(1.0), Regime::CriticallyDamped);
    assert_eq!(regime_of(1.000_01), Regime::CriticallyDamped);
    assert_eq!(regime_of(1.000_2), Regime::Overdamped);
    assert_eq!(regime_of(2.0), Regime::Overdamped);
}
