use vstd::prelude::*;

verus! {

/// The closed form of the damped oscillator that a transition uses.
///
/// Each regime has its own formula: two complex roots oscillate under an
/// exponential envelope, a repeated root decays as `(a + bt)e^{-ω₀t}`, and two
/// distinct real roots decay without oscillating.
#[derive(Debug, Clone, Copy, PartialEq, Eq, Structural)]
pub enum Regime {
    /// `0 < ζ < 1`: complex roots, the spring overshoots.
    Underdamped,
    /// `ζ = 1` (within a small tolerance): one repeated real root.
    CriticallyDamped,
    /// `ζ > 1`: two distinct real roots.
    Overdamped,
}

/// Chooses the closed form for a damping ratio `ζ`, given the two comparisons
/// the solver makes on it: whether `|ζ - 1|` lies inside the critical
/// tolerance, and whether `ζ < 1`.
///
/// The critical band takes precedence: a ratio a hair below one still uses the
/// critical formula, which is the `ω_d → 0` limit of the underdamped one and
/// avoids dividing by a vanishing `ω_d`.
pub fn select_regime(within_critical_band: bool, below_critical: bool) -> (regime: Regime)
    ensures
        within_critical_band ==> regime == Regime::CriticallyDamped,
        !within_critical_band && below_critical ==> regime == Regime::Underdamped,
        !within_critical_band && !below_critical ==> regime == Regime::Overdamped,
{
    if within_critical_band {
        Regime::CriticallyDamped
    } else if below_critical {
        Regime::Underdamped
    } else {
        Regime::Overdamped
    }
}

} // verus!
