# springs

Frame-rate-independent spring animations driven by the closed-form solution of
a damped harmonic oscillator.

- `src/` is the verified library: the choice of closed form for a damping
  ratio (`regime.rs`) and the rule by which a configuration constructor reports
  the first parameter it refuses, with its message (`validation.rs`), the
  set and unset terms of the physical builder (`physical.rs`), and the state
  of a spring as it is built, retargeted, snapped and stepped (`state.rs`).
- `app/` holds the floating-point part of the library — the solver's
  transitions, `SpringConfig` and its builders, the generic `Spring`, the
  `SpringValue`/`SpringDelta` impls for floats, arrays, `Angle` and glam
  vectors — which calls into `src/` for those decisions.
