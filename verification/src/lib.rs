//! Float-free decisions of the `springs` damped-oscillator library.
//!
//! The closed-form transitions, the configuration arithmetic and the angle
//! wrapping all work on floating-point numbers. What is decided here is which
//! closed form applies, which parameter a constructor rejects, which physical
//! terms a builder derives, and how a spring's state changes when it is built,
//! retargeted, snapped or stepped.

pub mod physical;
mod regime;
pub mod state;
mod validation;

pub use physical::PhysicalTerms;
pub use regime::{select_regime, Regime};
pub use state::{SpringModel, SpringState, Step};
pub use validation::{first_rejection, ConfigError, ParameterCheck};
