//! Timing functions for animation: the identity timing function and the
//! step control of the hybrid Newton / bisection search that inverts a unit
//! cubic Bezier timing curve.
pub mod linear;
pub mod search;

pub use linear::Linear;
pub use search::{Action, Phase, Probe, Search, TargetRange};
