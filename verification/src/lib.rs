//! Numerical-simulation toolkit: the discrete decisions behind the pendulum,
//! filtering and circuit experiments, stated and proved over plain values.
//!
//! Real-valued samples never enter this crate: a magnitude or an amplitude is
//! handed over as an integer key that orders exactly as the real value does,
//! and experiment parameters are exact decimals.

pub mod filtre;
pub mod peaks;
pub mod scenario;
pub mod series;
pub mod zeroes;
