//! Core of an uninterruptible-power-supply monitor built around a bus/shunt
//! power-monitor chip: calibration of the chip's current/power registers,
//! conversion of raw register readings into physical quantities, estimation of
//! the battery charge from the bus voltage, and classification of the power
//! source from the shunt voltage.
//!
//! The two-wire bus transport itself is left to the host: every function here
//! works on plain register values handed in by the caller.

pub mod calibration;
pub mod charge;
pub mod classify;
pub mod errors;
pub mod measurement;
pub mod monitor;
