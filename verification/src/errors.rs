//! Error types of the monitor core.

use vstd::prelude::*;

verus! {

/// Failure to derive a usable calibration from the configured shunt
/// resistance and maximum expected current.
#[derive(Clone, Copy, Debug, PartialEq, Eq, Structural)]
pub enum CalibrationError {
    /// The derived current LSB rounded to zero, or the derived calibration
    /// register value cannot be represented as a nonzero 16-bit register.
    Overflow,
}

/// Failure of a single measurement cycle.
#[derive(Clone, Copy, Debug, PartialEq, Eq, Structural)]
pub enum MeasurementError {
    /// The chip flagged a math overflow in the bus-voltage register: the
    /// current and power readings of this cycle are unusable.
    Overflow,
}

/// Invalid host configuration, rejected before any polling starts.
#[derive(Clone, Copy, Debug, PartialEq, Eq, Structural)]
pub enum ConfigError {
    /// The full-charge voltage does not lie strictly above the minimum
    /// voltage of the charge mapping.
    ChargeBounds,
    /// The classifier's threshold bands are not ordered from most negative
    /// to most positive.
    ThresholdOrder,
}

/// Failure while building a monitor from its configuration.
#[derive(Clone, Copy, Debug, PartialEq, Eq, Structural)]
pub enum SetupError {
    /// The calibration could not be derived.
    Calibration(CalibrationError),
    /// The charge mapping or the classifier thresholds are invalid.
    Config(ConfigError),
}

} // verus!
