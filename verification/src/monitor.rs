//! The monitor: configuration, setup, and the per-poll step.
//!
//! The host owns the bus: once per period it reads the four raw registers in
//! the fixed order shunt voltage, bus voltage, power, current, hands them to
//! `Monitor::poll`, reports the result, and sleeps for the configured
//! interval.  Everything the poll decides — conversion, charge estimate,
//! power-source classification — is computed here from those plain values.

use vstd::prelude::*;

use crate::calibration::{spec_calibration, spec_calibration_ok, Calibration};
use crate::charge::{spec_estimate, ChargeEstimator};
use crate::classify::{classify, spec_classify, ClassifierThresholds, PowerSourceState};
use crate::errors::{CalibrationError, ConfigError, MeasurementError, SetupError};
use crate::measurement::{read_measurement, spec_read, Measurement, RawRegisters};

verus! {

/// The chip's fixed bus address on this board.
pub const DEVICE_ADDRESS: u8 = 0x43;

/// Configuration register address.
pub const REG_CONFIGURATION: u8 = 0x00;

/// Shunt-voltage register address.
pub const REG_SHUNT_VOLTAGE: u8 = 0x01;

/// Bus-voltage register address.
pub const REG_BUS_VOLTAGE: u8 = 0x02;

/// Power register address.
pub const REG_POWER: u8 = 0x03;

/// Current register address.
pub const REG_CURRENT: u8 = 0x04;

/// Calibration register address.
pub const REG_CALIBRATION: u8 = 0x05;

/// Everything the host configures, passed explicitly to `Monitor::new`.
#[derive(Clone, Copy, Debug, PartialEq, Eq, Structural)]
pub struct MonitorConfig {
    /// Resistance of the shunt resistor, in microohms.
    pub shunt_resistance_microohms: u32,
    /// Largest current the board is expected to carry, in microamps.
    pub max_expected_current_microamps: u64,
    /// Bus voltage at or below which the battery counts as empty, in
    /// millivolts.
    pub min_voltage_mv: u16,
    /// Bus voltage at or above which the battery counts as full, in
    /// millivolts.
    pub full_voltage_mv: u16,
    /// The classifier's threshold bands.
    pub thresholds: ClassifierThresholds,
    /// Seconds the host sleeps between polls.
    pub poll_interval_seconds: u32,
    /// Whether the host should put the chip into its power-save mode between
    /// polls.
    pub power_save: bool,
}

/// What one successful poll reports.
#[derive(Clone, Copy, Debug, PartialEq, Eq, Structural)]
pub struct PollReport {
    /// The converted physical values.
    pub measurement: Measurement,
    /// Estimated battery charge, in percent.
    pub charge_percent: u8,
    /// The classified power-source state.
    pub state: PowerSourceState,
}

/// The monitor's state for one device: computed once at startup and held,
/// unchanged, for the device's lifetime.
#[derive(Clone, Copy, Debug, PartialEq, Eq, Structural)]
pub struct Monitor {
    /// Scale factors of the current and power registers.
    pub calibration: Calibration,
    /// The voltage-to-charge mapping.
    pub estimator: ChargeEstimator,
    /// The classifier's threshold bands.
    pub thresholds: ClassifierThresholds,
}

/// What `Monitor::new` returns for a configuration: the calibration is
/// derived first (a failure there is fatal at startup), then the charge
/// mapping and the thresholds are validated.
pub open spec fn spec_setup(config: MonitorConfig) -> Result<Monitor, SetupError> {
    if !spec_calibration_ok(config.shunt_resistance_microohms, config.max_expected_current_microamps) {
        Err(SetupError::Calibration(CalibrationError::Overflow))
    } else if config.min_voltage_mv >= config.full_voltage_mv {
        Err(SetupError::Config(ConfigError::ChargeBounds))
    } else if !config.thresholds.wf() {
        Err(SetupError::Config(ConfigError::ThresholdOrder))
    } else {
        Ok(
            Monitor {
                calibration: spec_calibration(
                    config.shunt_resistance_microohms,
                    config.max_expected_current_microamps,
                ),
                estimator: ChargeEstimator {
                    min_voltage_mv: config.min_voltage_mv,
                    full_voltage_mv: config.full_voltage_mv,
                },
                thresholds: config.thresholds,
            },
        )
    }
}

/// What one poll returns: the measurement outcome of `spec_read`, with the
/// charge estimate and the classified state attached to a fresh measurement.
pub open spec fn spec_poll(m: Monitor, raw: RawRegisters) -> Result<
    Option<PollReport>,
    MeasurementError,
> {
    match spec_read(raw, m.calibration) {
        Ok(None) => Ok(None),
        Err(e) => Err(e),
        Ok(Some(measurement)) => Ok(
            Some(
                PollReport {
                    measurement,
                    charge_percent: spec_estimate(
                        m.estimator,
                        measurement.bus_voltage_millivolts as int,
                    ) as u8,
                    state: spec_classify(
                        measurement.shunt_voltage_microvolts as int,
                        m.thresholds,
                    ),
                },
            ),
        ),
    }
}

impl Monitor {
    /// Both held components are well formed.
    pub open spec fn wf(self) -> bool {
        self.calibration.wf() && self.estimator.wf()
    }

    /// Builds a monitor from its configuration, deriving the calibration and
    /// validating the charge mapping and the thresholds.  Any failure is
    /// fatal: a monitor is never constructed from a configuration it cannot
    /// honour.
    pub fn new(config: &MonitorConfig) -> (r: Result<Monitor, SetupError>)
        ensures
            r == spec_setup(*config),
            r matches Ok(m) ==> m.wf(),
    {
        let calibration = match Calibration::compute(
            config.shunt_resistance_microohms,
            config.max_expected_current_microamps,
        ) {
            Ok(c) => c,
            Err(e) => {
                return Err(SetupError::Calibration(e));
            },
        };
        let estimator = match ChargeEstimator::new(config.min_voltage_mv, config.full_voltage_mv) {
            Ok(e) => e,
            Err(e) => {
                return Err(SetupError::Config(e));
            },
        };
        let thresholds = match ClassifierThresholds::new(
            config.thresholds.battery_below_uv,
            config.thresholds.charging_below_uv,
            config.thresholds.steady_max_uv,
        ) {
            Ok(t) => t,
            Err(e) => {
                return Err(SetupError::Config(e));
            },
        };
        Ok(Monitor { calibration, estimator, thresholds })
    }

    /// One poll step: converts the raw registers, estimates the charge from
    /// the bus voltage and classifies the power source from the shunt
    /// voltage.  Returns `Ok(None)` while no fresh conversion is ready and
    /// the overflow error when the reading is unusable.
    pub fn poll(&self, raw: RawRegisters) -> (r: Result<Option<PollReport>, MeasurementError>)
        requires
            self.wf(),
        ensures
            r == spec_poll(*self, raw),
    {
        let measurement = match read_measurement(raw, &self.calibration) {
            Ok(None) => {
                return Ok(None);
            },
            Err(e) => {
                return Err(e);
            },
            Ok(Some(m)) => m,
        };
        let charge_percent = self.estimator.estimate(measurement.bus_voltage_millivolts);
        let state = classify(measurement.shunt_voltage_microvolts, &self.thresholds);
        Ok(Some(PollReport { measurement, charge_percent, state }))
    }
}

} // verus!
