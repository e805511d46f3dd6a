//! Classification of the power source from the shunt voltage.
//!
//! The sign and magnitude of the voltage drop across the shunt resistor tell
//! whether the board runs from main power, charges the battery, or discharges
//! it.  The classifier is a pure, total function over three ordered threshold
//! bands; a boundary value falls into the lower (more negative) band.

use vstd::prelude::*;

use crate::errors::ConfigError;

verus! {

/// The power/charging state inferred from one shunt-voltage sample.
#[derive(Clone, Copy, Debug, PartialEq, Eq, Structural)]
pub enum PowerSourceState {
    /// No main power: the battery alone feeds the load.
    OnBatteryNotCharging,
    /// Main power present; the battery supplements it while charging.
    OnMainPowerCharging,
    /// No strong charge or discharge signal.
    Indeterminate,
    /// Main power present with a high charge current and no battery load.
    OnMainPowerNoBatteryCharging,
}

/// The three boundaries, in microvolts, that separate the four bands.
///
/// They depend on the board's shunt resistor and wiring, so they are
/// configuration, not constants of the code.  `wf` asks that the bands be
/// ordered and therefore non-overlapping.
#[derive(Clone, Copy, Debug, PartialEq, Eq, Structural)]
pub struct ClassifierThresholds {
    /// Below this value the board is on battery alone.
    pub battery_below_uv: i32,
    /// From `battery_below_uv` up to (excluding) this value the battery
    /// supplements main power.
    pub charging_below_uv: i32,
    /// Up to (including) this value the state is indeterminate; above it the
    /// charge current is high.
    pub steady_max_uv: i32,
}

impl ClassifierThresholds {
    /// The bands are ordered from most negative to most positive.
    pub open spec fn wf(self) -> bool {
        self.battery_below_uv <= self.charging_below_uv
            && self.charging_below_uv <= self.steady_max_uv
    }

    /// Validates a threshold triple; rejects unordered bands.
    pub fn new(battery_below_uv: i32, charging_below_uv: i32, steady_max_uv: i32) -> (r: Result<
        Self,
        ConfigError,
    >)
        ensures
            battery_below_uv <= charging_below_uv && charging_below_uv <= steady_max_uv ==> r
                == Ok::<Self, ConfigError>(
                ClassifierThresholds { battery_below_uv, charging_below_uv, steady_max_uv },
            ),
            !(battery_below_uv <= charging_below_uv && charging_below_uv <= steady_max_uv) ==> r
                == Err::<Self, ConfigError>(ConfigError::ThresholdOrder),
            r matches Ok(t) ==> t.wf(),
    {
        if battery_below_uv <= charging_below_uv && charging_below_uv <= steady_max_uv {
            Ok(ClassifierThresholds { battery_below_uv, charging_below_uv, steady_max_uv })
        } else {
            Err(ConfigError::ThresholdOrder)
        }
    }
}

impl Default for ClassifierThresholds {
    /// The thresholds for a 10 mOhm shunt as wired on the supported board:
    /// -350 uV, -5 uV and 850 uV.
    fn default() -> (r: Self)
        ensures
            r == (ClassifierThresholds {
                battery_below_uv: -350i32,
                charging_below_uv: -5i32,
                steady_max_uv: 850i32,
            }),
            r.wf(),
    {
        ClassifierThresholds { battery_below_uv: -350, charging_below_uv: -5, steady_max_uv: 850 }
    }
}

/// The band of `shunt_voltage_uv` under the thresholds `t`, evaluated from
/// the most negative band to the most positive; a boundary value falls into
/// the lower band.
pub open spec fn spec_classify(shunt_voltage_uv: int, t: ClassifierThresholds) -> PowerSourceState {
    if shunt_voltage_uv < t.battery_below_uv {
        PowerSourceState::OnBatteryNotCharging
    } else if shunt_voltage_uv < t.charging_below_uv {
        PowerSourceState::OnMainPowerCharging
    } else if shunt_voltage_uv <= t.steady_max_uv {
        PowerSourceState::Indeterminate
    } else {
        PowerSourceState::OnMainPowerNoBatteryCharging
    }
}

/// Maps one shunt-voltage sample to its power-source state.  Pure and total;
/// the classification carries no state from earlier samples.
pub fn classify(shunt_voltage_uv: i32, t: &ClassifierThresholds) -> (r: PowerSourceState)
    ensures
        r == spec_classify(shunt_voltage_uv as int, *t),
{
    if shunt_voltage_uv < t.battery_below_uv {
        PowerSourceState::OnBatteryNotCharging
    } else if shunt_voltage_uv < t.charging_below_uv {
        PowerSourceState::OnMainPowerCharging
    } else if shunt_voltage_uv <= t.steady_max_uv {
        PowerSourceState::Indeterminate
    } else {
        PowerSourceState::OnMainPowerNoBatteryCharging
    }
}

} // verus!
