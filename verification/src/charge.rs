//! Estimation of the battery charge from the bus voltage.
//!
//! The bus voltage serves as a proxy for the battery's state of charge: the
//! estimate is a linear ramp between a configured minimum voltage (0 %) and a
//! configured full voltage (100 %), clamped to that range outside it.

use vstd::prelude::*;

use crate::errors::ConfigError;

verus! {

/// The configured voltage-to-charge mapping.
///
/// `wf` asks that the full-charge voltage lie strictly above the minimum, so
/// the ramp has a positive span.
#[derive(Clone, Copy, Debug, PartialEq, Eq, Structural)]
pub struct ChargeEstimator {
    /// Bus voltage, in millivolts, at or below which the battery counts as
    /// empty.
    pub min_voltage_mv: u16,
    /// Bus voltage, in millivolts, at or above which the battery counts as
    /// full.
    pub full_voltage_mv: u16,
}

/// The charge percentage for a bus voltage `v` under the mapping `e`:
/// `(v - min) * 100 / (full - min)`, clamped to the range 0 ..= 100.
pub open spec fn spec_estimate(e: ChargeEstimator, v: int) -> int {
    if v <= e.min_voltage_mv {
        0
    } else if v >= e.full_voltage_mv {
        100
    } else {
        (v - e.min_voltage_mv) * 100 / (e.full_voltage_mv - e.min_voltage_mv)
    }
}

impl ChargeEstimator {
    /// The ramp has a positive span.
    pub open spec fn wf(self) -> bool {
        self.min_voltage_mv < self.full_voltage_mv
    }

    /// Validates a voltage-to-charge mapping; rejects a full voltage that
    /// does not lie strictly above the minimum.
    pub fn new(min_voltage_mv: u16, full_voltage_mv: u16) -> (r: Result<Self, ConfigError>)
        ensures
            min_voltage_mv < full_voltage_mv ==> r == Ok::<Self, ConfigError>(
                ChargeEstimator { min_voltage_mv, full_voltage_mv },
            ),
            min_voltage_mv >= full_voltage_mv ==> r == Err::<Self, ConfigError>(
                ConfigError::ChargeBounds,
            ),
            r matches Ok(e) ==> e.wf(),
    {
        if min_voltage_mv < full_voltage_mv {
            Ok(ChargeEstimator { min_voltage_mv, full_voltage_mv })
        } else {
            Err(ConfigError::ChargeBounds)
        }
    }

    /// Estimates the battery charge, in percent, for one bus-voltage sample.
    pub fn estimate(&self, bus_voltage_mv: u16) -> (r: u8)
        requires
            self.wf(),
        ensures
            r == spec_estimate(*self, bus_voltage_mv as int),
            0 <= r <= 100,
    {
        if bus_voltage_mv <= self.min_voltage_mv {
            0
        } else if bus_voltage_mv >= self.full_voltage_mv {
            100
        } else {
            let num: u32 = (bus_voltage_mv - self.min_voltage_mv) as u32 * 100;
            let den: u32 = (self.full_voltage_mv - self.min_voltage_mv) as u32;
            let q: u32 = num / den;
            proof {
                lemma_ramp_bounds(
                    bus_voltage_mv as int,
                    self.min_voltage_mv as int,
                    self.full_voltage_mv as int,
                );
            }
            q as u8
        }
    }
}

/// For a voltage strictly inside the ramp, the interpolated percentage lies
/// in 0 ..= 99.
proof fn lemma_ramp_bounds(v: int, min: int, full: int)
    requires
        min < v < full,
    ensures
        0 <= (v - min) * 100 / (full - min) < 100,
{
    assert((v - min) * 100 >= 0) by (nonlinear_arith)
        requires
            v > min,
    ;
    vstd::arithmetic::div_mod::lemma_div_pos_is_pos((v - min) * 100, full - min);
    assert((v - min) * 100 < (full - min) * 100) by (nonlinear_arith)
        requires
            min < v < full,
    ;
    vstd::arithmetic::div_mod::lemma_multiply_divide_lt((v - min) * 100, full - min, 100);
}

} // verus!
