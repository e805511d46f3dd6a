//! Conversion of raw register readings into physical quantities.
//!
//! The chip hands back fixed-width registers: a signed shunt voltage at 10
//! microvolts per bit, a bus voltage whose upper 13 bits count 4 millivolts
//! each above two status flags, and current and power registers scaled by the
//! calibration's LSB values.  The transport that reads them is the host's
//! business; everything here works on the raw 16-bit values.

use vstd::prelude::*;

use vstd::arithmetic::mul::lemma_mul_upper_bound;

use crate::calibration::{Calibration, CALIBRATION_SCALE};
use crate::errors::MeasurementError;

verus! {

/// The four raw register values of one measurement cycle, read in the fixed
/// order shunt voltage, bus voltage, power, current.
#[derive(Clone, Copy, Debug, PartialEq, Eq, Structural)]
pub struct RawRegisters {
    /// Shunt-voltage register: signed, 10 microvolts per bit.
    pub shunt_voltage: u16,
    /// Bus-voltage register: bits 15..=3 hold the magnitude at 4 millivolts
    /// per bit, bit 1 is the conversion-ready flag, bit 0 the overflow flag.
    pub bus_voltage: u16,
    /// Power register: unsigned, scaled by the power LSB.
    pub power: u16,
    /// Current register: signed, scaled by the current LSB.
    pub current: u16,
}

/// One snapshot of physical values, created fresh each poll.
#[derive(Clone, Copy, Debug, PartialEq, Eq, Structural)]
pub struct Measurement {
    /// Bus voltage in millivolts.
    pub bus_voltage_millivolts: u16,
    /// Shunt voltage in microvolts; the sign tells the current's direction.
    pub shunt_voltage_microvolts: i32,
    /// Current in microamps.
    pub current_microamps: i64,
    /// Power in microwatts.
    pub power_microwatts: u64,
}

/// The value of a register interpreted as a signed 16-bit quantity.
pub open spec fn spec_signed_register(raw: u16) -> int {
    if raw >= 0x8000 {
        raw - 0x10000
    } else {
        raw as int
    }
}

/// The shunt voltage in microvolts: the signed register value times 10,
/// exactly.
pub open spec fn spec_shunt_voltage_microvolts(raw: u16) -> int {
    10 * spec_signed_register(raw)
}

/// The bus voltage in millivolts: the upper 13 bits of the register times 4.
pub open spec fn spec_bus_voltage_millivolts(raw: u16) -> int {
    (raw >> 3) * 4
}

/// Bit 1 of the bus-voltage register: a conversion has finished since the
/// register was last read.
pub open spec fn spec_conversion_ready(raw: u16) -> bool {
    raw & 0b10 != 0
}

/// Bit 0 of the bus-voltage register: the chip's current/power calculation
/// overflowed, so those readings are unusable.
pub open spec fn spec_overflow_flagged(raw: u16) -> bool {
    raw & 0b1 != 0
}

/// The current in microamps: the signed register value times the current
/// LSB.
pub open spec fn spec_current_microamps(raw: u16, cal: Calibration) -> int {
    spec_signed_register(raw) * cal.current_lsb_microamps
}

/// The power in microwatts: the unsigned register value times the power LSB.
pub open spec fn spec_power_microwatts(raw: u16, cal: Calibration) -> int {
    raw * cal.power_lsb_microwatts
}

/// The measurement derived from one set of raw registers under a
/// calibration.
pub open spec fn spec_measurement(raw: RawRegisters, cal: Calibration) -> Measurement {
    Measurement {
        bus_voltage_millivolts: spec_bus_voltage_millivolts(raw.bus_voltage) as u16,
        shunt_voltage_microvolts: spec_shunt_voltage_microvolts(raw.shunt_voltage) as i32,
        current_microamps: spec_current_microamps(raw.current, cal) as i64,
        power_microwatts: spec_power_microwatts(raw.power, cal) as u64,
    }
}

/// What reading one cycle returns: nothing while no fresh conversion is
/// ready, the overflow error when the chip flags its calculation as
/// overflowed, and the converted measurement otherwise.
pub open spec fn spec_read(raw: RawRegisters, cal: Calibration) -> Result<
    Option<Measurement>,
    MeasurementError,
> {
    if !spec_conversion_ready(raw.bus_voltage) {
        Ok(None)
    } else if spec_overflow_flagged(raw.bus_voltage) {
        Err(MeasurementError::Overflow)
    } else {
        Ok(Some(spec_measurement(raw, cal)))
    }
}

/// Interprets a register as a signed 16-bit quantity.
pub fn signed_register(raw: u16) -> (r: i32)
    ensures
        r == spec_signed_register(raw),
{
    if raw >= 0x8000 {
        (raw as i32) - 0x10000
    } else {
        raw as i32
    }
}

/// Converts the shunt-voltage register to microvolts.
pub fn shunt_voltage_microvolts(raw: u16) -> (r: i32)
    ensures
        r == spec_shunt_voltage_microvolts(raw),
{
    10 * signed_register(raw)
}

/// Converts the bus-voltage register to millivolts, discarding the two
/// status flags and the unused bit below the magnitude.
pub fn bus_voltage_millivolts(raw: u16) -> (r: u16)
    ensures
        r == spec_bus_voltage_millivolts(raw),
{
    proof {
        assert((raw >> 3) <= 8191) by (bit_vector);
    }
    (raw >> 3) * 4
}

/// Tests the conversion-ready flag of the bus-voltage register.
pub fn conversion_ready(raw: u16) -> (r: bool)
    ensures
        r == spec_conversion_ready(raw),
{
    raw & 0b10 != 0
}

/// Tests the overflow flag of the bus-voltage register.
pub fn overflow_flagged(raw: u16) -> (r: bool)
    ensures
        r == spec_overflow_flagged(raw),
{
    raw & 0b1 != 0
}

/// Converts the current register to microamps under a calibration.
pub fn current_microamps(raw: u16, cal: &Calibration) -> (r: i64)
    requires
        cal.wf(),
    ensures
        r == spec_current_microamps(raw, *cal),
{
    let signed: i32 = signed_register(raw);
    proof {
        lemma_current_lsb_bounded(*cal);
        assert(-32768 * 20_480_000_000 <= spec_signed_register(raw) * cal.current_lsb_microamps
            <= 32768 * 20_480_000_000) by (nonlinear_arith)
            requires
                -32768 <= spec_signed_register(raw) <= 32767,
                0 <= cal.current_lsb_microamps <= 20_480_000_000,
        ;
    }
    (signed as i64) * (cal.current_lsb_microamps as i64)
}

/// Converts the power register to microwatts under a calibration.
pub fn power_microwatts(raw: u16, cal: &Calibration) -> (r: u64)
    requires
        cal.wf(),
    ensures
        r == spec_power_microwatts(raw, *cal),
{
    proof {
        lemma_current_lsb_bounded(*cal);
        lemma_mul_upper_bound(
            raw as int,
            0xFFFF,
            cal.power_lsb_microwatts as int,
            409_600_000_000int,
        );
    }
    (raw as u64) * cal.power_lsb_microwatts
}

/// Converts one cycle's raw registers into a measurement.
///
/// Returns `Ok(None)` while the conversion-ready flag is clear, and
/// `MeasurementError::Overflow` when the chip's overflow flag is set, so an
/// unusable reading is never mistaken for a legitimate zero.
pub fn read_measurement(raw: RawRegisters, cal: &Calibration) -> (r: Result<
    Option<Measurement>,
    MeasurementError,
>)
    requires
        cal.wf(),
    ensures
        r == spec_read(raw, *cal),
{
    if !conversion_ready(raw.bus_voltage) {
        return Ok(None);
    }
    if overflow_flagged(raw.bus_voltage) {
        return Err(MeasurementError::Overflow);
    }
    Ok(
        Some(
            Measurement {
                bus_voltage_millivolts: bus_voltage_millivolts(raw.bus_voltage),
                shunt_voltage_microvolts: shunt_voltage_microvolts(raw.shunt_voltage),
                current_microamps: current_microamps(raw.current, cal),
                power_microwatts: power_microwatts(raw.power, cal),
            },
        ),
    )
}

/// A well-formed calibration keeps its current LSB within the accepted scale
/// range.
proof fn lemma_current_lsb_bounded(cal: Calibration)
    requires
        cal.wf(),
    ensures
        1 <= cal.current_lsb_microamps <= 20_480_000_000,
        cal.power_lsb_microwatts <= 20 * 20_480_000_000,
{
    assert(CALIBRATION_SCALE as int / 2 == 20_480_000_000);
    assert(cal.current_lsb_microamps <= cal.current_lsb_microamps
        * cal.shunt_resistance_microohms) by (nonlinear_arith)
        requires
            0 <= cal.current_lsb_microamps,
            1 <= cal.shunt_resistance_microohms,
    ;
}

} // verus!
