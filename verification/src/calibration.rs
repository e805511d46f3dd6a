//! Calibration of the chip's current and power registers.
//!
//! The chip multiplies the raw shunt-voltage register by a calibration
//! register to produce its current and power registers.  The calibration is
//! derived from the shunt resistance and the maximum expected current: the
//! current LSB is the maximum current spread over the register's 15-bit
//! magnitude, and the register value is the chip family's scale constant
//! divided by the product of current LSB and shunt resistance.

use vstd::prelude::*;

use vstd::arithmetic::div_mod::{
    lemma_div_is_ordered,
    lemma_div_is_ordered_by_denominator,
    lemma_fundamental_div_mod,
    lemma_mod_division_less_than_divisor,
};
use vstd::arithmetic::mul::{lemma_mul_inequality, lemma_mul_is_commutative};

use crate::errors::CalibrationError;

verus! {

/// Scale constant of the chip family: 0.04096 V-Ohm times (10^6)^2, so that
/// dividing it by a microamp-microohm product lands directly in register
/// units.
pub const CALIBRATION_SCALE: u64 = 40_960_000_000;

/// The chip's current register has a 15-bit magnitude, so the current LSB is
/// the maximum expected current divided by this many steps.
pub const CURRENT_REGISTER_STEPS: u64 = 32768;

/// The power LSB is this fixed multiple of the current LSB.
pub const POWER_LSB_FACTOR: u64 = 20;

/// The current LSB, in microamps per bit, derived from a maximum expected
/// current.
pub open spec fn spec_current_lsb(max_expected_current_microamps: u64) -> int {
    max_expected_current_microamps as int / CURRENT_REGISTER_STEPS as int
}

/// The microamp-microohm product that the scale constant is divided by.
pub open spec fn spec_scale_product(
    shunt_resistance_microohms: u32,
    max_expected_current_microamps: u64,
) -> int {
    spec_current_lsb(max_expected_current_microamps) * shunt_resistance_microohms
}

/// A calibration is accepted exactly when the scale product keeps the
/// register value at a nonzero 16-bit value: at least
/// `CALIBRATION_SCALE / 65535` and at most `CALIBRATION_SCALE / 2`.
pub open spec fn spec_calibration_ok(
    shunt_resistance_microohms: u32,
    max_expected_current_microamps: u64,
) -> bool {
    CALIBRATION_SCALE as int / (u16::MAX as int) <= spec_scale_product(
        shunt_resistance_microohms,
        max_expected_current_microamps,
    ) <= CALIBRATION_SCALE as int / 2
}

/// `x` rounded down to an even value.  The chip keeps the lowest bit of the
/// calibration register at zero.
pub open spec fn spec_even_floor(x: int) -> int {
    x - x % 2
}

/// The value written to the chip's calibration register.
pub open spec fn spec_register_value(
    shunt_resistance_microohms: u32,
    max_expected_current_microamps: u64,
) -> int {
    spec_even_floor(
        CALIBRATION_SCALE as int / spec_scale_product(
            shunt_resistance_microohms,
            max_expected_current_microamps,
        ),
    )
}

/// The calibration that `Calibration::compute` derives from an accepted
/// input pair.
pub open spec fn spec_calibration(
    shunt_resistance_microohms: u32,
    max_expected_current_microamps: u64,
) -> Calibration {
    Calibration {
        shunt_resistance_microohms,
        current_lsb_microamps: spec_current_lsb(max_expected_current_microamps) as u64,
        power_lsb_microwatts: (POWER_LSB_FACTOR as int * spec_current_lsb(
            max_expected_current_microamps,
        )) as u64,
        calibration_register_value: spec_register_value(
            shunt_resistance_microohms,
            max_expected_current_microamps,
        ) as u16,
    }
}

/// What `Calibration::compute` returns: the derived calibration when the
/// input pair is accepted, `CalibrationError::Overflow` otherwise.
pub open spec fn spec_compute_post(
    shunt_resistance_microohms: u32,
    max_expected_current_microamps: u64,
    r: Result<Calibration, CalibrationError>,
) -> bool {
    if spec_calibration_ok(shunt_resistance_microohms, max_expected_current_microamps) {
        r == Ok::<Calibration, CalibrationError>(
            spec_calibration(shunt_resistance_microohms, max_expected_current_microamps),
        )
    } else {
        r == Err::<Calibration, CalibrationError>(CalibrationError::Overflow)
    }
}

/// The scale factors for one device, computed once at startup and held for
/// the device's lifetime.
#[derive(Clone, Copy, Debug, PartialEq, Eq, Structural)]
pub struct Calibration {
    /// Resistance of the shunt resistor, in microohms.
    pub shunt_resistance_microohms: u32,
    /// Physical value of one current-register bit, in microamps.
    pub current_lsb_microamps: u64,
    /// Physical value of one power-register bit, in microwatts.
    pub power_lsb_microwatts: u64,
    /// The value the chip's calibration register must be loaded with before
    /// current and power reads are meaningful.
    pub calibration_register_value: u16,
}

impl Calibration {
    /// The invariant every computed calibration satisfies: the scale product
    /// lies in the accepted range, the register value is the even floor of
    /// the scale quotient and is a nonzero 16-bit value, and the power LSB is
    /// the fixed multiple of the current LSB.
    pub open spec fn wf(self) -> bool {
        &&& 1 <= self.shunt_resistance_microohms
        &&& 1 <= self.current_lsb_microamps
        &&& CALIBRATION_SCALE as int / (u16::MAX as int) <= self.current_lsb_microamps
            * self.shunt_resistance_microohms <= CALIBRATION_SCALE as int / 2
        &&& self.power_lsb_microwatts == POWER_LSB_FACTOR as int * self.current_lsb_microamps
        &&& self.calibration_register_value == spec_even_floor(
            CALIBRATION_SCALE as int / (self.current_lsb_microamps
                * self.shunt_resistance_microohms),
        )
        &&& 2 <= self.calibration_register_value
        &&& self.calibration_register_value % 2 == 0
    }

    /// Derives the calibration for a shunt of `shunt_resistance_microohms`
    /// and a maximum expected current of `max_expected_current_microamps`.
    ///
    /// Fails with `CalibrationError::Overflow` when the current LSB rounds to
    /// zero or the register value would not be a nonzero 16-bit value.  The
    /// result is a pure function of the two inputs, so recomputing it returns
    /// the same calibration.
    pub fn compute(shunt_resistance_microohms: u32, max_expected_current_microamps: u64) -> (r:
        Result<Calibration, CalibrationError>)
        ensures
            spec_compute_post(shunt_resistance_microohms, max_expected_current_microamps, r),
            r matches Ok(c) ==> c.wf(),
    {
        let current_lsb: u64 = max_expected_current_microamps / CURRENT_REGISTER_STEPS;
        if current_lsb == 0 {
            return Err(CalibrationError::Overflow);
        }
        if shunt_resistance_microohms == 0 {
            return Err(CalibrationError::Overflow);
        }
        if current_lsb > u64::MAX / (shunt_resistance_microohms as u64) {
            proof {
                lemma_product_overflows(
                    current_lsb as int,
                    shunt_resistance_microohms as int,
                );
            }
            return Err(CalibrationError::Overflow);
        }
        proof {
            lemma_product_fits(current_lsb as int, shunt_resistance_microohms as int);
            lemma_div_is_ordered(
                max_expected_current_microamps as int,
                u64::MAX as int,
                CURRENT_REGISTER_STEPS as int,
            );
        }
        match chip_calibration_bits(current_lsb as i64, shunt_resistance_microohms) {
            None => Err(CalibrationError::Overflow),
            Some(bits) => {
                proof {
                    lemma_register_value_bounds(
                        current_lsb as int * shunt_resistance_microohms as int,
                    );
                    lemma_factor_le_product(current_lsb as int, shunt_resistance_microohms as int);
                }
                Ok(
                    Calibration {
                        shunt_resistance_microohms,
                        current_lsb_microamps: current_lsb,
                        power_lsb_microwatts: POWER_LSB_FACTOR * current_lsb,
                        calibration_register_value: bits,
                    },
                )
            },
        }
    }

    /// Recovers the maximum expected current that this calibration encodes:
    /// the current LSB spread back over the register's steps.
    pub fn decoded_max_current_microamps(&self) -> (r: u64)
        requires
            self.wf(),
        ensures
            r == self.current_lsb_microamps * CURRENT_REGISTER_STEPS,
    {
        proof {
            lemma_factor_le_product(
                self.current_lsb_microamps as int,
                self.shunt_resistance_microohms as int,
            );
            lemma_mul_inequality(
                self.current_lsb_microamps as int,
                CALIBRATION_SCALE as int / 2,
                CURRENT_REGISTER_STEPS as int,
            );
        }
        self.current_lsb_microamps * CURRENT_REGISTER_STEPS
    }
}

/// Law: computing a calibration is deterministic.  Two results that both
/// satisfy `compute`'s contract for the same shunt resistance and maximum
/// expected current are equal; in particular, recomputing is idempotent.
pub proof fn lemma_compute_deterministic(
    shunt_resistance_microohms: u32,
    max_expected_current_microamps: u64,
    r1: Result<Calibration, CalibrationError>,
    r2: Result<Calibration, CalibrationError>,
)
    requires
        spec_compute_post(shunt_resistance_microohms, max_expected_current_microamps, r1),
        spec_compute_post(shunt_resistance_microohms, max_expected_current_microamps, r2),
    ensures
        r1 == r2,
{
}

/// Law: the calibration encodes the maximum expected current to within one
/// rounding step.  Decoding the current LSB back over the register's steps
/// recovers a value at most `CURRENT_REGISTER_STEPS - 1` microamps below the
/// configured maximum, and never above it.
pub proof fn lemma_calibration_round_trip(
    shunt_resistance_microohms: u32,
    max_expected_current_microamps: u64,
)
    requires
        spec_calibration_ok(shunt_resistance_microohms, max_expected_current_microamps),
    ensures
        ({
            let c = spec_calibration(shunt_resistance_microohms, max_expected_current_microamps);
            &&& c.current_lsb_microamps * CURRENT_REGISTER_STEPS
                <= max_expected_current_microamps
            &&& max_expected_current_microamps < c.current_lsb_microamps * CURRENT_REGISTER_STEPS
                + CURRENT_REGISTER_STEPS
        }),
{
    let max = max_expected_current_microamps as int;
    let steps = CURRENT_REGISTER_STEPS as int;
    lemma_fundamental_div_mod(max, steps);
    lemma_mod_division_less_than_divisor(max, steps);
    lemma_div_is_ordered(max, u64::MAX as int, steps);
}

/// Relies on ina219's `IntCalibration::new` and `IntCalibration::as_bits`:
/// `new` accepts a nonnegative current LSB exactly when its product with the
/// shunt resistance lies between `CALIBRATION_SCALE / 65535` and
/// `CALIBRATION_SCALE / 2`, and `as_bits` then returns
/// `CALIBRATION_SCALE / product` with the lowest bit cleared.
#[verifier::external_body]
fn chip_calibration_bits(current_lsb: i64, r_shunt_uohm: u32) -> (r: Option<u16>)
    requires
        0 <= current_lsb,
        current_lsb * r_shunt_uohm <= u64::MAX,
    ensures
        r is Some <==> CALIBRATION_SCALE as int / (u16::MAX as int) <= current_lsb * r_shunt_uohm
            <= CALIBRATION_SCALE as int / 2,
        r matches Some(bits) ==> bits == spec_even_floor(
            CALIBRATION_SCALE as int / (current_lsb * r_shunt_uohm),
        ),
{
    let calib = ina219::calibration::IntCalibration::new(
        ina219::calibration::MicroAmpere(current_lsb),
        r_shunt_uohm,
    );
    match calib {
        Some(c) => Some(c.as_bits()),
        None => None,
    }
}

/// A current LSB above `u64::MAX / shunt` puts the scale product above the
/// accepted range.
proof fn lemma_product_overflows(lsb: int, shunt: int)
    requires
        1 <= lsb,
        1 <= shunt <= u32::MAX,
        lsb > u64::MAX as int / shunt,
    ensures
        lsb * shunt > CALIBRATION_SCALE as int / 2,
{
    let q = u64::MAX as int / shunt;
    lemma_fundamental_div_mod(u64::MAX as int, shunt);
    lemma_mod_division_less_than_divisor(u64::MAX as int, shunt);
    lemma_mul_inequality(q + 1, lsb, shunt);
    assert((q + 1) * shunt == q * shunt + shunt) by (nonlinear_arith);
}

/// A current LSB at most `u64::MAX / shunt` keeps the scale product within
/// `u64`.
proof fn lemma_product_fits(lsb: int, shunt: int)
    requires
        0 <= lsb,
        1 <= shunt,
        lsb <= u64::MAX as int / shunt,
    ensures
        lsb * shunt <= u64::MAX as int,
{
    let q = u64::MAX as int / shunt;
    lemma_mul_inequality(lsb, q, shunt);
    lemma_fundamental_div_mod(u64::MAX as int, shunt);
    lemma_mod_division_less_than_divisor(u64::MAX as int, shunt);
}

/// For a scale product in the accepted range, the register value is a
/// nonzero 16-bit value even after its lowest bit is cleared.
proof fn lemma_register_value_bounds(p: int)
    requires
        CALIBRATION_SCALE as int / (u16::MAX as int) <= p <= CALIBRATION_SCALE as int / 2,
    ensures
        2 <= CALIBRATION_SCALE as int / p <= u16::MAX as int,
        2 <= spec_even_floor(CALIBRATION_SCALE as int / p) <= u16::MAX as int - 1,
{
    let k = CALIBRATION_SCALE as int;
    assert(k / (u16::MAX as int) == 625009);
    assert(k / 2 == 20_480_000_000);
    lemma_div_is_ordered_by_denominator(k, 625009, p);
    assert(k / 625009 == 65535);
    lemma_div_is_ordered_by_denominator(k, p, 20_480_000_000);
    assert(k / 20_480_000_000 == 2);
    lemma_mod_division_less_than_divisor(k / p, 2);
}

/// With a factor of at least one, each factor is bounded by the product.
proof fn lemma_factor_le_product(lsb: int, shunt: int)
    requires
        0 <= lsb,
        1 <= shunt,
    ensures
        lsb <= lsb * shunt,
{
    lemma_mul_inequality(1, shunt, lsb);
    lemma_mul_is_commutative(shunt, lsb);
}

} // verus!
