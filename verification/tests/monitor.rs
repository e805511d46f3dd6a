use ups_monitor::calibration::Calibration;
use ups_monitor::charge::ChargeEstimator;
use ups_monitor::classify::{classify, ClassifierThresholds, PowerSourceState};
use ups_monitor::errors::{CalibrationError, ConfigError, MeasurementError, SetupError};
use ups_monitor::measurement::{
    bus_voltage_millivolts, read_measurement, shunt_voltage_microvolts, RawRegisters,
};
use ups_monitor::monitor::{Monitor, MonitorConfig, DEVICE_ADDRESS, REG_CALIBRATION};

use ina219::calibration::{Calibration as ChipCalibration, IntCalibration, MicroAmpere};
use ina219::measurements::{CurrentRegister, ShuntVoltage};

fn board_calibration() -> Calibration {
    // 10 mOhm shunt, 3.2768 A maximum expected current: a current LSB of
    // 100 uA per bit.
    Calibration::compute(10_000, 3_276_800).unwrap()
}

fn board_config() -> MonitorConfig {
    MonitorConfig {
        shunt_resistance_microohms: 10_000,
        max_expected_current_microamps: 3_276_800,
        min_voltage_mv: 3000,
        full_voltage_mv: 4200,
        thresholds: ClassifierThresholds::default(),
        poll_interval_seconds: 5,
        power_save: false,
    }
}

#[test]
fn calibration_derives_board_values() {
    let cal = board_calibration();
    assert_eq!(cal.current_lsb_microamps, 100);
    assert_eq!(cal.power_lsb_microwatts, 2000);
    assert_eq!(cal.calibration_register_value, 40960);
    assert_eq!(cal.shunt_resistance_microohms, 10_000);
}

#[test]
fn calibration_matches_chip_driver() {
    let cal = board_calibration();
    let chip = IntCalibration::new(MicroAmpere(100), 10_000).unwrap();
    assert_eq!(cal.calibration_register_value, chip.as_bits());
    assert_eq!(cal.current_lsb_microamps as i64, chip.current_lsb().0);
    assert_eq!(cal.power_lsb_microwatts as i64, chip.power_lsb().0);
}

#[test]
fn calibration_one_amp_resolution() {
    // A current LSB of 1 A on the same shunt.
    let cal = Calibration::compute(10_000, 1_000_000 * 32_768).unwrap();
    assert_eq!(cal.current_lsb_microamps, 1_000_000);
    assert_eq!(cal.calibration_register_value, 4);
    let chip = IntCalibration::new(MicroAmpere(1_000_000), 10_000).unwrap();
    assert_eq!(cal.calibration_register_value, chip.as_bits());
}

#[test]
fn calibration_is_deterministic() {
    let a = Calibration::compute(10_000, 3_276_800);
    let b = Calibration::compute(10_000, 3_276_800);
    assert_eq!(a, b);
}

#[test]
fn calibration_rejects_zero_current_lsb() {
    // Below one full register step the current LSB rounds to zero.
    assert_eq!(
        Calibration::compute(10_000, 32_767),
        Err(CalibrationError::Overflow)
    );
}

#[test]
fn calibration_rejects_register_overflow() {
    // A tiny scale product would need a register value above 16 bits.
    assert_eq!(Calibration::compute(1, 32_768), Err(CalibrationError::Overflow));
    // A huge scale product would drive the register value to zero.
    assert_eq!(
        Calibration::compute(1_000_000, 32_768 * 32_768),
        Err(CalibrationError::Overflow)
    );
}

#[test]
fn calibration_round_trip_exact() {
    let cal = board_calibration();
    assert_eq!(cal.decoded_max_current_microamps(), 3_276_800);
}

#[test]
fn calibration_round_trip_within_one_step() {
    let cal = Calibration::compute(10_000, 3_276_850).unwrap();
    let decoded = cal.decoded_max_current_microamps();
    assert!(decoded <= 3_276_850);
    assert!(3_276_850 - decoded < 32_768);
}

#[test]
fn shunt_conversion_is_exact() {
    assert_eq!(shunt_voltage_microvolts(0), 0);
    assert_eq!(shunt_voltage_microvolts(1), 10);
    assert_eq!(shunt_voltage_microvolts(0x7CFF), 319_990);
    assert_eq!(shunt_voltage_microvolts(0xF05F), -40_010);
    assert_eq!(shunt_voltage_microvolts(0x8300), -320_000);
    assert_eq!(shunt_voltage_microvolts(0xFFFF), -10);
}

#[test]
fn shunt_conversion_matches_chip_driver() {
    for ten_uv in [-32_000i16, -4001, -1, 0, 1, 100, 31_999] {
        let raw = u16::from_ne_bytes(ten_uv.to_ne_bytes());
        assert_eq!(
            shunt_voltage_microvolts(raw),
            ShuntVoltage::from_10uv(ten_uv).shunt_voltage_uv()
        );
    }
}

#[test]
fn bus_conversion_drops_status_bits() {
    assert_eq!(bus_voltage_millivolts(0x1F40 << 3), 32_000);
    assert_eq!(bus_voltage_millivolts((900 << 3) | 0b11), 3600);
    assert_eq!(bus_voltage_millivolts(0b111), 0);
}

#[test]
fn current_conversion_matches_chip_driver() {
    let cal = board_calibration();
    let chip = IntCalibration::new(MicroAmpere(100), 10_000).unwrap();
    for raw in [0u16, 1, 0xFFFF, 0x7FFF, 0x8000] {
        assert_eq!(
            ups_monitor::measurement::current_microamps(raw, &cal),
            chip.current_from_register(CurrentRegister(raw)).0
        );
    }
}

#[test]
fn classify_boundaries_battery() {
    let t = ClassifierThresholds::default();
    assert_eq!(classify(-351, &t), PowerSourceState::OnBatteryNotCharging);
    assert_eq!(classify(-350, &t), PowerSourceState::OnMainPowerCharging);
}

#[test]
fn classify_boundaries_charging() {
    let t = ClassifierThresholds::default();
    assert_eq!(classify(-6, &t), PowerSourceState::OnMainPowerCharging);
    assert_eq!(classify(-5, &t), PowerSourceState::Indeterminate);
}

#[test]
fn classify_boundaries_high_charge() {
    let t = ClassifierThresholds::default();
    assert_eq!(classify(850, &t), PowerSourceState::Indeterminate);
    assert_eq!(classify(851, &t), PowerSourceState::OnMainPowerNoBatteryCharging);
}

#[test]
fn thresholds_reject_unordered_bands() {
    assert_eq!(
        ClassifierThresholds::new(-5, -350, 850),
        Err(ConfigError::ThresholdOrder)
    );
    let t = ClassifierThresholds::new(-350, -5, 850).unwrap();
    assert_eq!(t, ClassifierThresholds::default());
}

#[test]
fn charge_estimate_linear_ramp() {
    let e = ChargeEstimator::new(3000, 4200).unwrap();
    assert_eq!(e.estimate(3000), 0);
    assert_eq!(e.estimate(4200), 100);
    assert_eq!(e.estimate(3600), 50);
    assert_eq!(e.estimate(2000), 0);
    assert_eq!(e.estimate(5000), 100);
}

#[test]
fn charge_estimate_rejects_empty_ramp() {
    assert_eq!(ChargeEstimator::new(4200, 4200), Err(ConfigError::ChargeBounds));
    assert_eq!(ChargeEstimator::new(4200, 3000), Err(ConfigError::ChargeBounds));
}

#[test]
fn read_reports_overflow_not_a_number() {
    let cal = board_calibration();
    let raw = RawRegisters {
        shunt_voltage: 0,
        bus_voltage: (900 << 3) | 0b11,
        power: 0,
        current: 0,
    };
    assert_eq!(read_measurement(raw, &cal), Err(MeasurementError::Overflow));
}

#[test]
fn read_waits_for_conversion_ready() {
    let cal = board_calibration();
    let raw = RawRegisters { shunt_voltage: 0, bus_voltage: 900 << 3, power: 0, current: 0 };
    assert_eq!(read_measurement(raw, &cal), Ok(None));
}

#[test]
fn read_converts_all_registers() {
    let cal = board_calibration();
    let raw = RawRegisters {
        shunt_voltage: 0xF05F,
        bus_voltage: (900 << 3) | 0b10,
        power: 5,
        current: 0xFFFF,
    };
    let m = read_measurement(raw, &cal).unwrap().unwrap();
    assert_eq!(m.bus_voltage_millivolts, 3600);
    assert_eq!(m.shunt_voltage_microvolts, -40_010);
    assert_eq!(m.current_microamps, -100);
    assert_eq!(m.power_microwatts, 10_000);
}

#[test]
fn monitor_polls_battery_discharge() {
    let monitor = Monitor::new(&board_config()).unwrap();
    let raw = RawRegisters {
        shunt_voltage: 0xF05F,
        bus_voltage: (900 << 3) | 0b10,
        power: 5,
        current: 0xFFFF,
    };
    let report = monitor.poll(raw).unwrap().unwrap();
    assert_eq!(report.measurement.bus_voltage_millivolts, 3600);
    assert_eq!(report.charge_percent, 50);
    assert_eq!(report.state, PowerSourceState::OnBatteryNotCharging);
}

#[test]
fn monitor_polls_steady_state() {
    let monitor = Monitor::new(&board_config()).unwrap();
    let raw = RawRegisters {
        shunt_voltage: 10,
        bus_voltage: (1050 << 3) | 0b10,
        power: 0,
        current: 10,
    };
    let report = monitor.poll(raw).unwrap().unwrap();
    assert_eq!(report.measurement.bus_voltage_millivolts, 4200);
    assert_eq!(report.measurement.shunt_voltage_microvolts, 100);
    assert_eq!(report.charge_percent, 100);
    assert_eq!(report.state, PowerSourceState::Indeterminate);
}

#[test]
fn monitor_poll_passes_not_ready_through() {
    let monitor = Monitor::new(&board_config()).unwrap();
    let raw = RawRegisters { shunt_voltage: 0, bus_voltage: 0, power: 0, current: 0 };
    assert_eq!(monitor.poll(raw), Ok(None));
}

#[test]
fn monitor_setup_reports_calibration_first() {
    let mut config = board_config();
    config.max_expected_current_microamps = 0;
    config.full_voltage_mv = 0;
    assert_eq!(
        Monitor::new(&config),
        Err(SetupError::Calibration(CalibrationError::Overflow))
    );
}

#[test]
fn monitor_setup_rejects_bad_charge_bounds() {
    let mut config = board_config();
    config.full_voltage_mv = config.min_voltage_mv;
    assert_eq!(
        Monitor::new(&config),
        Err(SetupError::Config(ConfigError::ChargeBounds))
    );
}

#[test]
fn monitor_setup_rejects_bad_thresholds() {
    let mut config = board_config();
    config.thresholds = ClassifierThresholds {
        battery_below_uv: 850,
        charging_below_uv: -5,
        steady_max_uv: -350,
    };
    assert_eq!(
        Monitor::new(&config),
        Err(SetupError::Config(ConfigError::ThresholdOrder))
    );
}

#[test]
fn register_map_matches_chip() {
    assert_eq!(DEVICE_ADDRESS, 0x43);
    assert_eq!(REG_CALIBRATION, 0x05);
}
