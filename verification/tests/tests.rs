use lm75::config::FaultQueue;
use lm75::config::OsMode;
use lm75::config::OsPolarity;
use lm75::driver::Lm75;
use lm75::register;
use lm75::Address;
use lm75::Error;

const ADDR: u8 = 0b100_1000;

fn assert_invalid_input_data_error<T>(result: Result<T, Error<()>>) {
    match result {
        Err(Error::InvalidInputData) => (),
        _ => panic!("Did not return Error::InvalidInputData."),
    }
}

/// Celsius value of a temperature in counts of 1/256 degrees.
fn celsius(counts: i16) -> f32 {
    counts as f32 / 256.0
}

/// Counts of 1/256 degrees for an exactly representable Celsius value.
fn counts(celsius: f32) -> i16 {
    (celsius * 256.0) as i16
}

#[test]
fn can_enable() {
    let sensor = Lm75::new(Address::default());
    assert_eq!(ADDR, sensor.address);
    let w = sensor.enable();
    assert_eq!(register::CONFIGURATION, w.register);
    assert_eq!(0, w.value);
}

#[test]
fn can_disable() {
    let sensor = Lm75::new(Address::default());
    let w = sensor.disable();
    assert_eq!(register::CONFIGURATION, w.register);
    assert_eq!(1, w.value);
}

#[test]
fn can_read_temperature() {
    let sensor = Lm75::new(Address::default());
    let temp = celsius(sensor.read_temperature(0b1110_0111, 0b1010_0101)); // -24.5
    assert!(-24.4 > temp);
    assert!(-24.6 < temp);
}

#[test]
fn can_read_temperature_pct2075() {
    let sensor = Lm75::new_pct2075(Address::default());
    let temp = celsius(sensor.read_temperature(0b1110_0111, 0b1010_0101)); // -24.375
    assert!(-24.3 > temp);
    assert!(-24.4 < temp);
}

#[test]
fn can_read_sample_rate() {
    let sensor = Lm75::new_pct2075(Address::default());
    let period = sensor.read_sample_rate(0b0000_0001); // 100ms
    assert_eq!(100, period);
}

fn check_config_write(w: lm75::driver::RegisterWrite, expected: u8) {
    assert_eq!(register::CONFIGURATION, w.register);
    assert_eq!(expected, w.value);
}

#[test]
fn can_set_fault_queue_1() {
    let sensor = Lm75::new(Address::default());
    check_config_write(sensor.set_fault_queue(FaultQueue::_1), 0b0000_0000);
}

#[test]
fn can_set_fault_queue_2() {
    let sensor = Lm75::new(Address::default());
    check_config_write(sensor.set_fault_queue(FaultQueue::_2), 0b0000_1000);
}

#[test]
fn can_set_fault_queue_4() {
    let sensor = Lm75::new(Address::default());
    check_config_write(sensor.set_fault_queue(FaultQueue::_4), 0b0001_0000);
}

#[test]
fn can_set_fault_queue_6() {
    let sensor = Lm75::new(Address::default());
    check_config_write(sensor.set_fault_queue(FaultQueue::_6), 0b0001_1000);
}

#[test]
fn can_set_os_polarity_low() {
    let sensor = Lm75::new(Address::default());
    check_config_write(sensor.set_os_polarity(OsPolarity::ActiveLow), 0b0000_0000);
}

#[test]
fn can_set_os_polarity_high() {
    let sensor = Lm75::new(Address::default());
    check_config_write(sensor.set_os_polarity(OsPolarity::ActiveHigh), 0b0000_0100);
}

#[test]
fn can_set_os_mode_low() {
    let sensor = Lm75::new(Address::default());
    check_config_write(sensor.set_os_mode(OsMode::Comparator), 0b0000_0000);
}

#[test]
fn can_set_os_mode_high() {
    let sensor = Lm75::new(Address::default());
    check_config_write(sensor.set_os_mode(OsMode::Interrupt), 0b0000_0010);
}

fn check_temp_write(
    w: Result<lm75::driver::RegisterWrite2, Error<()>>,
    register: u8,
    msb: u8,
    lsb: u8,
) {
    let w = w.unwrap();
    assert_eq!(register, w.register);
    assert_eq!(msb, w.msb);
    assert_eq!(lsb, w.lsb);
}

#[test]
fn can_set_os_temp_0_5() {
    let sensor = Lm75::new(Address::default());
    let w = sensor.set_os_temperature(counts(0.5));
    check_temp_write(w, register::T_OS, 0b0000_0000, 0b1000_0000);
}

#[test]
fn can_set_os_temp_min() {
    let sensor = Lm75::new(Address::default());
    let w = sensor.set_os_temperature(counts(-55.0));
    check_temp_write(w, register::T_OS, 0b1100_1001, 0);
}

#[test]
fn can_set_os_temp_max() {
    let sensor = Lm75::new(Address::default());
    let w = sensor.set_os_temperature(counts(125.0));
    check_temp_write(w, register::T_OS, 0b0111_1101, 0);
}

#[test]
fn set_os_temperature_too_low() {
    let sensor = Lm75::new_pct2075(Address::default());
    assert_invalid_input_data_error(sensor.set_os_temperature(counts(-55.5)));
}

#[test]
fn set_os_temperature_too_high() {
    let sensor = Lm75::new_pct2075(Address::default());
    assert_invalid_input_data_error(sensor.set_os_temperature(counts(125.5)));
}

#[test]
fn can_set_hyst_temp_0_5() {
    let sensor = Lm75::new(Address::default());
    let w = sensor.set_hysteresis_temperature(counts(0.5));
    check_temp_write(w, register::T_HYST, 0b0000_0000, 0b1000_0000);
}

#[test]
fn can_set_hyst_temp_min() {
    let sensor = Lm75::new(Address::default());
    let w = sensor.set_hysteresis_temperature(counts(-55.0));
    check_temp_write(w, register::T_HYST, 0b1100_1001, 0);
}

#[test]
fn can_set_hyst_temp_max() {
    let sensor = Lm75::new(Address::default());
    let w = sensor.set_hysteresis_temperature(counts(125.0));
    check_temp_write(w, register::T_HYST, 0b0111_1101, 0);
}

#[test]
fn set_hyst_temperature_too_low() {
    let sensor = Lm75::new_pct2075(Address::default());
    assert_invalid_input_data_error(sensor.set_hysteresis_temperature(counts(-55.5)));
}

#[test]
fn set_hyst_temperature_too_high() {
    let sensor = Lm75::new_pct2075(Address::default());
    assert_invalid_input_data_error(sensor.set_hysteresis_temperature(counts(125.5)));
}

#[test]
fn can_set_max_sample_rate() {
    let sensor = Lm75::new_pct2075(Address::default());
    let w: Result<_, Error<()>> = sensor.set_sample_rate(3100);
    let w = w.unwrap();
    assert_eq!(register::T_IDLE, w.register);
    assert_eq!(0b0001_1111, w.value);
}

#[test]
fn can_set_custom_sample_rate() {
    let sensor = Lm75::new_pct2075(Address::default());
    let w: Result<_, Error<()>> = sensor.set_sample_rate(1500);
    let w = w.unwrap();
    assert_eq!(register::T_IDLE, w.register);
    assert_eq!(0b0000_1111, w.value);
}

#[test]
fn can_set_default_sample_rate() {
    let sensor = Lm75::new_pct2075(Address::default());
    let w: Result<_, Error<()>> = sensor.set_sample_rate(100);
    let w = w.unwrap();
    assert_eq!(register::T_IDLE, w.register);
    assert_eq!(0b0000_0001, w.value);
}

#[test]
fn set_sample_rate_too_high() {
    let sensor = Lm75::new_pct2075(Address::default());
    assert_invalid_input_data_error(sensor.set_sample_rate(4000));
}

#[test]
fn set_non_multiple_sample_rate() {
    let sensor = Lm75::new_pct2075(Address::default());
    assert_invalid_input_data_error(sensor.set_sample_rate(1234));
}

#[test]
fn set_sample_rate_too_low() {
    let sensor = Lm75::new_pct2075(Address::default());
    assert_invalid_input_data_error(sensor.set_sample_rate(0));
}

#[test]
fn sample_rate_decode_is_total() {
    let sensor = Lm75::new_pct2075(Address::default());
    // Bits beyond the writable range still decode deterministically.
    assert_eq!(25500, sensor.read_sample_rate(0xFF));
}

#[test]
fn temperature_round_trip_coarse() {
    let coarse = Lm75::new(Address::default());
    // Every half-degree step is exactly representable at the base
    // family's resolution and must survive an encode/decode round trip.
    let mut half_steps: i16 = -110;
    while half_steps <= 250 {
        let t = half_steps * 128;
        let w = coarse.set_os_temperature::<()>(t).unwrap();
        assert_eq!(t, coarse.read_temperature(w.msb, w.lsb));
        half_steps += 1;
    }
}

#[test]
fn temperature_round_trip_fine() {
    let fine = Lm75::new_pct2075(Address::default());
    // Every eighth-degree step is exactly representable at the extended
    // family's resolution.
    let mut eighth_steps: i16 = -440;
    while eighth_steps <= 1000 {
        let t = eighth_steps * 32;
        let w = fine.set_os_temperature::<()>(t).unwrap();
        assert_eq!(t, fine.read_temperature(w.msb, w.lsb));
        eighth_steps += 1;
    }
}

#[test]
fn temperature_encode_rounds_to_nearest() {
    let coarse = Lm75::new(Address::default());
    // 0.3 °C is not representable at 0.5 °C resolution; the nearest
    // representable value is 0.5 °C.
    let w = coarse.set_os_temperature::<()>(counts(0.3)).unwrap();
    assert_eq!((0b0000_0000, 0b1000_0000), (w.msb, w.lsb));
    // 0.2 °C rounds down to 0.0 °C.
    let w = coarse.set_os_temperature::<()>(counts(0.2)).unwrap();
    assert_eq!((0b0000_0000, 0b0000_0000), (w.msb, w.lsb));

    let fine = Lm75::new_pct2075(Address::default());
    // 0.4 °C at 0.125 °C resolution is nearest to 0.375 °C.
    let w = fine.set_os_temperature::<()>(counts(0.4)).unwrap();
    assert_eq!((0b0000_0000, 0b0110_0000), (w.msb, w.lsb));
}

#[test]
fn fault_queue_keeps_unrelated_bits() {
    let mut sensor = Lm75::new(Address::default());
    // Start from a configuration with all single-bit flags high.
    sensor.commit_config(0b0000_0111);
    check_config_write(sensor.set_fault_queue(FaultQueue::_1), 0b0000_0111);
    check_config_write(sensor.set_fault_queue(FaultQueue::_2), 0b0000_1111);
    check_config_write(sensor.set_fault_queue(FaultQueue::_4), 0b0001_0111);
    check_config_write(sensor.set_fault_queue(FaultQueue::_6), 0b0001_1111);
    // And from a configuration with both fault-queue bits already high.
    sensor.commit_config(0b0001_1010);
    check_config_write(sensor.set_fault_queue(FaultQueue::_1), 0b0000_0010);
    check_config_write(sensor.set_fault_queue(FaultQueue::_2), 0b0000_1010);
    check_config_write(sensor.set_fault_queue(FaultQueue::_4), 0b0001_0010);
    check_config_write(sensor.set_fault_queue(FaultQueue::_6), 0b0001_1010);
}

#[test]
fn shutdown_toggle_restores_other_bits() {
    let mut sensor = Lm75::new(Address::default());
    sensor.commit_config(0b0001_1110);
    // Currently enabled: disabling then enabling restores the byte.
    let w = sensor.disable();
    assert_eq!(0b0001_1111, w.value);
    sensor.commit_config(w.value);
    let w = sensor.enable();
    assert_eq!(0b0001_1110, w.value);
    sensor.commit_config(w.value);
    assert_eq!(0b0001_1110, sensor.config.bits);
    // Toggling is idempotent.
    let w = sensor.enable();
    assert_eq!(0b0001_1110, w.value);
}

#[test]
fn commit_updates_mirror_only_when_called() {
    let mut sensor = Lm75::new(Address::default());
    let w = sensor.disable();
    // Planning alone leaves the mirror untouched, as after a failed or
    // cancelled transaction.
    assert_eq!(0, sensor.config.bits);
    sensor.commit_config(w.value);
    assert_eq!(1, sensor.config.bits);
}
