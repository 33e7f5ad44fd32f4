use as5600_driver::angle_bar_eighths;
use as5600_driver::angle_percent;
use as5600_driver::AS5600Driver;
use as5600_driver::AS5600Interface;
use as5600_driver::AS56Mock;
use as5600_driver::Configuration;
use as5600_driver::FastFilterThreshold;
use as5600_driver::Hysteresis;
use as5600_driver::MagnetStatus;
use as5600_driver::OutputStage;
use as5600_driver::PowerMode;
use as5600_driver::PwmFrequency;
use as5600_driver::SlowFilter;

#[test]
fn driver_reads_control_set_raw_angle() {
    let mut mock = AS56Mock::new();
    mock.mock_set_raw_angle(2048);
    let mut driver = AS5600Driver::new(mock);
    let raw = driver.read_raw_angle().unwrap();
    assert_eq!(raw, 2048);
    // Bar-fill fraction of 2048/4095 is about 50%.
    assert_eq!(angle_percent(raw), 50);
    let eighths = angle_bar_eighths(raw, 27);
    assert_eq!(eighths / 8, 13);
    assert_eq!(eighths, 108);
}

#[test]
fn driver_decodes_control_set_status() {
    let mut mock = AS56Mock::new();
    mock.mock_set_status(MagnetStatus { detected: true, too_weak: true, too_strong: false });
    let mut driver = AS5600Driver::new(mock);
    let status = driver.get_magnet_status().unwrap();
    assert_eq!(status, MagnetStatus { detected: true, too_weak: true, too_strong: false });
    assert_eq!(driver.get_status_raw().unwrap(), 0x30);
}

#[test]
fn configuration_set_then_get_returns_identical_struct() {
    let config = Configuration {
        power_mode: PowerMode::LPM2,
        hysteresis: Hysteresis::Lsb3,
        output_stage: OutputStage::PWM,
        pwm_frequency: PwmFrequency::Hz460,
        slow_filter: SlowFilter::X4,
        fast_filter_threshold: FastFilterThreshold::Lsb18,
        watchdog: false,
    };
    let mut driver = AS5600Driver::new(AS56Mock::new());
    driver.set_config(config).unwrap();
    assert_eq!(driver.get_config().unwrap(), config);
}

#[test]
fn default_mock_reports_watchdog_on_configuration() {
    let mut driver = AS5600Driver::new(AS56Mock::new());
    let config = driver.get_config().unwrap();
    assert!(config.watchdog);
    assert_eq!(config.power_mode, PowerMode::Nominal);
    assert_eq!(config.hysteresis, Hysteresis::Off);
}

#[test]
fn zero_and_max_positions_round_trip_and_mask() {
    let mut driver = AS5600Driver::new(AS56Mock::new());
    driver.set_zero_position(0x0123).unwrap();
    assert_eq!(driver.get_zero_position().unwrap(), 0x0123);
    driver.set_max_position(0x1FFF).unwrap();
    assert_eq!(driver.get_max_position().unwrap(), 0x0FFF);
    driver.set_max_angle(4096).unwrap();
    assert_eq!(driver.get_max_angle().unwrap(), 0);
}

#[test]
fn driver_reads_magnitude_agc_and_burn_count() {
    let mut mock = AS56Mock::new();
    mock.mock_set_magnitude(0x0456);
    mock.mock_set_agc(0x55);
    // The cycle counter register is read-only from the chip's bus; put a
    // value in it through the simulation's own storage path.
    mock.write(0x00, &[0xFF]);
    let mut driver = AS5600Driver::new(mock);
    assert_eq!(driver.get_magnitude().unwrap(), 0x0456);
    assert_eq!(driver.get_agc().unwrap(), 0x55);
    // Only the low two bits of the cycle counter are significant.
    assert_eq!(driver.get_burn_count().unwrap(), 0x03);
}

#[test]
fn filtered_angle_reads_the_angle_registers() {
    let mut mock = AS56Mock::new();
    mock.write(0x0E, &[0x02, 0x2B]);
    let mut driver = AS5600Driver::new(mock);
    assert_eq!(driver.read_angle().unwrap(), 0x022B);
}

#[test]
fn burn_operations_write_the_trigger_codes() {
    let mut driver = AS5600Driver::new(AS56Mock::new());
    driver.danger_permanent_burn_settings().unwrap();
    let mock = driver.release();
    assert_eq!(mock.read(0xFF, 1), vec![0x80]);

    let mut driver = AS5600Driver::new(mock);
    driver.danger_permanent_burn_config().unwrap();
    let mock = driver.release();
    assert_eq!(mock.read(0xFF, 1), vec![0x40]);
}

#[test]
fn driver_with_custom_address_behaves_identically() {
    let mut mock = AS56Mock::new();
    mock.mock_set_raw_angle(100);
    let mut driver = AS5600Driver::with_address(mock, 0x40);
    assert_eq!(driver.read_raw_angle().unwrap(), 100);
}
