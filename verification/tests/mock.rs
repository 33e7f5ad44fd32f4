use as5600_driver::AS56Mock;
use as5600_driver::MagnetStatus;
use as5600_driver::MockError;
use as5600_driver::RegisterBus;

#[test]
fn new_mock_has_healthy_default_state() {
    let mock = AS56Mock::new();
    // Magnet detected, gain at 100, watchdog enabled; everything else zero.
    assert_eq!(mock.read(0x0B, 1), vec![0x20]);
    assert_eq!(mock.read(0x1A, 1), vec![100]);
    assert_eq!(mock.read(0x07, 1), vec![0x20]);
    assert_eq!(mock.read(0x00, 1), vec![0x00]);
    assert_eq!(mock.read(0x0C, 2), vec![0x00, 0x00]);
}

#[test]
fn write_past_end_of_space_is_truncated() {
    let mut mock = AS56Mock::new();
    // Ten bytes starting at 250: only the six in-range bytes land.
    mock.write(250, &[1, 2, 3, 4, 5, 6, 7, 8, 9, 10]);
    assert_eq!(mock.read(250, 6), vec![1, 2, 3, 4, 5, 6]);
    // Every other address keeps its defined state.
    assert_eq!(mock.read(0x0B, 1), vec![0x20]);
    assert_eq!(mock.read(0x1A, 1), vec![100]);
}

#[test]
fn read_past_end_of_space_is_zero_filled() {
    let mut mock = AS56Mock::new();
    mock.write(255, &[0xAB]);
    assert_eq!(mock.read(255, 3), vec![0xAB, 0x00, 0x00]);
    assert_eq!(mock.read(254, 4), vec![0x00, 0xAB, 0x00, 0x00]);
}

#[test]
fn bus_write_stores_payload_after_register_pointer() {
    let mut mock = AS56Mock::new();
    let r = mock.bus_write(0x36, &[0x01, 0x0A, 0x0B]);
    assert!(r.is_ok());
    assert_eq!(mock.read(0x01, 2), vec![0x0A, 0x0B]);
}

#[test]
fn bus_write_without_data_bytes_changes_nothing() {
    let mut mock = AS56Mock::new();
    let before = mock.read(0, 255);
    assert!(mock.bus_write(0x36, &[0x01]).is_ok());
    assert!(mock.bus_write(0x36, &[]).is_ok());
    assert_eq!(mock.read(0, 255), before);
}

#[test]
fn bus_write_read_returns_registers_from_pointer() {
    let mut mock = AS56Mock::new();
    mock.mock_set_raw_angle(0x0123);
    let bytes = mock.bus_write_read(0x36, &[0x0C], 2).unwrap();
    assert_eq!(bytes, vec![0x01, 0x23]);
}

#[test]
fn control_set_raw_angle_lands_at_raw_angle_registers() {
    let mut mock = AS56Mock::new();
    mock.mock_set_raw_angle(2048);
    assert_eq!(mock.read(0x0C, 2), vec![0x08, 0x00]);
    // Values above the 12-bit range are masked on encode.
    mock.mock_set_raw_angle(0x1FFF);
    assert_eq!(mock.read(0x0C, 2), vec![0x0F, 0xFF]);
}

#[test]
fn control_set_status_lands_at_status_register() {
    let mut mock = AS56Mock::new();
    mock.mock_set_status(MagnetStatus { detected: true, too_weak: true, too_strong: false });
    assert_eq!(mock.read(0x0B, 1), vec![0x30]);
    mock.mock_set_status(MagnetStatus { detected: false, too_weak: false, too_strong: false });
    assert_eq!(mock.read(0x0B, 1), vec![0x00]);
}

#[test]
fn control_set_agc_and_magnitude_land_at_their_registers() {
    let mut mock = AS56Mock::new();
    mock.mock_set_agc(0x7F);
    assert_eq!(mock.read(0x1A, 1), vec![0x7F]);
    mock.mock_set_magnitude(0x0456);
    assert_eq!(mock.read(0x1B, 2), vec![0x04, 0x56]);
}

#[test]
fn control_updates_to_different_quantities_do_not_tear() {
    // Two control updates to different quantities, in both orders: a read of
    // both afterwards sees exactly the written values, never a mix.
    let mut first = AS56Mock::new();
    first.mock_set_raw_angle(2048);
    first.mock_set_agc(42);
    assert_eq!(first.read(0x0C, 2), vec![0x08, 0x00]);
    assert_eq!(first.read(0x1A, 1), vec![42]);

    let mut second = AS56Mock::new();
    second.mock_set_agc(42);
    second.mock_set_raw_angle(2048);
    assert_eq!(second.read(0x0C, 2), vec![0x08, 0x00]);
    assert_eq!(second.read(0x1A, 1), vec![42]);

    assert_eq!(first.read(0, 255), second.read(0, 255));
}

#[test]
fn transaction_reports_the_distinct_unsupported_signal() {
    let mut mock = AS56Mock::new();
    let r = mock.transaction(0x36, &[]);
    assert_eq!(r, Err(MockError::Unsupported));
    assert_ne!(r, Err(MockError::I2cError));
    let via_bus = mock.bus_transaction(0x36, &[]);
    assert_eq!(via_bus, Err(MockError::Unsupported));
}
