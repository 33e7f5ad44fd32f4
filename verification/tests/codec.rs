use as5600_driver::angle_bar_eighths;
use as5600_driver::angle_percent;
use as5600_driver::decode_configuration;
use as5600_driver::decode_status;
use as5600_driver::decode_u12;
use as5600_driver::encode_configuration;
use as5600_driver::encode_status;
use as5600_driver::encode_u12;
use as5600_driver::Configuration;
use as5600_driver::FastFilterThreshold;
use as5600_driver::Hysteresis;
use as5600_driver::MagnetStatus;
use as5600_driver::OutputStage;
use as5600_driver::PowerMode;
use as5600_driver::PwmFrequency;
use as5600_driver::SlowFilter;

#[test]
fn u12_round_trip_all_in_range_values() {
    for v in 0u16..=4095 {
        assert_eq!(decode_u12(encode_u12(v)), v);
    }
}

#[test]
fn u12_encode_masks_values_above_range() {
    assert_eq!(decode_u12(encode_u12(4096)), 0);
    assert_eq!(decode_u12(encode_u12(4097)), 1);
    assert_eq!(decode_u12(encode_u12(0x1FFF)), 0x0FFF);
    assert_eq!(decode_u12(encode_u12(u16::MAX)), 0x0FFF);
    for v in (4096u16..=u16::MAX).step_by(257) {
        assert_eq!(decode_u12(encode_u12(v)), v & 0x0FFF);
    }
}

#[test]
fn u12_encode_splits_big_endian() {
    assert_eq!(encode_u12(2048), [0x08, 0x00]);
    assert_eq!(encode_u12(0x0FFF), [0x0F, 0xFF]);
    assert_eq!(encode_u12(0x0123), [0x01, 0x23]);
    assert_eq!(encode_u12(0), [0x00, 0x00]);
}

#[test]
fn u12_decode_ignores_top_nibble_of_high_byte() {
    assert_eq!(decode_u12([0xFF, 0xFF]), 0x0FFF);
    assert_eq!(decode_u12([0xF0, 0x12]), 0x0012);
    assert_eq!(decode_u12([0x08, 0x00]), 2048);
}

#[test]
fn status_round_trip_all_eight_combinations() {
    for detected in [false, true] {
        for too_weak in [false, true] {
            for too_strong in [false, true] {
                let status = MagnetStatus { detected, too_weak, too_strong };
                assert_eq!(decode_status(encode_status(status)), status);
            }
        }
    }
}

#[test]
fn status_bits_land_at_documented_positions() {
    let detected_only = MagnetStatus { detected: true, too_weak: false, too_strong: false };
    assert_eq!(encode_status(detected_only), 0x20);
    let weak_only = MagnetStatus { detected: false, too_weak: true, too_strong: false };
    assert_eq!(encode_status(weak_only), 0x10);
    let strong_only = MagnetStatus { detected: false, too_weak: false, too_strong: true };
    assert_eq!(encode_status(strong_only), 0x08);
    assert_eq!(
        decode_status(0x30),
        MagnetStatus { detected: true, too_weak: true, too_strong: false }
    );
}

fn all_configurations() -> Vec<Configuration> {
    let power_modes = [PowerMode::Nominal, PowerMode::LPM1, PowerMode::LPM2, PowerMode::LPM3];
    let hystereses = [Hysteresis::Off, Hysteresis::Lsb1, Hysteresis::Lsb2, Hysteresis::Lsb3];
    let stages = [OutputStage::AnalogFull, OutputStage::AnalogReduced, OutputStage::PWM];
    let frequencies =
        [PwmFrequency::Hz115, PwmFrequency::Hz230, PwmFrequency::Hz460, PwmFrequency::Hz920];
    let slow_filters = [SlowFilter::X16, SlowFilter::X8, SlowFilter::X4, SlowFilter::X2];
    let thresholds = [
        FastFilterThreshold::SlowOnly,
        FastFilterThreshold::Lsb6,
        FastFilterThreshold::Lsb7,
        FastFilterThreshold::Lsb9,
        FastFilterThreshold::Lsb18,
        FastFilterThreshold::Lsb21,
        FastFilterThreshold::Lsb24,
        FastFilterThreshold::Lsb10,
    ];
    let mut out = Vec::new();
    for &power_mode in &power_modes {
        for &hysteresis in &hystereses {
            for &output_stage in &stages {
                for &pwm_frequency in &frequencies {
                    for &slow_filter in &slow_filters {
                        for &fast_filter_threshold in &thresholds {
                            for &watchdog in &[false, true] {
                                out.push(Configuration {
                                    power_mode,
                                    hysteresis,
                                    output_stage,
                                    pwm_frequency,
                                    slow_filter,
                                    fast_filter_threshold,
                                    watchdog,
                                });
                            }
                        }
                    }
                }
            }
        }
    }
    out
}

#[test]
fn configuration_round_trip_all_representable_values() {
    for config in all_configurations() {
        let (hi, lo) = encode_configuration(config);
        assert_eq!(decode_configuration(hi, lo), config);
    }
}

#[test]
fn configuration_encode_uses_documented_layout() {
    let config = Configuration {
        power_mode: PowerMode::LPM2,
        hysteresis: Hysteresis::Lsb3,
        output_stage: OutputStage::PWM,
        pwm_frequency: PwmFrequency::Hz460,
        slow_filter: SlowFilter::X4,
        fast_filter_threshold: FastFilterThreshold::Lsb18,
        watchdog: false,
    };
    let (hi, lo) = encode_configuration(config);
    // hi: watchdog(0) << 5 | fast(0b100) << 2 | slow(0b10)
    assert_eq!(hi, 0b0001_0010);
    // lo: pwm(0b10) << 6 | stage(0b10) << 4 | hysteresis(0b11) << 2 | power(0b10)
    assert_eq!(lo, 0b1010_1110);
}

#[test]
fn configuration_default_matches_power_up_state() {
    let config = Configuration::default();
    assert_eq!(config.power_mode, PowerMode::Nominal);
    assert_eq!(config.hysteresis, Hysteresis::Lsb1);
    assert_eq!(config.output_stage, OutputStage::AnalogFull);
    assert_eq!(config.pwm_frequency, PwmFrequency::Hz115);
    assert_eq!(config.slow_filter, SlowFilter::X16);
    assert_eq!(config.fast_filter_threshold, FastFilterThreshold::SlowOnly);
    assert!(config.watchdog);
}

#[test]
fn aliased_output_stage_code_decodes_to_analog_full() {
    // The two output-stage bits sit at positions 4..5 of the low byte; the
    // unused code 0b11 aliases the full-range analog output on decode.
    let aliased = decode_configuration(0x00, 0b0011_0000);
    assert_eq!(aliased.output_stage, OutputStage::AnalogFull);
    // Re-encoding normalizes the aliased code to the canonical 0b00.
    let (_, lo) = encode_configuration(aliased);
    assert_eq!((lo >> 4) & 0x03, 0b00);
}

#[test]
fn angle_percent_of_half_scale_is_fifty() {
    assert_eq!(angle_percent(2048), 50);
    assert_eq!(angle_percent(0), 0);
    assert_eq!(angle_percent(4095), 100);
    assert_eq!(angle_percent(1024), 25);
}

#[test]
fn angle_bar_eighths_matches_exact_integer_scaling() {
    // 2048 / 4095 of a 27-cell bar in eighths: 2048 * 27 * 8 / 4095 = 108.
    assert_eq!(angle_bar_eighths(2048, 27), 108);
    assert_eq!(angle_bar_eighths(0, 27), 0);
    assert_eq!(angle_bar_eighths(4095, 27), 216);
}

#[test]
fn configuration_bytes_round_trip_for_canonical_bytes() {
    // Every byte pair whose output-stage code is not the aliased one and
    // whose two unused high bits are clear survives decode then encode.
    for hi in 0u8..=0x3F {
        for lo in 0u8..=255 {
            if (lo >> 4) & 0x03 != 0x03 {
                let config = decode_configuration(hi, lo);
                assert_eq!(encode_configuration(config), (hi, lo));
            }
        }
    }
}
