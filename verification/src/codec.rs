//! Register bit-field codec: pure, total translations between raw register
//! bytes and typed values.
//!
//! All decoders accept every possible byte pattern (masking or aliasing
//! rather than rejecting), because the hardware register width makes any
//! byte readable; the encoders are exact inverses on the typed side.

use vstd::prelude::*;

use crate::types::Configuration;
use crate::types::FastFilterThreshold;
use crate::types::Hysteresis;
use crate::types::MagnetStatus;
use crate::types::OutputStage;
use crate::types::PowerMode;
use crate::types::PwmFrequency;
use crate::types::SlowFilter;

verus! {

/// High byte of a 12-bit quantity: bits 8..11 of the masked value.
pub open spec fn spec_encode_u12_hi(v: u16) -> u8 {
    ((v >> 8) & 0x0F) as u8
}

/// Low byte of a 12-bit quantity: bits 0..7 of the value.
pub open spec fn spec_encode_u12_lo(v: u16) -> u8 {
    (v & 0xFF) as u8
}

/// Big-endian combination of two register bytes, masked to 12 bits.
pub open spec fn spec_decode_u12(hi: u8, lo: u8) -> u16 {
    (((hi as u16) << 8) | (lo as u16)) & 0x0FFF
}

/// Splits a value into the two bytes of a big-endian 12-bit register pair.
///
/// Values above 4095 are silently masked to their low 12 bits, not rejected;
/// this mirrors the chip's own register width.
pub fn encode_u12(value: u16) -> (r: [u8; 2])
    ensures
        r@[0] == spec_encode_u12_hi(value),
        r@[1] == spec_encode_u12_lo(value),
{
    proof {
        assert((value >> 8) & 0x0F < 256 && value & 0xFF < 256) by (bit_vector);
    }
    let hi: u8 = ((value >> 8) & 0x0F) as u8;
    let lo: u8 = (value & 0xFF) as u8;
    [hi, lo]
}

/// Combines a big-endian register byte pair into a 12-bit value.
///
/// Any two-byte input is valid; the top four bits of the high byte are
/// masked off, so the result is always in `0..=4095`.
pub fn decode_u12(bytes: [u8; 2]) -> (r: u16)
    ensures
        r == spec_decode_u12(bytes@[0], bytes@[1]),
        r <= 4095,
{
    let hi = bytes[0];
    let lo = bytes[1];
    let r = (((hi as u16) << 8) | (lo as u16)) & 0x0FFF;
    proof {
        assert((((hi as u16) << 8) | (lo as u16)) & 0x0FFF <= 4095) by (bit_vector);
    }
    r
}

/// Masking law: encoding any 16-bit value and decoding the byte pair yields
/// the value's low 12 bits.
pub proof fn lemma_u12_encode_decode_masks(v: u16)
    ensures
        spec_decode_u12(spec_encode_u12_hi(v), spec_encode_u12_lo(v)) == v & 0x0FFF,
{
    assert(((((((v >> 8) & 0x0F) as u8) as u16) << 8) | (((v & 0xFF) as u8) as u16)) & 0x0FFF == v
        & 0x0FFF) by (bit_vector);
}

/// Round-trip law: encoding a 12-bit value and decoding the byte pair yields
/// the value itself.
pub proof fn lemma_u12_round_trip(v: u16)
    requires
        v <= 4095,
    ensures
        spec_decode_u12(spec_encode_u12_hi(v), spec_encode_u12_lo(v)) == v,
{
    lemma_u12_encode_decode_masks(v);
    assert(v <= 4095 ==> v & 0x0FFF == v) by (bit_vector);
}

/// Place-value reading of the 12-bit decoding: the low four bits of the
/// high byte weigh 256, the low byte weighs 1.
pub proof fn lemma_u12_decode_place_value(hi: u8, lo: u8)
    ensures
        spec_decode_u12(hi, lo) == (hi as int % 16) * 256 + lo as int,
{
    assert((((hi as u16) << 8) | (lo as u16)) & 0x0FFF == (hi as int % 16) * 256 + lo as int)
        by (bit_vector);
}

/// Place-value reading of the 12-bit encoding: the high byte carries the
/// masked value's multiples of 256, the low byte its remainder.
pub proof fn lemma_u12_encode_place_value(v: u16)
    ensures
        spec_encode_u12_hi(v) == (v as int % 4096) / 256,
        spec_encode_u12_lo(v) == v as int % 256,
{
    assert((v >> 8) & 0x0F == (v as int % 4096) / 256 && v & 0xFF == v as int % 256)
        by (bit_vector);
}

/// The status byte, assembled from the three magnet flags: detected at bit 5,
/// field-too-weak at bit 4, field-too-strong at bit 3.
pub open spec fn spec_encode_status(status: MagnetStatus) -> u8 {
    (if status.detected {
        0x20u8
    } else {
        0u8
    }) | (if status.too_weak {
        0x10u8
    } else {
        0u8
    }) | (if status.too_strong {
        0x08u8
    } else {
        0u8
    })
}

/// The three magnet flags read from bits 5, 4 and 3 of the status byte.
pub open spec fn spec_decode_status(value: u8) -> MagnetStatus {
    MagnetStatus {
        detected: value & 0x20 != 0,
        too_weak: value & 0x10 != 0,
        too_strong: value & 0x08 != 0,
    }
}

/// Reads the three magnet flags from a status register byte.
pub fn decode_status(value: u8) -> (r: MagnetStatus)
    ensures
        r == spec_decode_status(value),
{
    MagnetStatus {
        detected: (value & 0x20) != 0,
        too_weak: (value & 0x10) != 0,
        too_strong: (value & 0x08) != 0,
    }
}

/// Assembles a status register byte from the three magnet flags.
pub fn encode_status(status: MagnetStatus) -> (r: u8)
    ensures
        r == spec_encode_status(status),
{
    let detected: u8 = if status.detected {
        0x20
    } else {
        0
    };
    let weak: u8 = if status.too_weak {
        0x10
    } else {
        0
    };
    let strong: u8 = if status.too_strong {
        0x08
    } else {
        0
    };
    detected | weak | strong
}

/// Bit independence law: each of the eight flag combinations survives an
/// encode/decode round trip of the status byte unchanged.
pub proof fn lemma_status_round_trip(status: MagnetStatus)
    ensures
        spec_decode_status(spec_encode_status(status)) == status,
{
    let detected: u8 = if status.detected {
        0x20
    } else {
        0
    };
    let weak: u8 = if status.too_weak {
        0x10
    } else {
        0
    };
    let strong: u8 = if status.too_strong {
        0x08
    } else {
        0
    };
    assert((((detected | weak | strong) & 0x20 != 0) == (detected == 0x20)) && (((detected | weak
        | strong) & 0x10 != 0) == (weak == 0x10)) && (((detected | weak | strong) & 0x08 != 0) == (
    strong == 0x08))) by (bit_vector)
        requires
            (detected == 0x20 || detected == 0) && (weak == 0x10 || weak == 0) && (strong == 0x08
                || strong == 0),
    ;
}

/// Two-bit code of a power mode.
pub open spec fn spec_power_mode_bits(mode: PowerMode) -> u8 {
    match mode {
        PowerMode::Nominal => 0x00,
        PowerMode::LPM1 => 0x01,
        PowerMode::LPM2 => 0x02,
        PowerMode::LPM3 => 0x03,
    }
}

/// Power mode named by a two-bit code.
pub open spec fn spec_power_mode_from_bits(bits: u8) -> PowerMode {
    if bits == 0x01 {
        PowerMode::LPM1
    } else if bits == 0x02 {
        PowerMode::LPM2
    } else if bits == 0x03 {
        PowerMode::LPM3
    } else {
        PowerMode::Nominal
    }
}

/// Two-bit code of a hysteresis setting.
pub open spec fn spec_hysteresis_bits(hysteresis: Hysteresis) -> u8 {
    match hysteresis {
        Hysteresis::Off => 0x00,
        Hysteresis::Lsb1 => 0x01,
        Hysteresis::Lsb2 => 0x02,
        Hysteresis::Lsb3 => 0x03,
    }
}

/// Hysteresis setting named by a two-bit code.
pub open spec fn spec_hysteresis_from_bits(bits: u8) -> Hysteresis {
    if bits == 0x01 {
        Hysteresis::Lsb1
    } else if bits == 0x02 {
        Hysteresis::Lsb2
    } else if bits == 0x03 {
        Hysteresis::Lsb3
    } else {
        Hysteresis::Off
    }
}

/// Two-bit code of an output stage.
pub open spec fn spec_output_stage_bits(stage: OutputStage) -> u8 {
    match stage {
        OutputStage::AnalogFull => 0x00,
        OutputStage::AnalogReduced => 0x01,
        OutputStage::PWM => 0x02,
    }
}

/// Output stage named by a two-bit code.
///
/// The chip defines only three distinct stages; the unused code 0b11 aliases
/// the full-range analog output, so decoding is total but not injective.
pub open spec fn spec_output_stage_from_bits(bits: u8) -> OutputStage {
    if bits == 0x01 {
        OutputStage::AnalogReduced
    } else if bits == 0x02 {
        OutputStage::PWM
    } else {
        OutputStage::AnalogFull
    }
}

/// Two-bit code of a PWM frequency.
pub open spec fn spec_pwm_frequency_bits(frequency: PwmFrequency) -> u8 {
    match frequency {
        PwmFrequency::Hz115 => 0x00,
        PwmFrequency::Hz230 => 0x01,
        PwmFrequency::Hz460 => 0x02,
        PwmFrequency::Hz920 => 0x03,
    }
}

/// PWM frequency named by a two-bit code.
pub open spec fn spec_pwm_frequency_from_bits(bits: u8) -> PwmFrequency {
    if bits == 0x01 {
        PwmFrequency::Hz230
    } else if bits == 0x02 {
        PwmFrequency::Hz460
    } else if bits == 0x03 {
        PwmFrequency::Hz920
    } else {
        PwmFrequency::Hz115
    }
}

/// Two-bit code of a slow filter setting.
pub open spec fn spec_slow_filter_bits(filter: SlowFilter) -> u8 {
    match filter {
        SlowFilter::X16 => 0x00,
        SlowFilter::X8 => 0x01,
        SlowFilter::X4 => 0x02,
        SlowFilter::X2 => 0x03,
    }
}

/// Slow filter setting named by a two-bit code.
pub open spec fn spec_slow_filter_from_bits(bits: u8) -> SlowFilter {
    if bits == 0x01 {
        SlowFilter::X8
    } else if bits == 0x02 {
        SlowFilter::X4
    } else if bits == 0x03 {
        SlowFilter::X2
    } else {
        SlowFilter::X16
    }
}

/// Three-bit code of a fast filter threshold.
pub open spec fn spec_fast_filter_bits(threshold: FastFilterThreshold) -> u8 {
    match threshold {
        FastFilterThreshold::SlowOnly => 0x00,
        FastFilterThreshold::Lsb6 => 0x01,
        FastFilterThreshold::Lsb7 => 0x02,
        FastFilterThreshold::Lsb9 => 0x03,
        FastFilterThreshold::Lsb18 => 0x04,
        FastFilterThreshold::Lsb21 => 0x05,
        FastFilterThreshold::Lsb24 => 0x06,
        FastFilterThreshold::Lsb10 => 0x07,
    }
}

/// Fast filter threshold named by a three-bit code.
pub open spec fn spec_fast_filter_from_bits(bits: u8) -> FastFilterThreshold {
    if bits == 0x01 {
        FastFilterThreshold::Lsb6
    } else if bits == 0x02 {
        FastFilterThreshold::Lsb7
    } else if bits == 0x03 {
        FastFilterThreshold::Lsb9
    } else if bits == 0x04 {
        FastFilterThreshold::Lsb18
    } else if bits == 0x05 {
        FastFilterThreshold::Lsb21
    } else if bits == 0x06 {
        FastFilterThreshold::Lsb24
    } else if bits == 0x07 {
        FastFilterThreshold::Lsb10
    } else {
        FastFilterThreshold::SlowOnly
    }
}

/// High configuration byte: watchdog-enable at bit 5, fast-filter threshold
/// at bits 2..4, slow filter at bits 0..1.
pub open spec fn spec_encode_configuration_hi(config: Configuration) -> u8 {
    (if config.watchdog {
        0x20u8
    } else {
        0u8
    }) | (spec_fast_filter_bits(config.fast_filter_threshold) << 2) | spec_slow_filter_bits(
        config.slow_filter,
    )
}

/// Low configuration byte: PWM frequency at bits 6..7, output stage at bits
/// 4..5, hysteresis at bits 2..3, power mode at bits 0..1.
pub open spec fn spec_encode_configuration_lo(config: Configuration) -> u8 {
    (spec_pwm_frequency_bits(config.pwm_frequency) << 6) | (spec_output_stage_bits(
        config.output_stage,
    ) << 4) | (spec_hysteresis_bits(config.hysteresis) << 2) | spec_power_mode_bits(
        config.power_mode,
    )
}

/// Configuration read back from the two packed register bytes. Every byte
/// pair decodes to a defined value: each field maps all of its bit patterns
/// to a variant, and the two unused bits of the high byte are ignored.
pub open spec fn spec_decode_configuration(hi: u8, lo: u8) -> Configuration {
    Configuration {
        power_mode: spec_power_mode_from_bits(lo & 0x03),
        hysteresis: spec_hysteresis_from_bits((lo >> 2) & 0x03),
        output_stage: spec_output_stage_from_bits((lo >> 4) & 0x03),
        pwm_frequency: spec_pwm_frequency_from_bits((lo >> 6) & 0x03),
        slow_filter: spec_slow_filter_from_bits(hi & 0x03),
        fast_filter_threshold: spec_fast_filter_from_bits((hi >> 2) & 0x07),
        watchdog: hi & 0x20 != 0,
    }
}

/// Packs a configuration into the two register bytes, using the exact
/// bit layout of the configuration word.
pub fn encode_configuration(config: Configuration) -> (r: (u8, u8))
    ensures
        r.0 == spec_encode_configuration_hi(config),
        r.1 == spec_encode_configuration_lo(config),
{
    let watchdog: u8 = if config.watchdog {
        0x20
    } else {
        0
    };
    let fast: u8 = match config.fast_filter_threshold {
        FastFilterThreshold::SlowOnly => 0x00,
        FastFilterThreshold::Lsb6 => 0x01,
        FastFilterThreshold::Lsb7 => 0x02,
        FastFilterThreshold::Lsb9 => 0x03,
        FastFilterThreshold::Lsb18 => 0x04,
        FastFilterThreshold::Lsb21 => 0x05,
        FastFilterThreshold::Lsb24 => 0x06,
        FastFilterThreshold::Lsb10 => 0x07,
    };
    let slow: u8 = match config.slow_filter {
        SlowFilter::X16 => 0x00,
        SlowFilter::X8 => 0x01,
        SlowFilter::X4 => 0x02,
        SlowFilter::X2 => 0x03,
    };
    let pwm: u8 = match config.pwm_frequency {
        PwmFrequency::Hz115 => 0x00,
        PwmFrequency::Hz230 => 0x01,
        PwmFrequency::Hz460 => 0x02,
        PwmFrequency::Hz920 => 0x03,
    };
    let stage: u8 = match config.output_stage {
        OutputStage::AnalogFull => 0x00,
        OutputStage::AnalogReduced => 0x01,
        OutputStage::PWM => 0x02,
    };
    let hysteresis: u8 = match config.hysteresis {
        Hysteresis::Off => 0x00,
        Hysteresis::Lsb1 => 0x01,
        Hysteresis::Lsb2 => 0x02,
        Hysteresis::Lsb3 => 0x03,
    };
    let power: u8 = match config.power_mode {
        PowerMode::Nominal => 0x00,
        PowerMode::LPM1 => 0x01,
        PowerMode::LPM2 => 0x02,
        PowerMode::LPM3 => 0x03,
    };
    let hi = watchdog | (fast << 2) | slow;
    let lo = (pwm << 6) | (stage << 4) | (hysteresis << 2) | power;
    (hi, lo)
}

/// Unpacks the two configuration register bytes into a configuration value.
pub fn decode_configuration(hi: u8, lo: u8) -> (r: Configuration)
    ensures
        r == spec_decode_configuration(hi, lo),
{
    Configuration {
        power_mode: match lo & 0x03 {
            0x01 => PowerMode::LPM1,
            0x02 => PowerMode::LPM2,
            0x03 => PowerMode::LPM3,
            _ => PowerMode::Nominal,
        },
        hysteresis: match (lo >> 2) & 0x03 {
            0x01 => Hysteresis::Lsb1,
            0x02 => Hysteresis::Lsb2,
            0x03 => Hysteresis::Lsb3,
            _ => Hysteresis::Off,
        },
        output_stage: match (lo >> 4) & 0x03 {
            0x01 => OutputStage::AnalogReduced,
            0x02 => OutputStage::PWM,
            _ => OutputStage::AnalogFull,
        },
        pwm_frequency: match (lo >> 6) & 0x03 {
            0x01 => PwmFrequency::Hz230,
            0x02 => PwmFrequency::Hz460,
            0x03 => PwmFrequency::Hz920,
            _ => PwmFrequency::Hz115,
        },
        slow_filter: match hi & 0x03 {
            0x01 => SlowFilter::X8,
            0x02 => SlowFilter::X4,
            0x03 => SlowFilter::X2,
            _ => SlowFilter::X16,
        },
        fast_filter_threshold: match (hi >> 2) & 0x07 {
            0x01 => FastFilterThreshold::Lsb6,
            0x02 => FastFilterThreshold::Lsb7,
            0x03 => FastFilterThreshold::Lsb9,
            0x04 => FastFilterThreshold::Lsb18,
            0x05 => FastFilterThreshold::Lsb21,
            0x06 => FastFilterThreshold::Lsb24,
            0x07 => FastFilterThreshold::Lsb10,
            _ => FastFilterThreshold::SlowOnly,
        },
        watchdog: (hi & 0x20) != 0,
    }
}

/// Round-trip law: every representable configuration survives an
/// encode/decode round trip of the two register bytes unchanged.
///
/// The opposite direction (bytes to value to bytes) is not an identity:
/// the aliased output-stage code and the two unused bits of the high byte
/// are normalized on decode.
pub proof fn lemma_configuration_round_trip(config: Configuration)
    ensures
        spec_decode_configuration(
            spec_encode_configuration_hi(config),
            spec_encode_configuration_lo(config),
        ) == config,
{
    let watchdog: u8 = if config.watchdog {
        0x20
    } else {
        0
    };
    let fast = spec_fast_filter_bits(config.fast_filter_threshold);
    let slow = spec_slow_filter_bits(config.slow_filter);
    let pwm = spec_pwm_frequency_bits(config.pwm_frequency);
    let stage = spec_output_stage_bits(config.output_stage);
    let hysteresis = spec_hysteresis_bits(config.hysteresis);
    let power = spec_power_mode_bits(config.power_mode);
    let hi = watchdog | (fast << 2) | slow;
    let lo = (pwm << 6) | (stage << 4) | (hysteresis << 2) | power;
    assert((hi & 0x03 == slow) && ((hi >> 2) & 0x07 == fast) && ((hi & 0x20 != 0) == (watchdog
        == 0x20))) by (bit_vector)
        requires
            hi == watchdog | (fast << 2) | slow,
            watchdog == 0x20 || watchdog == 0,
            fast < 8,
            slow < 4,
    ;
    assert((lo & 0x03 == power) && ((lo >> 2) & 0x03 == hysteresis) && ((lo >> 4) & 0x03 == stage)
        && ((lo >> 6) & 0x03 == pwm)) by (bit_vector)
        requires
            lo == (pwm << 6) | (stage << 4) | (hysteresis << 2) | power,
            pwm < 4,
            stage < 4,
            hysteresis < 4,
            power < 4,
    ;
}

/// Byte-side round-trip law: decoding a configuration byte pair and
/// re-encoding it reproduces the bytes, for every pair that avoids the two
/// normalized corners — the aliased output-stage code, which re-encodes as
/// the canonical code, and the two unused top bits of the high byte, which
/// re-encode as zero.
pub proof fn lemma_configuration_bytes_round_trip(hi: u8, lo: u8)
    requires
        hi >> 6 == 0,
        (lo >> 4) & 0x03 != 0x03,
    ensures
        spec_encode_configuration_hi(spec_decode_configuration(hi, lo)) == hi,
        spec_encode_configuration_lo(spec_decode_configuration(hi, lo)) == lo,
{
    let config = spec_decode_configuration(hi, lo);
    assert(lo & 0x03 < 4 && (lo >> 2) & 0x03 < 4 && (lo >> 4) & 0x03 < 4 && (lo >> 6) & 0x03 < 4
        && hi & 0x03 < 4 && (hi >> 2) & 0x07 < 8) by (bit_vector);
    assert(spec_power_mode_bits(config.power_mode) == lo & 0x03);
    assert(spec_hysteresis_bits(config.hysteresis) == (lo >> 2) & 0x03);
    assert(spec_output_stage_bits(config.output_stage) == (lo >> 4) & 0x03);
    assert(spec_pwm_frequency_bits(config.pwm_frequency) == (lo >> 6) & 0x03);
    assert(spec_slow_filter_bits(config.slow_filter) == hi & 0x03);
    assert(spec_fast_filter_bits(config.fast_filter_threshold) == (hi >> 2) & 0x07);
    let watchdog: u8 = if config.watchdog {
        0x20
    } else {
        0
    };
    assert((watchdog | (((hi >> 2) & 0x07) << 2) | (hi & 0x03)) == hi) by (bit_vector)
        requires
            hi >> 6 == 0,
            watchdog == (if hi & 0x20 != 0 {
                0x20u8
            } else {
                0u8
            }),
    ;
    assert(((((lo >> 6) & 0x03) << 6) | (((lo >> 4) & 0x03) << 4) | (((lo >> 2) & 0x03) << 2) | (lo
        & 0x03)) == lo) by (bit_vector);
}

/// Position expressed as a whole-number percentage of the 12-bit full scale,
/// rounded down.
pub fn angle_percent(raw: u16) -> (r: u8)
    requires
        raw <= 4095,
    ensures
        r == raw as int * 100 / 4095,
        r <= 100,
{
    let scaled: u32 = (raw as u32) * 100;
    let percent: u32 = scaled / 4095;
    proof {
        assert(raw as int * 100 / 4095 <= 100) by (nonlinear_arith)
            requires
                raw <= 4095,
        ;
    }
    percent as u8
}

/// Fill level of a progress bar, in eighths of a character cell, for a
/// position within the 12-bit full scale: `raw / 4095` of `bar_size * 8`,
/// rounded down.
pub fn angle_bar_eighths(raw: u16, bar_size: usize) -> (r: usize)
    requires
        raw <= 4095,
        bar_size <= 1000,
    ensures
        r == raw as int * (bar_size as int) * 8 / 4095,
        r <= bar_size * 8,
{
    proof {
        assert(raw as int * (bar_size as int) * 8 <= 4095 * 1000 * 8) by (nonlinear_arith)
            requires
                raw <= 4095,
                bar_size <= 1000,
        ;
        assert(raw as int * (bar_size as int) * 8 / 4095 <= bar_size * 8) by (nonlinear_arith)
            requires
                raw <= 4095,
                bar_size <= 1000,
        ;
    }
    let scaled: u64 = (raw as u64) * (bar_size as u64) * 8;
    let eighths: u64 = scaled / 4095;
    eighths as usize
}

} // verus!
