//! Typed domain values decoded from, and encoded into, the chip's registers.

use vstd::prelude::*;

verus! {

/// Power consumption modes of the AS5600.
///
/// Lower power modes reduce current consumption by increasing the sampling interval.
#[derive(Debug, Clone, Copy, PartialEq, Eq, Structural)]
pub enum PowerMode {
    /// No power saving, continuous sampling.
    Nominal,
    /// Low Power Mode 1 (sampling every 1 ms).
    LPM1,
    /// Low Power Mode 2 (sampling every 10 ms).
    LPM2,
    /// Low Power Mode 3 (sampling every 100 ms).
    LPM3,
}

/// Hysteresis settings to suppress noise in the output.
///
/// Defines the number of LSBs the position must change before the output is updated.
#[derive(Debug, Clone, Copy, PartialEq, Eq, Structural)]
pub enum Hysteresis {
    /// No hysteresis.
    Off,
    /// 1 LSB hysteresis.
    Lsb1,
    /// 2 LSBs hysteresis.
    Lsb2,
    /// 3 LSBs hysteresis.
    Lsb3,
}

/// Output stage configuration for the OUT pin.
///
/// Only three of the four two-bit codes are distinct: the chip documents the
/// unused code as an alias of the full-range analog output, and the codec
/// decodes it accordingly.
#[derive(Debug, Clone, Copy, PartialEq, Eq, Structural)]
pub enum OutputStage {
    /// Ratiometric analog output (0% to 100% of VDD).
    AnalogFull,
    /// Ratiometric analog output (10% to 90% of VDD).
    AnalogReduced,
    /// Pulse Width Modulation (PWM) output.
    PWM,
}

/// PWM signal frequency when using the PWM output stage.
#[derive(Debug, Clone, Copy, PartialEq, Eq, Structural)]
pub enum PwmFrequency {
    /// 115 Hz PWM frequency.
    Hz115,
    /// 230 Hz PWM frequency.
    Hz230,
    /// 460 Hz PWM frequency.
    Hz460,
    /// 920 Hz PWM frequency.
    Hz920,
}

/// Slow filter settings for noise reduction.
///
/// Higher averaging means less noise but a slower step response.
#[derive(Debug, Clone, Copy, PartialEq, Eq, Structural)]
pub enum SlowFilter {
    /// 16x averaging.
    X16,
    /// 8x averaging.
    X8,
    /// 4x averaging.
    X4,
    /// 2x averaging.
    X2,
}

/// Fast filter threshold for adaptive filtering.
///
/// If the position change exceeds this threshold, the slow filter is bypassed
/// to provide a fast response.
#[derive(Debug, Clone, Copy, PartialEq, Eq, Structural)]
pub enum FastFilterThreshold {
    /// Fast filter disabled, only the slow filter is used.
    SlowOnly,
    /// 6 LSB threshold.
    Lsb6,
    /// 7 LSB threshold.
    Lsb7,
    /// 9 LSB threshold.
    Lsb9,
    /// 18 LSB threshold.
    Lsb18,
    /// 21 LSB threshold.
    Lsb21,
    /// 24 LSB threshold.
    Lsb24,
    /// 10 LSB threshold.
    Lsb10,
}

/// Status of the magnetic system.
///
/// Three independent flags derived from the status register; every one of the
/// eight combinations is representable, and the codec passes all of them
/// through without judging their consistency.
#[derive(Debug, Clone, Copy, PartialEq, Eq, Structural)]
pub struct MagnetStatus {
    /// True if a magnet is detected by the Hall sensors.
    pub detected: bool,
    /// True if the magnetic field is too weak (magnet too far).
    pub too_weak: bool,
    /// True if the magnetic field is too strong (magnet too close).
    pub too_strong: bool,
}

/// Full configuration of the AS5600 chip.
///
/// Seven fields packed into the two configuration register bytes.
#[derive(Debug, Clone, Copy, PartialEq, Eq, Structural)]
pub struct Configuration {
    /// Current power mode.
    pub power_mode: PowerMode,
    /// Hysteresis setting.
    pub hysteresis: Hysteresis,
    /// Output pin functionality.
    pub output_stage: OutputStage,
    /// Frequency for PWM output.
    pub pwm_frequency: PwmFrequency,
    /// Slow filter averaging factor.
    pub slow_filter: SlowFilter,
    /// Threshold for fast filter bypass.
    pub fast_filter_threshold: FastFilterThreshold,
    /// Enable/disable the watchdog timer (auto-low-power after inactivity).
    pub watchdog: bool,
}

/// The configuration the chip powers up with: watchdog enabled, one LSB of
/// hysteresis, all other fields at their first (all-bits-zero) variant.
pub open spec fn spec_default_configuration() -> Configuration {
    Configuration {
        power_mode: PowerMode::Nominal,
        hysteresis: Hysteresis::Lsb1,
        output_stage: OutputStage::AnalogFull,
        pwm_frequency: PwmFrequency::Hz115,
        slow_filter: SlowFilter::X16,
        fast_filter_threshold: FastFilterThreshold::SlowOnly,
        watchdog: true,
    }
}

impl Default for Configuration {
    /// Returns the chip's power-up configuration.
    fn default() -> (r: Self)
        ensures
            r == spec_default_configuration(),
    {
        Configuration {
            power_mode: PowerMode::Nominal,
            hysteresis: Hysteresis::Lsb1,
            output_stage: OutputStage::AnalogFull,
            pwm_frequency: PwmFrequency::Hz115,
            slow_filter: SlowFilter::X16,
            fast_filter_threshold: FastFilterThreshold::SlowOnly,
            watchdog: true,
        }
    }
}

} // verus!
