//! Driver library for the AS5600 contactless magnetic rotary encoder.
//!
//! The AS5600 exposes a flat 8-bit register space over a two-wire bus.
//! This crate provides:
//! - a register bit-field codec: total, verified conversions between raw
//!   register bytes and typed values (12-bit angles, magnet status, the
//!   packed two-byte configuration word);
//! - a simulated register space ([`AS56Mock`]) that emulates the chip's
//!   256-byte register array behind the same bus contract, for testing
//!   without hardware;
//! - a generic driver ([`AS5600Driver`]) over any [`RegisterBus`], with
//!   contracts that pin each reading to the codec's decoding of the
//!   underlying register bytes.

mod codec;
mod driver;
mod error;
mod mock;
mod regs;
mod traits;
mod types;

pub use codec::angle_bar_eighths;
pub use codec::angle_percent;
pub use codec::decode_configuration;
pub use codec::decode_status;
pub use codec::decode_u12;
pub use codec::encode_configuration;
pub use codec::encode_status;
pub use codec::encode_u12;
pub use driver::AS5600Driver;
pub use error::AS56Error;
pub use mock::spec_default_registers;
pub use mock::AS56Mock;
pub use mock::MockError;
pub use regs::AGC;
pub use regs::ANGLE_HI;
pub use regs::ANGLE_LO;
pub use regs::BURN;
pub use regs::CONF_HI;
pub use regs::CONF_LO;
pub use regs::DEFAULT_ADDR;
pub use regs::MAGNITUDE_HI;
pub use regs::MAGNITUDE_LO;
pub use regs::MANG_HI;
pub use regs::MANG_LO;
pub use regs::MPOS_HI;
pub use regs::MPOS_LO;
pub use regs::RAW_ANGLE_HI;
pub use regs::RAW_ANGLE_LO;
pub use regs::STATUS;
pub use regs::ZMCO;
pub use regs::ZPOS_HI;
pub use regs::ZPOS_LO;
pub use traits::AS5600Interface;
pub use traits::BusOperation;
pub use traits::RegisterBus;
pub use types::Configuration;
pub use types::FastFilterThreshold;
pub use types::Hysteresis;
pub use types::MagnetStatus;
pub use types::OutputStage;
pub use types::PowerMode;
pub use types::PwmFrequency;
pub use types::SlowFilter;
