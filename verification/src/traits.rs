//! The bus transport capability and the sensor interface, with the register
//! space semantics their contracts are stated over.

use vstd::prelude::*;

use crate::codec::spec_decode_configuration;
use crate::codec::spec_decode_status;
use crate::codec::spec_decode_u12;
use crate::codec::spec_encode_configuration_hi;
use crate::codec::spec_encode_configuration_lo;
use crate::codec::spec_encode_u12_hi;
use crate::codec::spec_encode_u12_lo;
use crate::error::AS56Error;
use crate::regs::AGC;
use crate::regs::ANGLE_HI;
use crate::regs::ANGLE_LO;
use crate::regs::CONF_HI;
use crate::regs::CONF_LO;
use crate::regs::MAGNITUDE_HI;
use crate::regs::MAGNITUDE_LO;
use crate::regs::MANG_HI;
use crate::regs::MANG_LO;
use crate::regs::MPOS_HI;
use crate::regs::MPOS_LO;
use crate::regs::RAW_ANGLE_HI;
use crate::regs::RAW_ANGLE_LO;
use crate::regs::STATUS;
use crate::regs::ZMCO;
use crate::regs::ZPOS_HI;
use crate::regs::ZPOS_LO;
use crate::types::Configuration;
use crate::types::MagnetStatus;

verus! {

/// The register space after `data` is stored starting at address `start`:
/// every byte whose target address would pass the end of the space is
/// dropped, and all other addresses keep their bytes.
pub open spec fn spec_space_write(regs: Seq<u8>, start: u8, data: Seq<u8>) -> Seq<u8> {
    Seq::new(
        regs.len(),
        |i: int|
            if start as int <= i && i < start as int + data.len() as int {
                data[i - start as int]
            } else {
                regs[i]
            },
    )
}

/// The bytes a read of `count` registers starting at `start` returns:
/// an address within the space gives the stored byte, an address past the
/// end reads as zero.
pub open spec fn spec_space_read(regs: Seq<u8>, start: u8, count: nat) -> Seq<u8> {
    Seq::new(
        count,
        |i: int|
            if start as int + i < regs.len() {
                regs[start as int + i]
            } else {
                0u8
            },
    )
}

/// The register meaning of a raw bus write: the first payload byte names the
/// start register and the remaining bytes are the data; a payload without
/// data bytes changes nothing.
pub open spec fn spec_bus_write(regs: Seq<u8>, payload: Seq<u8>) -> Seq<u8> {
    if payload.len() >= 2 {
        spec_space_write(regs, payload[0], payload.subrange(1, payload.len() as int))
    } else {
        regs
    }
}

/// Writing one byte to an address within the space is a point update.
pub proof fn lemma_space_write_one(regs: Seq<u8>, start: u8, byte: u8)
    requires
        regs.len() == 256,
    ensures
        spec_space_write(regs, start, seq![byte]) == regs.update(start as int, byte),
{
    assert(spec_space_write(regs, start, seq![byte]) =~= regs.update(start as int, byte));
}

/// Writing two bytes wholly within the space updates the two consecutive
/// addresses.
pub proof fn lemma_space_write_two(regs: Seq<u8>, start: u8, byte0: u8, byte1: u8)
    requires
        regs.len() == 256,
        start as int + 1 < 256,
    ensures
        spec_space_write(regs, start, seq![byte0, byte1]) == regs.update(start as int, byte0).update(
            start as int + 1,
            byte1,
        ),
{
    assert(spec_space_write(regs, start, seq![byte0, byte1]) =~= regs.update(
        start as int,
        byte0,
    ).update(start as int + 1, byte1));
}

/// One element of a generic multi-operation bus transaction: either a read
/// of a number of bytes or a write of a byte sequence.
#[derive(Debug, Clone)]
pub enum BusOperation {
    /// Read the given number of bytes from the device.
    Read(usize),
    /// Write the given bytes to the device.
    Write(Vec<u8>),
}

/// The two-wire bus transport capability the driver consumes.
///
/// An implementation is either a hardware bus with the real chip behind it
/// or the simulated register space. `regs` is the model of the device's
/// register bytes that every contract is stated over; it always covers the
/// full 8-bit address space, which each method requires and preserves.
pub trait RegisterBus: Sized {
    /// Error surfaced when the transport fails.
    type BusError;

    /// Model of the device's register bytes, one per 8-bit address.
    spec fn regs(&self) -> Seq<u8>;

    /// Writes `payload` to the device: the first byte names the start
    /// register, the remaining bytes are stored at consecutive addresses,
    /// and any byte whose address would pass the end of the register space
    /// is dropped. A transport failure leaves the register contents
    /// unspecified.
    fn bus_write(&mut self, address: u8, payload: &[u8]) -> (r: Result<(), Self::BusError>)
        requires
            old(self).regs().len() == 256,
        ensures
            final(self).regs().len() == 256,
            r is Ok ==> final(self).regs() == spec_bus_write(old(self).regs(), payload@),
    ;

    /// Writes `wbytes` (whose first byte names the start register), then
    /// reads `read_len` bytes back from consecutive registers; addresses
    /// past the end of the register space read as zero. Register contents
    /// are never altered.
    fn bus_write_read(&mut self, address: u8, wbytes: &[u8], read_len: usize) -> (r: Result<
        Vec<u8>,
        Self::BusError,
    >)
        requires
            old(self).regs().len() == 256,
            wbytes@.len() >= 1,
        ensures
            final(self).regs() == old(self).regs(),
            r matches Ok(bytes) ==> bytes@ == spec_space_read(
                old(self).regs(),
                wbytes@[0],
                read_len as nat,
            ),
    ;

    /// Performs a generic multi-operation transaction. An implementation may
    /// not support it and report so through its error type instead.
    fn bus_transaction(&mut self, address: u8, operations: &[BusOperation]) -> (r: Result<
        (),
        Self::BusError,
    >)
        requires
            old(self).regs().len() == 256,
        ensures
            final(self).regs().len() == 256,
    ;
}

/// A common interface for any AS5600-compatible sensor, real or simulated.
///
/// The contracts are stated over `regs`, the model of the device's register
/// bytes: every reading is the codec's decoding of the named registers, and
/// every setting writes the codec's encoding into them. A transport failure
/// may surface from any operation as the `Err` case.
pub trait AS5600Interface: Sized {
    /// The transport error type wrapped by the sensor methods.
    type Error;

    /// Model of the device's register bytes, one per 8-bit address.
    spec fn regs(&self) -> Seq<u8>;

    /// Well-formedness: the model covers the full 8-bit address space.
    spec fn inv(&self) -> bool;

    /// Reads the raw 12-bit angle from the Hall sensors.
    fn read_raw_angle(&mut self) -> (r: Result<u16, AS56Error<Self::Error>>)
        requires
            old(self).inv(),
        ensures
            final(self).inv(),
            final(self).regs() == old(self).regs(),
            r matches Ok(v) ==> v == spec_decode_u12(
                final(self).regs()[RAW_ANGLE_HI as int],
                final(self).regs()[RAW_ANGLE_LO as int],
            ),
    ;

    /// Reads the 12-bit angle after the chip applied zero position, maximum
    /// position and filters.
    fn read_angle(&mut self) -> (r: Result<u16, AS56Error<Self::Error>>)
        requires
            old(self).inv(),
        ensures
            final(self).inv(),
            final(self).regs() == old(self).regs(),
            r matches Ok(v) ==> v == spec_decode_u12(
                final(self).regs()[ANGLE_HI as int],
                final(self).regs()[ANGLE_LO as int],
            ),
    ;

    /// Returns the current magnet status and field strength health.
    fn get_magnet_status(&mut self) -> (r: Result<MagnetStatus, AS56Error<Self::Error>>)
        requires
            old(self).inv(),
        ensures
            final(self).inv(),
            final(self).regs() == old(self).regs(),
            r matches Ok(status) ==> status == spec_decode_status(final(self).regs()[STATUS as int]),
    ;

    /// Returns the raw value of the status register.
    fn get_status_raw(&mut self) -> (r: Result<u8, AS56Error<Self::Error>>)
        requires
            old(self).inv(),
        ensures
            final(self).inv(),
            final(self).regs() == old(self).regs(),
            r matches Ok(v) ==> v == final(self).regs()[STATUS as int],
    ;

    /// Returns the magnitude value from the Hall sensors.
    fn get_magnitude(&mut self) -> (r: Result<u16, AS56Error<Self::Error>>)
        requires
            old(self).inv(),
        ensures
            final(self).inv(),
            final(self).regs() == old(self).regs(),
            r matches Ok(v) ==> v == spec_decode_u12(
                final(self).regs()[MAGNITUDE_HI as int],
                final(self).regs()[MAGNITUDE_LO as int],
            ),
    ;

    /// Returns the current Automatic Gain Control (AGC) value.
    fn get_agc(&mut self) -> (r: Result<u8, AS56Error<Self::Error>>)
        requires
            old(self).inv(),
        ensures
            final(self).inv(),
            final(self).regs() == old(self).regs(),
            r matches Ok(v) ==> v == final(self).regs()[AGC as int],
    ;

    /// Returns how many times settings have been permanently burned into the
    /// chip: the low two bits of the cycle counter register.
    fn get_burn_count(&mut self) -> (r: Result<u8, AS56Error<Self::Error>>)
        requires
            old(self).inv(),
        ensures
            final(self).inv(),
            final(self).regs() == old(self).regs(),
            r matches Ok(v) ==> v == final(self).regs()[ZMCO as int] & 0x03,
    ;

    /// Reads the current full configuration from the chip.
    fn get_config(&mut self) -> (r: Result<Configuration, AS56Error<Self::Error>>)
        requires
            old(self).inv(),
        ensures
            final(self).inv(),
            final(self).regs() == old(self).regs(),
            r matches Ok(config) ==> config == spec_decode_configuration(
                final(self).regs()[CONF_HI as int],
                final(self).regs()[CONF_LO as int],
            ),
    ;

    /// Writes a new configuration to the chip's volatile memory.
    fn set_config(&mut self, config: Configuration) -> (r: Result<(), AS56Error<Self::Error>>)
        requires
            old(self).inv(),
        ensures
            final(self).inv(),
            r is Ok ==> final(self).regs() == old(self).regs().update(
                CONF_HI as int,
                spec_encode_configuration_hi(config),
            ).update(CONF_LO as int, spec_encode_configuration_lo(config)),
    ;

    /// Gets the current zero position (ZPOS).
    fn get_zero_position(&mut self) -> (r: Result<u16, AS56Error<Self::Error>>)
        requires
            old(self).inv(),
        ensures
            final(self).inv(),
            final(self).regs() == old(self).regs(),
            r matches Ok(v) ==> v == spec_decode_u12(
                final(self).regs()[ZPOS_HI as int],
                final(self).regs()[ZPOS_LO as int],
            ),
    ;

    /// Sets the zero position (ZPOS) in volatile memory; the value is masked
    /// to 12 bits.
    fn set_zero_position(&mut self, angle: u16) -> (r: Result<(), AS56Error<Self::Error>>)
        requires
            old(self).inv(),
        ensures
            final(self).inv(),
            r is Ok ==> final(self).regs() == old(self).regs().update(
                ZPOS_HI as int,
                spec_encode_u12_hi(angle),
            ).update(ZPOS_LO as int, spec_encode_u12_lo(angle)),
    ;

    /// Gets the current maximum position (MPOS).
    fn get_max_position(&mut self) -> (r: Result<u16, AS56Error<Self::Error>>)
        requires
            old(self).inv(),
        ensures
            final(self).inv(),
            final(self).regs() == old(self).regs(),
            r matches Ok(v) ==> v == spec_decode_u12(
                final(self).regs()[MPOS_HI as int],
                final(self).regs()[MPOS_LO as int],
            ),
    ;

    /// Sets the maximum position (MPOS) in volatile memory; the value is
    /// masked to 12 bits.
    fn set_max_position(&mut self, angle: u16) -> (r: Result<(), AS56Error<Self::Error>>)
        requires
            old(self).inv(),
        ensures
            final(self).inv(),
            r is Ok ==> final(self).regs() == old(self).regs().update(
                MPOS_HI as int,
                spec_encode_u12_hi(angle),
            ).update(MPOS_LO as int, spec_encode_u12_lo(angle)),
    ;

    /// Gets the current maximum angle (MANG).
    fn get_max_angle(&mut self) -> (r: Result<u16, AS56Error<Self::Error>>)
        requires
            old(self).inv(),
        ensures
            final(self).inv(),
            final(self).regs() == old(self).regs(),
            r matches Ok(v) ==> v == spec_decode_u12(
                final(self).regs()[MANG_HI as int],
                final(self).regs()[MANG_LO as int],
            ),
    ;

    /// Sets the maximum angle (MANG) in volatile memory; the value is masked
    /// to 12 bits.
    fn set_max_angle(&mut self, angle: u16) -> (r: Result<(), AS56Error<Self::Error>>)
        requires
            old(self).inv(),
        ensures
            final(self).inv(),
            r is Ok ==> final(self).regs() == old(self).regs().update(
                MANG_HI as int,
                spec_encode_u12_hi(angle),
            ).update(MANG_LO as int, spec_encode_u12_lo(angle)),
    ;
}

} // verus!
