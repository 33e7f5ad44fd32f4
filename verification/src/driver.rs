//! The driver: typed operations over any register bus, each contracted to
//! the codec's view of the registers it touches.

use vstd::prelude::*;

use crate::codec::decode_configuration;
use crate::codec::decode_status;
use crate::codec::decode_u12;
use crate::codec::encode_configuration;
use crate::codec::encode_u12;
use crate::codec::spec_encode_u12_hi;
use crate::codec::spec_encode_u12_lo;
use crate::error::AS56Error;
use crate::regs::AGC;
use crate::regs::ANGLE_HI;
use crate::regs::BURN;
use crate::regs::CONF_HI;
use crate::regs::CONF_LO;
use crate::regs::DEFAULT_ADDR;
use crate::regs::MAGNITUDE_HI;
use crate::regs::MANG_HI;
use crate::regs::MPOS_HI;
use crate::regs::RAW_ANGLE_HI;
use crate::regs::STATUS;
use crate::regs::ZMCO;
use crate::regs::ZPOS_HI;
use crate::traits::lemma_space_write_one;
use crate::traits::lemma_space_write_two;
use crate::traits::AS5600Interface;
use crate::traits::RegisterBus;
use crate::types::Configuration;
use crate::types::MagnetStatus;

verus! {

/// Driver for the AS5600 sensor over any [`RegisterBus`] transport.
pub struct AS5600Driver<B> {
    bus: B,
    address: u8,
}

impl<B: RegisterBus> AS5600Driver<B> {
    /// The bus address the driver talks to.
    pub closed spec fn spec_address(&self) -> u8 {
        self.address
    }

    /// Creates a new driver instance with the default bus address (0x36).
    pub fn new(bus: B) -> (r: Self)
        requires
            bus.regs().len() == 256,
        ensures
            r.inv(),
            r.regs() == bus.regs(),
            r.spec_address() == DEFAULT_ADDR,
    {
        AS5600Driver { bus, address: DEFAULT_ADDR }
    }

    /// Creates a new driver instance with a custom bus address.
    pub fn with_address(bus: B, address: u8) -> (r: Self)
        requires
            bus.regs().len() == 256,
        ensures
            r.inv(),
            r.regs() == bus.regs(),
            r.spec_address() == address,
    {
        AS5600Driver { bus, address }
    }

    /// Consumes the driver and gives the bus back, with the device's
    /// registers exactly as the driver last observed them.
    pub fn release(self) -> (r: B)
        ensures
            r.regs() == self.regs(),
    {
        self.bus
    }

    /// Reads a single byte from the named register.
    fn read_u8(&mut self, reg: u8) -> (r: Result<u8, AS56Error<B::BusError>>)
        requires
            old(self).inv(),
        ensures
            final(self).inv(),
            final(self).regs() == old(self).regs(),
            final(self).spec_address() == old(self).spec_address(),
            r matches Ok(v) ==> v == old(self).regs()[reg as int],
    {
        let mut pointer: Vec<u8> = Vec::new();
        pointer.push(reg);
        match self.bus.bus_write_read(self.address, pointer.as_slice(), 1) {
            Ok(buf) => Ok(buf[0]),
            Err(e) => Err(AS56Error::I2c(e)),
        }
    }

    /// Writes a single byte to the named register.
    fn write_u8(&mut self, reg: u8, value: u8) -> (r: Result<(), AS56Error<B::BusError>>)
        requires
            old(self).inv(),
        ensures
            final(self).inv(),
            final(self).spec_address() == old(self).spec_address(),
            r is Ok ==> final(self).regs() == old(self).regs().update(reg as int, value),
    {
        let mut payload: Vec<u8> = Vec::new();
        payload.push(reg);
        payload.push(value);
        match self.bus.bus_write(self.address, payload.as_slice()) {
            Ok(_) => {
                proof {
                    assert(payload@.subrange(1, 2) =~= seq![value]);
                    lemma_space_write_one(old(self).regs(), reg, value);
                }
                Ok(())
            },
            Err(e) => Err(AS56Error::I2c(e)),
        }
    }

    /// Reads a 12-bit value from two consecutive registers, high byte first.
    fn read_u16(&mut self, reg_hi: u8) -> (r: Result<u16, AS56Error<B::BusError>>)
        requires
            old(self).inv(),
            reg_hi as int + 1 < 256,
        ensures
            final(self).inv(),
            final(self).regs() == old(self).regs(),
            final(self).spec_address() == old(self).spec_address(),
            r matches Ok(v) ==> v == crate::codec::spec_decode_u12(
                old(self).regs()[reg_hi as int],
                old(self).regs()[reg_hi as int + 1],
            ),
    {
        let mut pointer: Vec<u8> = Vec::new();
        pointer.push(reg_hi);
        match self.bus.bus_write_read(self.address, pointer.as_slice(), 2) {
            Ok(buf) => Ok(decode_u12([buf[0], buf[1]])),
            Err(e) => Err(AS56Error::I2c(e)),
        }
    }

    /// Writes a 12-bit value to two consecutive registers, high byte first;
    /// the value is masked to 12 bits.
    fn write_u16(&mut self, reg_hi: u8, value: u16) -> (r: Result<(), AS56Error<B::BusError>>)
        requires
            old(self).inv(),
            reg_hi as int + 1 < 256,
        ensures
            final(self).inv(),
            final(self).spec_address() == old(self).spec_address(),
            r is Ok ==> final(self).regs() == old(self).regs().update(
                reg_hi as int,
                spec_encode_u12_hi(value),
            ).update(reg_hi as int + 1, spec_encode_u12_lo(value)),
    {
        let bytes = encode_u12(value);
        let mut payload: Vec<u8> = Vec::new();
        payload.push(reg_hi);
        payload.push(bytes[0]);
        payload.push(bytes[1]);
        match self.bus.bus_write(self.address, payload.as_slice()) {
            Ok(_) => {
                proof {
                    assert(payload@.subrange(1, 3) =~= seq![
                        spec_encode_u12_hi(value),
                        spec_encode_u12_lo(value),
                    ]);
                    lemma_space_write_two(
                        old(self).regs(),
                        reg_hi,
                        spec_encode_u12_hi(value),
                        spec_encode_u12_lo(value),
                    );
                }
                Ok(())
            },
            Err(e) => Err(AS56Error::I2c(e)),
        }
    }

    /// Permanently burns the zero and maximum position settings into the
    /// chip's non-volatile memory, by writing the burn-settings code to the
    /// programming register. On real hardware this is irreversible and
    /// limited to a small number of uses; it is deliberately reachable only
    /// through this distinctly named operation, never through the typed
    /// setters.
    pub fn danger_permanent_burn_settings(&mut self) -> (r: Result<(), AS56Error<B::BusError>>)
        requires
            old(self).inv(),
        ensures
            final(self).inv(),
            r is Ok ==> final(self).regs() == old(self).regs().update(BURN as int, 0x80u8),
    {
        self.write_u8(BURN, 0x80)
    }

    /// Permanently burns the configuration settings into the chip's
    /// non-volatile memory, by writing the burn-angle code to the
    /// programming register. On real hardware this is irreversible; it is
    /// deliberately reachable only through this distinctly named operation,
    /// never through the typed setters.
    pub fn danger_permanent_burn_config(&mut self) -> (r: Result<(), AS56Error<B::BusError>>)
        requires
            old(self).inv(),
        ensures
            final(self).inv(),
            r is Ok ==> final(self).regs() == old(self).regs().update(BURN as int, 0x40u8),
    {
        self.write_u8(BURN, 0x40)
    }
}

impl<B: RegisterBus> AS5600Interface for AS5600Driver<B> {
    type Error = B::BusError;

    /// The driver observes exactly the bus device's registers.
    closed spec fn regs(&self) -> Seq<u8> {
        self.bus.regs()
    }

    closed spec fn inv(&self) -> bool {
        self.bus.regs().len() == 256
    }

    fn read_raw_angle(&mut self) -> Result<u16, AS56Error<B::BusError>> {
        self.read_u16(RAW_ANGLE_HI)
    }

    fn read_angle(&mut self) -> Result<u16, AS56Error<B::BusError>> {
        self.read_u16(ANGLE_HI)
    }

    fn get_magnet_status(&mut self) -> Result<MagnetStatus, AS56Error<B::BusError>> {
        match self.read_u8(STATUS) {
            Ok(value) => Ok(decode_status(value)),
            Err(e) => Err(e),
        }
    }

    fn get_status_raw(&mut self) -> Result<u8, AS56Error<B::BusError>> {
        self.read_u8(STATUS)
    }

    fn get_magnitude(&mut self) -> Result<u16, AS56Error<B::BusError>> {
        self.read_u16(MAGNITUDE_HI)
    }

    fn get_agc(&mut self) -> Result<u8, AS56Error<B::BusError>> {
        self.read_u8(AGC)
    }

    fn get_burn_count(&mut self) -> Result<u8, AS56Error<B::BusError>> {
        match self.read_u8(ZMCO) {
            Ok(value) => Ok(value & 0x03),
            Err(e) => Err(e),
        }
    }

    fn get_config(&mut self) -> Result<Configuration, AS56Error<B::BusError>> {
        let hi = match self.read_u8(CONF_HI) {
            Ok(value) => value,
            Err(e) => return Err(e),
        };
        let lo = match self.read_u8(CONF_LO) {
            Ok(value) => value,
            Err(e) => return Err(e),
        };
        Ok(decode_configuration(hi, lo))
    }

    fn set_config(&mut self, config: Configuration) -> Result<(), AS56Error<B::BusError>> {
        let (hi, lo) = encode_configuration(config);
        match self.write_u8(CONF_HI, hi) {
            Ok(_) => {},
            Err(e) => return Err(e),
        }
        self.write_u8(CONF_LO, lo)
    }

    fn get_zero_position(&mut self) -> Result<u16, AS56Error<B::BusError>> {
        self.read_u16(ZPOS_HI)
    }

    fn set_zero_position(&mut self, angle: u16) -> Result<(), AS56Error<B::BusError>> {
        self.write_u16(ZPOS_HI, angle)
    }

    fn get_max_position(&mut self) -> Result<u16, AS56Error<B::BusError>> {
        self.read_u16(MPOS_HI)
    }

    fn set_max_position(&mut self, angle: u16) -> Result<(), AS56Error<B::BusError>> {
        self.write_u16(MPOS_HI, angle)
    }

    fn get_max_angle(&mut self) -> Result<u16, AS56Error<B::BusError>> {
        self.read_u16(MANG_HI)
    }

    fn set_max_angle(&mut self, angle: u16) -> Result<(), AS56Error<B::BusError>> {
        self.write_u16(MANG_HI, angle)
    }
}

} // verus!
