//! Simulated register space: an in-memory emulation of the chip's 256-byte
//! register array behind the same bus contract as the real transport, plus a
//! control surface that injects sensor-side values for tests.

use vstd::prelude::*;

use crate::codec::encode_status;
use crate::codec::encode_u12;
use crate::codec::spec_decode_u12;
use crate::codec::spec_encode_status;
use crate::codec::spec_encode_u12_hi;
use crate::codec::spec_encode_u12_lo;
use crate::regs::AGC;
use crate::regs::CONF_HI;
use crate::regs::MAGNITUDE_HI;
use crate::regs::MAGNITUDE_LO;
use crate::regs::RAW_ANGLE_HI;
use crate::regs::RAW_ANGLE_LO;
use crate::regs::STATUS;
use crate::traits::spec_space_read;
use crate::traits::spec_space_write;
use crate::traits::BusOperation;
use crate::traits::RegisterBus;
use crate::types::MagnetStatus;

verus! {

/// Errors that the simulated device can report.
#[derive(Debug, Clone, Copy, PartialEq, Eq, Structural)]
pub enum MockError {
    /// Simulated bus communication error.
    I2cError,
    /// The invoked operation is deliberately not implemented by the
    /// simulation; reported distinctly from a communication failure.
    Unsupported,
}

/// The simulation's state as the mock starts: magnet detected, moderate
/// gain, watchdog enabled, every other register zero.
pub open spec fn spec_default_registers() -> Seq<u8> {
    Seq::new(
        256,
        |i: int|
            if i == STATUS as int {
                0x20u8
            } else if i == AGC as int {
                100u8
            } else if i == CONF_HI as int {
                0x20u8
            } else {
                0u8
            },
    )
}

/// The register space after the raw angle is control-set: the encoded byte
/// pair lands at the raw-angle register pair.
pub open spec fn spec_set_raw_angle(regs: Seq<u8>, angle: u16) -> Seq<u8> {
    regs.update(RAW_ANGLE_HI as int, spec_encode_u12_hi(angle)).update(
        RAW_ANGLE_LO as int,
        spec_encode_u12_lo(angle),
    )
}

/// The register space after the magnet status is control-set: the encoded
/// status byte lands at the status register.
pub open spec fn spec_set_status(regs: Seq<u8>, status: MagnetStatus) -> Seq<u8> {
    regs.update(STATUS as int, spec_encode_status(status))
}

/// The register space after the gain is control-set: the byte lands at the
/// AGC register.
pub open spec fn spec_set_agc(regs: Seq<u8>, agc: u8) -> Seq<u8> {
    regs.update(AGC as int, agc)
}

/// The register space after the magnitude is control-set: the encoded byte
/// pair lands at the magnitude register pair.
pub open spec fn spec_set_magnitude(regs: Seq<u8>, magnitude: u16) -> Seq<u8> {
    regs.update(MAGNITUDE_HI as int, spec_encode_u12_hi(magnitude)).update(
        MAGNITUDE_LO as int,
        spec_encode_u12_lo(magnitude),
    )
}

/// A simulated device that emulates AS5600 behavior without hardware.
///
/// It answers the [`RegisterBus`] contract exactly as the register space
/// semantics describe, and its `mock_set_*` control operations inject
/// sensor-side values directly into the backing bytes — the registers they
/// touch are read-only through the real chip's bus, so they are reachable in
/// no other way.
///
/// Every operation touches the backing array in a single exclusive borrow,
/// so a shared, lock-guarded handle (taken by whatever harness shares one
/// simulated chip among several observers) never exposes a half-updated
/// multi-byte quantity.
pub struct AS56Mock {
    registers: Vec<u8>,
}

impl View for AS56Mock {
    type V = Seq<u8>;

    /// The backing register bytes, one per 8-bit address.
    closed spec fn view(&self) -> Seq<u8> {
        self.registers@
    }
}

impl AS56Mock {
    /// Well-formedness: the backing array covers the full 8-bit address
    /// space.
    pub open spec fn wf(&self) -> bool {
        self@.len() == 256
    }

    /// Creates a new simulated device with a healthy default state:
    /// magnet detected, gain at 100, watchdog enabled.
    pub fn new() -> (r: Self)
        ensures
            r.wf(),
            r@ == spec_default_registers(),
    {
        let mut registers: Vec<u8> = Vec::new();
        while registers.len() < 256
            invariant
                registers@.len() <= 256,
                forall|i: int| 0 <= i < registers@.len() ==> registers@[i] == 0u8,
            decreases 256 - registers@.len(),
        {
            registers.push(0);
        }
        registers[STATUS as usize] = 0x20;
        registers[AGC as usize] = 100;
        registers[CONF_HI as usize] = 0x20;
        let r = AS56Mock { registers };
        proof {
            assert(r@ =~= spec_default_registers());
        }
        r
    }

    /// Returns `count` register bytes starting at `start`; addresses past
    /// the end of the register space read as zero rather than failing.
    pub fn read(&self, start: u8, count: usize) -> (r: Vec<u8>)
        requires
            self.wf(),
        ensures
            r@ == spec_space_read(self@, start, count as nat),
    {
        let mut out: Vec<u8> = Vec::new();
        while out.len() < count
            invariant
                self.wf(),
                out@.len() <= count,
                forall|j: int|
                    0 <= j < out@.len() ==> out@[j] == (if start as int + j < 256 {
                        self@[start as int + j]
                    } else {
                        0u8
                    }),
            decreases count - out@.len(),
        {
            let i = out.len();
            if i < 256 {
                let idx = (start as usize) + i;
                if idx < 256 {
                    out.push(self.registers[idx]);
                } else {
                    out.push(0);
                }
            } else {
                out.push(0);
            }
        }
        proof {
            assert(out@ =~= spec_space_read(self@, start, count as nat));
        }
        out
    }

    /// Stores `data` into the register space starting at `start`; any byte
    /// whose target address would pass the end of the space is dropped
    /// silently, leaving every address in a defined state.
    pub fn write(&mut self, start: u8, data: &[u8])
        requires
            old(self).wf(),
        ensures
            final(self).wf(),
            final(self)@ == spec_space_write(old(self)@, start, data@),
    {
        let len = data.len();
        let mut i: usize = 0;
        while i < len
            invariant
                self@.len() == 256,
                i <= len,
                len == data@.len(),
                forall|j: int|
                    0 <= j < 256 ==> self@[j] == (if start as int <= j && j < start as int
                        + i as int {
                        data@[j - start as int]
                    } else {
                        old(self)@[j]
                    }),
            decreases len - i,
        {
            if i < 256 {
                let idx = (start as usize) + i;
                if idx < 256 {
                    self.registers[idx] = data[i];
                }
            }
            i = i + 1;
        }
        proof {
            assert(self@ =~= spec_space_write(old(self)@, start, data@));
        }
    }

    /// Control-sets the raw angle the simulated sensor reports, as the
    /// encoded 12-bit register pair.
    pub fn mock_set_raw_angle(&mut self, angle: u16)
        requires
            old(self).wf(),
        ensures
            final(self).wf(),
            final(self)@ == spec_set_raw_angle(old(self)@, angle),
    {
        let bytes = encode_u12(angle);
        self.registers[RAW_ANGLE_HI as usize] = bytes[0];
        self.registers[RAW_ANGLE_LO as usize] = bytes[1];
    }

    /// Control-sets the magnet status the simulated sensor reports, as the
    /// encoded status byte.
    pub fn mock_set_status(&mut self, status: MagnetStatus)
        requires
            old(self).wf(),
        ensures
            final(self).wf(),
            final(self)@ == spec_set_status(old(self)@, status),
    {
        let value = encode_status(status);
        self.registers[STATUS as usize] = value;
    }

    /// Control-sets the Automatic Gain Control (AGC) value.
    pub fn mock_set_agc(&mut self, agc: u8)
        requires
            old(self).wf(),
        ensures
            final(self).wf(),
            final(self)@ == spec_set_agc(old(self)@, agc),
    {
        self.registers[AGC as usize] = agc;
    }

    /// Control-sets the internal magnitude value, as the encoded 12-bit
    /// register pair.
    pub fn mock_set_magnitude(&mut self, magnitude: u16)
        requires
            old(self).wf(),
        ensures
            final(self).wf(),
            final(self)@ == spec_set_magnitude(old(self)@, magnitude),
    {
        let bytes = encode_u12(magnitude);
        self.registers[MAGNITUDE_HI as usize] = bytes[0];
        self.registers[MAGNITUDE_LO as usize] = bytes[1];
    }

    /// The generic multi-operation transaction is a deliberate scope limit
    /// of the simulation: invoking it always reports the distinct
    /// unimplemented signal, never a communication failure.
    pub fn transaction(&mut self, address: u8, operations: &[BusOperation]) -> (r: Result<
        (),
        MockError,
    >)
        requires
            old(self).wf(),
        ensures
            final(self).wf(),
            final(self)@ == old(self)@,
            r == Err::<(), MockError>(MockError::Unsupported),
    {
        let _ = address;
        let _ = operations;
        Err(MockError::Unsupported)
    }
}

impl RegisterBus for AS56Mock {
    type BusError = MockError;

    /// The device's registers are exactly the backing bytes.
    open spec fn regs(&self) -> Seq<u8> {
        self@
    }

    fn bus_write(&mut self, address: u8, payload: &[u8]) -> (r: Result<(), MockError>)
        ensures
            r is Ok,
    {
        let _ = address;
        if payload.len() >= 2 {
            let start = payload[0];
            let mut data: Vec<u8> = Vec::new();
            let mut i: usize = 1;
            while i < payload.len()
                invariant
                    1 <= i <= payload@.len(),
                    data@ == payload@.subrange(1, i as int),
                decreases payload@.len() - i,
            {
                data.push(payload[i]);
                proof {
                    assert(data@ =~= payload@.subrange(1, i + 1 as int));
                }
                i = i + 1;
            }
            self.write(start, data.as_slice());
        }
        Ok(())
    }

    fn bus_write_read(&mut self, address: u8, wbytes: &[u8], read_len: usize) -> (r: Result<
        Vec<u8>,
        MockError,
    >)
        ensures
            r is Ok,
    {
        let _ = address;
        let start = wbytes[0];
        Ok(self.read(start, read_len))
    }

    fn bus_transaction(&mut self, address: u8, operations: &[BusOperation]) -> (r: Result<
        (),
        MockError,
    >)
        ensures
            r == Err::<(), MockError>(MockError::Unsupported),
    {
        self.transaction(address, operations)
    }
}

/// Independence law for concurrent control updates: updating the raw angle
/// and the gain touches disjoint registers, so the two updates commute, and
/// after both — in either order — the raw-angle pair decodes to the masked
/// written angle and the AGC register holds the written gain. A reader that
/// observes the space between or after the atomic updates therefore never
/// sees a byte that was not written.
pub proof fn lemma_control_updates_independent(regs: Seq<u8>, angle: u16, agc: u8)
    requires
        regs.len() == 256,
    ensures
        spec_set_agc(spec_set_raw_angle(regs, angle), agc) == spec_set_raw_angle(
            spec_set_agc(regs, agc),
            angle,
        ),
        spec_decode_u12(
            spec_set_agc(spec_set_raw_angle(regs, angle), agc)[RAW_ANGLE_HI as int],
            spec_set_agc(spec_set_raw_angle(regs, angle), agc)[RAW_ANGLE_LO as int],
        ) == angle & 0x0FFF,
        spec_set_agc(spec_set_raw_angle(regs, angle), agc)[AGC as int] == agc,
{
    assert(spec_set_agc(spec_set_raw_angle(regs, angle), agc) =~= spec_set_raw_angle(
        spec_set_agc(regs, agc),
        angle,
    ));
    crate::codec::lemma_u12_encode_decode_masks(angle);
}

} // verus!
