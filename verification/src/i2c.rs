//! The first I2C port as bus master: which pins may carry it, how it is
//! set up, what its status word means, and the steps of each transfer.

use crate::gpio::gpiob::{PB6, PB7};
use crate::gpio::{AltOutput, OpenDrain};
use crate::rcc::Clocks;
use crate::regs::{clear_bits, field_update, set_bits, Reg, RegOp};
use ch32v1::ch32v103::I2C1;
use vstd::prelude::*;

verus! {

/// Control 1: port enabled.
pub const CTLR1_PE: u32 = 0x0000_0001;

/// Control 1: generate a start condition.
pub const CTLR1_START: u32 = 0x0000_0100;

/// Control 1: generate a stop condition.
pub const CTLR1_STOP: u32 = 0x0000_0200;

/// Control 1: acknowledge received bytes.
pub const CTLR1_ACK: u32 = 0x0000_0400;

/// Status 1: start condition sent.
pub const STAR1_SB: u32 = 0x0000_0001;

/// Status 1: address sent and acknowledged.
pub const STAR1_ADDR: u32 = 0x0000_0002;

/// Status 1: byte transfer finished.
pub const STAR1_BTF: u32 = 0x0000_0004;

/// Status 1: a received byte waits in the data register.
pub const STAR1_RXNE: u32 = 0x0000_0040;

/// Status 1: the data register takes another byte.
pub const STAR1_TXE: u32 = 0x0000_0080;

/// Status 1: bus error.
pub const STAR1_BERR: u32 = 0x0000_0100;

/// Status 1: arbitration lost.
pub const STAR1_ARLO: u32 = 0x0000_0200;

/// Status 1: acknowledge failure.
pub const STAR1_AF: u32 = 0x0000_0400;

/// Status 1: overrun or underrun.
pub const STAR1_OVR: u32 = 0x0000_0800;

/// Status 1: packet error check failed.
pub const STAR1_PECERR: u32 = 0x0000_1000;

/// Status 1: the five fault flags together.
pub const STAR1_FAULTS: u32 = 0x0000_1f00;

/// Clock configuration: the twelve bits of the clock divider.
pub const CKCFGR_CCR: u32 = 0x0000_0fff;

/// Clock configuration: fast-mode duty cycle of 16 to 9.
pub const CKCFGR_DUTY: u32 = 0x0000_4000;

/// Clock configuration: fast mode.
pub const CKCFGR_FS: u32 = 0x0000_8000;

/// First peripheral bus: first I2C port clocked.
pub const APB1_I2C1EN: u32 = 0x0020_0000;

/// A fault on the bus.
#[derive(Clone, Copy, PartialEq, Eq, Debug, Structural)]
pub enum I2cError {
    BusError,
    Nak,
    ArbitrationError,
    OverrunError,
    CrcError,
    UnknownError,
}

/// The speed class of the bus.
#[derive(Clone, Copy, PartialEq, Eq, Debug, Structural)]
pub enum I2cMode {
    /// 100 kHz.
    Standard,
    /// 400 kHz.
    Fast,
}

/// What the status word says to a transfer that waits for a flag.
#[derive(Clone, Copy, PartialEq, Eq, Debug, Structural)]
pub enum BusStatus {
    /// The flag is set: go on.
    Ready,
    /// Neither the flag nor a fault: keep waiting.
    Pending,
    /// A fault is flagged: send a stop condition and give up.
    Fault(I2cError),
}

/// One step of a transfer.
#[derive(Clone, Copy, PartialEq, Eq, Debug, Structural)]
pub enum I2cStep {
    /// Carry out a register operation.
    Op(RegOp),
    /// Poll the first status register until `flag` is set; on a fault, set
    /// the stop bit and fail with the fault.
    Await { flag: u32 },
    /// Read the second status register, which clears the address flag.
    ReadStar2,
    /// Read the data register into the buffer at `index`.
    Receive { index: usize },
}

/// A pin in a mode in which it may carry the clock line of `I2C`.
pub trait SclPin<I2C> {
    /// True if the pin belongs to the port's alternate pin set.
    spec fn needs_remap(&self) -> bool;

    /// True if the pin belongs to the port's alternate pin set.
    fn remap(&self) -> (r: bool)
        ensures
            r == self.needs_remap(),
    ;
}

/// A pin in a mode in which it may carry the data line of `I2C`.
pub trait SdaPin<I2C> {
    /// True if the pin belongs to the port's alternate pin set.
    spec fn needs_remap(&self) -> bool;

    /// True if the pin belongs to the port's alternate pin set.
    fn remap(&self) -> (r: bool)
        ensures
            r == self.needs_remap(),
    ;
}

impl SclPin<I2C1> for PB6<AltOutput<OpenDrain>> {
    open spec fn needs_remap(&self) -> bool {
        false
    }

    fn remap(&self) -> (r: bool) {
        false
    }
}

impl SdaPin<I2C1> for PB7<AltOutput<OpenDrain>> {
    open spec fn needs_remap(&self) -> bool {
        false
    }

    fn remap(&self) -> (r: bool) {
        false
    }
}

/// An I2C port bound to its pins.
pub struct I2c<I2C, PINS> {
    i2c: I2C,
    pins: PINS,
}

/// The clock divider for a bus clock of `mhz` megahertz: in standard mode
/// five ticks per half period; in fast mode a third of the period below
/// 10 MHz, and a twenty-fifth of it with the 16 to 9 duty cycle from there.
pub open spec fn clock_divider(mode: I2cMode, mhz: int) -> int {
    match mode {
        I2cMode::Standard => 5 * mhz,
        I2cMode::Fast => if mhz < 10 {
            (mhz * 10) / 12
        } else {
            mhz / 10
        },
    }
}

/// The operations that program the bus timing.
pub open spec fn timing_ops(mode: I2cMode, mhz: int) -> Seq<RegOp> {
    match mode {
        I2cMode::Standard => seq![
            RegOp::Modify {
                reg: Reg::I2c1Ckcfgr,
                clear: CKCFGR_FS | CKCFGR_CCR,
                set: clock_divider(mode, mhz) as u32,
            },
        ],
        I2cMode::Fast => seq![
            if mhz < 10 {
                clear_bits(Reg::I2c1Ckcfgr, CKCFGR_DUTY)
            } else {
                set_bits(Reg::I2c1Ckcfgr, CKCFGR_DUTY)
            },
            RegOp::Modify {
                reg: Reg::I2c1Ckcfgr,
                clear: CKCFGR_CCR,
                set: CKCFGR_FS | (clock_divider(mode, mhz) as u32),
            },
        ],
    }
}

/// The operations that set the first I2C port up: its clock, the bus
/// frequency in megahertz, the timing, and the port on.
pub open spec fn i2c1_program(mode: I2cMode, mhz: int) -> Seq<RegOp> {
    seq![
        set_bits(Reg::RccApb1Pcenr, APB1_I2C1EN),
        field_update(Reg::I2c1Ctlr2, 0, 6, mhz as u32),
    ] + timing_ops(mode, mhz) + seq![set_bits(Reg::I2c1Ctlr1, CTLR1_PE)]
}

/// The fault that a status word flags, by rank: packet error check,
/// overrun, acknowledge failure, arbitration, bus error.
pub open spec fn fault_of(star1: u32) -> I2cError {
    if star1 & STAR1_PECERR != 0 {
        I2cError::CrcError
    } else if star1 & STAR1_OVR != 0 {
        I2cError::OverrunError
    } else if star1 & STAR1_AF != 0 {
        I2cError::Nak
    } else if star1 & STAR1_ARLO != 0 {
        I2cError::ArbitrationError
    } else if star1 & STAR1_BERR != 0 {
        I2cError::BusError
    } else {
        I2cError::UnknownError
    }
}

/// What a status word says to a transfer that waits for `flag`: the flag
/// comes before any fault.
pub open spec fn bus_status(star1: u32, flag: u32) -> BusStatus {
    if star1 & flag != 0 {
        BusStatus::Ready
    } else if star1 & STAR1_FAULTS != 0 {
        BusStatus::Fault(fault_of(star1))
    } else {
        BusStatus::Pending
    }
}

/// What a status word says to a transfer that waits for `flag`.
pub fn poll(star1: u32, flag: u32) -> (r: BusStatus)
    ensures
        r == bus_status(star1, flag),
{
    if star1 & flag != 0 {
        BusStatus::Ready
    } else if star1 & STAR1_FAULTS != 0 {
        BusStatus::Fault(
            if star1 & STAR1_PECERR != 0 {
                I2cError::CrcError
            } else if star1 & STAR1_OVR != 0 {
                I2cError::OverrunError
            } else if star1 & STAR1_AF != 0 {
                I2cError::Nak
            } else if star1 & STAR1_ARLO != 0 {
                I2cError::ArbitrationError
            } else if star1 & STAR1_BERR != 0 {
                I2cError::BusError
            } else {
                I2cError::UnknownError
            },
        )
    } else {
        BusStatus::Pending
    }
}

impl<SC, SD> I2c<I2C1, (SC, SD)> {
    /// Binds the first I2C port to its two pins and gives the operations
    /// that set it up for `mode`. The bus clock must be from 2 MHz to
    /// 36 MHz, counted in whole megahertz.
    pub fn i2c1(i2c: I2C1, pins: (SC, SD), mode: I2cMode, clocks: &Clocks) -> (r: (
        Self,
        Vec<RegOp>,
    )) where SC: SclPin<I2C1>, SD: SdaPin<I2C1>
        requires
            2 <= clocks@.pclk1 / 1_000_000 <= 36,
        ensures
            r.1@ == i2c1_program(mode, clocks@.pclk1 / 1_000_000),
    {
        let mhz: u32 = clocks.pclk1().0 / 1_000_000;
        proof {
            crate::regs::lemma_low_bits();
        }
        let mut ops: Vec<RegOp> = Vec::new();
        ops.push(RegOp::set(Reg::RccApb1Pcenr, APB1_I2C1EN));
        ops.push(RegOp::set_field(Reg::I2c1Ctlr2, 0, 6, mhz));
        match mode {
            I2cMode::Standard => {
                ops.push(
                    RegOp::Modify {
                        reg: Reg::I2c1Ckcfgr,
                        clear: CKCFGR_FS | CKCFGR_CCR,
                        set: 5 * mhz,
                    },
                );
            },
            I2cMode::Fast => {
                if mhz < 10 {
                    ops.push(RegOp::clear(Reg::I2c1Ckcfgr, CKCFGR_DUTY));
                    ops.push(
                        RegOp::Modify {
                            reg: Reg::I2c1Ckcfgr,
                            clear: CKCFGR_CCR,
                            set: CKCFGR_FS | ((mhz * 10) / 12),
                        },
                    );
                } else {
                    ops.push(RegOp::set(Reg::I2c1Ckcfgr, CKCFGR_DUTY));
                    ops.push(
                        RegOp::Modify {
                            reg: Reg::I2c1Ckcfgr,
                            clear: CKCFGR_CCR,
                            set: CKCFGR_FS | (mhz / 10),
                        },
                    );
                }
            },
        }
        ops.push(RegOp::set(Reg::I2c1Ctlr1, CTLR1_PE));
        assert(ops@ =~= i2c1_program(mode, clocks@.pclk1 / 1_000_000));
        (I2c { i2c, pins }, ops)
    }
}

impl<PINS> I2c<I2C1, PINS> {
    /// The low sixteen bits of a word read from the first status register.
    pub fn status(&self, star1: u32) -> (r: u16)
        ensures
            r == star1 % 0x1_0000,
    {
        let low: u32 = star1 & 0xffff;
        proof {
            assert(star1 & 0xffff == star1 % 0x1_0000) by (bit_vector);
        }
        low as u16
    }
}

} // verus!
