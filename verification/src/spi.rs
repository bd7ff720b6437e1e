//! The first SPI port as bus master: which pins may carry it, how it is
//! set up, and what its status word means.

use crate::gpio::gpioa::{PA5, PA6, PA7};
use crate::gpio::{AltOutput, Floating, Input, PushPull};
use crate::rcc::Clocks;
use crate::regs::{clear_bits, field_update, set_bits, Reg, RegOp};
use crate::time::Hertz;
use ch32v1::ch32v103::SPI1;
use vstd::prelude::*;

verus! {

/// Control 1: data is captured on the second clock transition.
pub const CTLR1_CPHA: u32 = 0x0000_0001;

/// Control 1: the clock idles high.
pub const CTLR1_CPOL: u32 = 0x0000_0002;

/// Control 1: master mode.
pub const CTLR1_MSTR: u32 = 0x0000_0004;

/// Control 1: offset of the baud-rate divider, three bits.
pub const CTLR1_BR: u32 = 3;

/// Control 1: port enabled.
pub const CTLR1_SPE: u32 = 0x0000_0040;

/// Control 1: internal slave select.
pub const CTLR1_SSI: u32 = 0x0000_0100;

/// Control 1: slave select managed by software.
pub const CTLR1_SSM: u32 = 0x0000_0200;

/// Status: a received word waits in the data register.
pub const STATR_RXNE: u32 = 0x0000_0001;

/// Status: the data register takes another word.
pub const STATR_TXE: u32 = 0x0000_0002;

/// Status: a transfer is in progress.
pub const STATR_BSY: u32 = 0x0000_0080;

/// Second peripheral bus: first SPI port clocked.
pub const APB2_SPI1EN: u32 = 0x0000_1000;

/// Clock polarity and phase, by the usual mode number.
#[derive(Clone, Copy, PartialEq, Eq, Debug, Structural)]
pub enum SpiMode {
    /// Idle low, capture on the first transition.
    Mode0,
    /// Idle low, capture on the second transition.
    Mode1,
    /// Idle high, capture on the first transition.
    Mode2,
    /// Idle high, capture on the second transition.
    Mode3,
}

/// A fault of the port.
#[derive(Clone, Copy, PartialEq, Eq, Debug, Structural)]
pub enum Error {
    Mode,
    Crc,
    Overrun,
    Unkown,
}

/// A pin in a mode in which it may carry the clock line of `T`.
pub trait SckPin<T> {
    /// True if the pin belongs to the port's alternate pin set.
    spec fn needs_remap(&self) -> bool;

    /// True if the pin belongs to the port's alternate pin set.
    fn remap(&self) -> (r: bool)
        ensures
            r == self.needs_remap(),
    ;
}

/// A pin in a mode in which it may carry the master-in line of `T`.
pub trait MisoPin<T> {
    /// True if the pin belongs to the port's alternate pin set.
    spec fn needs_remap(&self) -> bool;

    /// True if the pin belongs to the port's alternate pin set.
    fn remap(&self) -> (r: bool)
        ensures
            r == self.needs_remap(),
    ;
}

/// A pin in a mode in which it may carry the master-out line of `T`.
pub trait MosiPin<T> {
    /// True if the pin belongs to the port's alternate pin set.
    spec fn needs_remap(&self) -> bool;

    /// True if the pin belongs to the port's alternate pin set.
    fn remap(&self) -> (r: bool)
        ensures
            r == self.needs_remap(),
    ;
}

impl SckPin<SPI1> for PA5<AltOutput<PushPull>> {
    open spec fn needs_remap(&self) -> bool {
        false
    }

    fn remap(&self) -> (r: bool) {
        false
    }
}

impl MisoPin<SPI1> for PA6<Input<Floating>> {
    open spec fn needs_remap(&self) -> bool {
        false
    }

    fn remap(&self) -> (r: bool) {
        false
    }
}

impl MosiPin<SPI1> for PA7<AltOutput<PushPull>> {
    open spec fn needs_remap(&self) -> bool {
        false
    }

    fn remap(&self) -> (r: bool) {
        false
    }
}

/// An SPI port bound to its pins.
pub struct Spi<SPI, PINS> {
    spi: SPI,
    pins: PINS,
}

impl SpiMode {
    /// True if the clock idles high.
    pub open spec fn idle_high(self) -> bool {
        self == SpiMode::Mode2 || self == SpiMode::Mode3
    }

    /// True if data is captured on the second clock transition.
    pub open spec fn second_transition(self) -> bool {
        self == SpiMode::Mode1 || self == SpiMode::Mode3
    }
}

/// The divider field for a coarse ratio of bus clock to wanted speed, from
/// 1 on: field `n` divides by two to the power `n + 1`.
pub open spec fn baud_code(ratio: int) -> u32 {
    if ratio <= 2 {
        0
    } else if ratio <= 5 {
        1
    } else if ratio <= 11 {
        2
    } else if ratio <= 23 {
        3
    } else if ratio <= 47 {
        4
    } else if ratio <= 95 {
        5
    } else if ratio <= 191 {
        6
    } else {
        7
    }
}

/// The operations that set the first SPI port up as master: its clock, the
/// divider, polarity, phase, software slave select, then master mode with
/// the port on.
pub open spec fn spi1_program(mode: SpiMode, ratio: int) -> Seq<RegOp> {
    seq![
        set_bits(Reg::RccApb2Pcenr, APB2_SPI1EN),
        field_update(Reg::Spi1Ctlr1, CTLR1_BR, 3, baud_code(ratio)),
        if mode.idle_high() {
            set_bits(Reg::Spi1Ctlr1, CTLR1_CPOL)
        } else {
            clear_bits(Reg::Spi1Ctlr1, CTLR1_CPOL)
        },
        if mode.second_transition() {
            set_bits(Reg::Spi1Ctlr1, CTLR1_CPHA)
        } else {
            clear_bits(Reg::Spi1Ctlr1, CTLR1_CPHA)
        },
        set_bits(Reg::Spi1Ctlr1, (CTLR1_SSM | CTLR1_SSI)),
        set_bits(Reg::Spi1Ctlr1, (CTLR1_MSTR | CTLR1_SPE)),
    ]
}

/// The divider field for a bus clock and a wanted speed that the bus clock
/// reaches.
pub fn baud_divider(pclk: u32, speed: u32) -> (code: u32)
    requires
        0 < speed <= pclk,
    ensures
        code == baud_code(pclk as int / speed as int),
        code <= 7,
{
    let ratio: u32 = pclk / speed;
    if ratio <= 2 {
        0
    } else if ratio <= 5 {
        1
    } else if ratio <= 11 {
        2
    } else if ratio <= 23 {
        3
    } else if ratio <= 47 {
        4
    } else if ratio <= 95 {
        5
    } else if ratio <= 191 {
        6
    } else {
        7
    }
}

impl<SCK, MISO, MOSI> Spi<SPI1, (SCK, MISO, MOSI)> {
    /// Binds the first SPI port to its three pins and gives the operations
    /// that set it up as master in `mode`, with the divider that the coarse
    /// ratio of bus clock to `speed` selects.
    pub fn spi1(
        spi: SPI1,
        pins: (SCK, MISO, MOSI),
        mode: SpiMode,
        speed: Hertz,
        clocks: &Clocks,
    ) -> (r: (Self, Vec<RegOp>)) where SCK: SckPin<SPI1>, MISO: MisoPin<SPI1>, MOSI: MosiPin<SPI1>
        requires
            0 < speed.0 <= clocks@.pclk2,
        ensures
            r.1@ == spi1_program(mode, clocks@.pclk2 / (speed.0 as int)),
    {
        let code: u32 = baud_divider(clocks.pclk2().0, speed.0);
        let idle_high: bool = match mode {
            SpiMode::Mode2 | SpiMode::Mode3 => true,
            _ => false,
        };
        let second: bool = match mode {
            SpiMode::Mode1 | SpiMode::Mode3 => true,
            _ => false,
        };
        proof {
            crate::regs::lemma_low_bits();
        }
        let mut ops: Vec<RegOp> = Vec::new();
        ops.push(RegOp::set(Reg::RccApb2Pcenr, APB2_SPI1EN));
        ops.push(RegOp::set_field(Reg::Spi1Ctlr1, CTLR1_BR, 3, code));
        if idle_high {
            ops.push(RegOp::set(Reg::Spi1Ctlr1, CTLR1_CPOL));
        } else {
            ops.push(RegOp::clear(Reg::Spi1Ctlr1, CTLR1_CPOL));
        }
        if second {
            ops.push(RegOp::set(Reg::Spi1Ctlr1, CTLR1_CPHA));
        } else {
            ops.push(RegOp::clear(Reg::Spi1Ctlr1, CTLR1_CPHA));
        }
        ops.push(RegOp::set(Reg::Spi1Ctlr1, CTLR1_SSM | CTLR1_SSI));
        ops.push(RegOp::set(Reg::Spi1Ctlr1, CTLR1_MSTR | CTLR1_SPE));
        assert(ops@ =~= spi1_program(mode, clocks@.pclk2 / (speed.0 as int)));
        (Spi { spi, pins }, ops)
    }

    /// The operation that switches the port on.
    pub fn enable(&self) -> (op: RegOp)
        ensures
            op == set_bits(Reg::Spi1Ctlr1, CTLR1_SPE),
    {
        RegOp::set(Reg::Spi1Ctlr1, CTLR1_SPE)
    }

    /// The operation that switches the port off.
    pub fn disable(&self) -> (op: RegOp)
        ensures
            op == clear_bits(Reg::Spi1Ctlr1, CTLR1_SPE),
    {
        RegOp::clear(Reg::Spi1Ctlr1, CTLR1_SPE)
    }

    /// True if the status word shows a received word to read: the port is
    /// not busy and its data register is not empty. Otherwise reading
    /// would block.
    pub fn read(&mut self, statr: u32) -> (ready: bool)
        ensures
            ready == (statr & STATR_BSY == 0 && statr & STATR_RXNE != 0),
    {
        statr & STATR_BSY == 0 && statr & STATR_RXNE != 0
    }

    /// The write that sends `word`, if the status word shows room for it;
    /// `None` if sending would block.
    pub fn send(&mut self, statr: u32, word: u8) -> (r: Option<RegOp>)
        ensures
            r == if statr & STATR_TXE != 0 {
                Some(RegOp::Write { reg: Reg::Spi1Datar, value: word as u32 })
            } else {
                None
            },
    {
        if statr & STATR_TXE != 0 {
            Some(RegOp::Write { reg: Reg::Spi1Datar, value: word as u32 })
        } else {
            None
        }
    }
}

} // verus!
