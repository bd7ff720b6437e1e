//! The first serial port: which pins may carry it, how it is set up, and
//! what its status word means.

use crate::afio::{push_remap_usart1, remap_usart1_ops};
use crate::gpio::gpioa::{PA10, PA9};
use crate::gpio::gpiob::{PB6, PB7};
use crate::gpio::{AltOutput, Floating, Input, PullUp, PushPull};
use crate::rcc::Clocks;
use crate::regs::{clear_bits, set_bits, Reg, RegOp};
use crate::time::Bps;
use ch32v1::ch32v103::USART1;
use core::marker::PhantomData;
use vstd::prelude::*;

verus! {

/// Status: parity error.
pub const STATR_PE: u32 = 0x0000_0001;

/// Status: framing error.
pub const STATR_FE: u32 = 0x0000_0002;

/// Status: noise detected.
pub const STATR_NE: u32 = 0x0000_0004;

/// Status: receive overrun.
pub const STATR_ORE: u32 = 0x0000_0008;

/// Status: a received byte waits in the data register.
pub const STATR_RXNE: u32 = 0x0000_0020;

/// Status: transmission complete.
pub const STATR_TC: u32 = 0x0000_0040;

/// Status: the data register takes another byte.
pub const STATR_TXE: u32 = 0x0000_0080;

/// Control 1: receiver, transmitter and port enabled.
pub const CTLR1_UE_TE_RE: u32 = 0x0000_200c;

/// Control 3: hardware flow control, both directions.
pub const CTLR3_CTSE_RTSE: u32 = 0x0000_0300;

/// Second peripheral bus: first serial port clocked.
pub const APB2_USART1EN: u32 = 0x0000_4000;

/// A fault of the receiver.
#[derive(Clone, Copy, PartialEq, Eq, Debug, Structural)]
pub enum UsartError {
    Framing,
    Noise,
    Overrun,
    Parity,
}

/// What the receiver's status word says.
#[derive(Clone, Copy, PartialEq, Eq, Debug, Structural)]
pub enum RxStatus {
    /// A byte waits in the data register.
    Ready,
    /// Nothing has arrived and nothing is wrong.
    WouldBlock,
    /// Nothing has arrived and a fault is flagged.
    Fault(UsartError),
}

/// The receiving half of a serial port.
pub struct Rx<USART> {
    _usart: PhantomData<USART>,
}

/// The transmitting half of a serial port.
pub struct Tx<USART> {
    _usart: PhantomData<USART>,
}

/// A pin in a mode in which it may carry the transmit line of `USART`.
pub trait TxPin<USART> {
    /// True if the pin belongs to the port's alternate pin set.
    spec fn needs_remap(&self) -> bool;

    /// True if the pin belongs to the port's alternate pin set.
    fn remap(&self) -> (r: bool)
        ensures
            r == self.needs_remap(),
    ;
}

/// A pin in a mode in which it may carry the receive line of `USART`.
pub trait RxPin<USART> {
    /// True if the pin belongs to the port's alternate pin set.
    spec fn needs_remap(&self) -> bool;

    /// True if the pin belongs to the port's alternate pin set.
    fn remap(&self) -> (r: bool)
        ensures
            r == self.needs_remap(),
    ;
}

impl TxPin<USART1> for PA9<AltOutput<PushPull>> {
    open spec fn needs_remap(&self) -> bool {
        false
    }

    fn remap(&self) -> (r: bool) {
        false
    }
}

impl RxPin<USART1> for PA10<Input<Floating>> {
    open spec fn needs_remap(&self) -> bool {
        false
    }

    fn remap(&self) -> (r: bool) {
        false
    }
}

impl RxPin<USART1> for PA10<Input<PullUp>> {
    open spec fn needs_remap(&self) -> bool {
        false
    }

    fn remap(&self) -> (r: bool) {
        false
    }
}

impl TxPin<USART1> for PB6<AltOutput<PushPull>> {
    open spec fn needs_remap(&self) -> bool {
        true
    }

    fn remap(&self) -> (r: bool) {
        true
    }
}

impl RxPin<USART1> for PB7<Input<Floating>> {
    open spec fn needs_remap(&self) -> bool {
        true
    }

    fn remap(&self) -> (r: bool) {
        true
    }
}

impl RxPin<USART1> for PB7<Input<PullUp>> {
    open spec fn needs_remap(&self) -> bool {
        true
    }

    fn remap(&self) -> (r: bool) {
        true
    }
}

/// A serial port bound to its pins.
pub struct Serial<USART, PINS> {
    usart: USART,
    pins: PINS,
}

/// The operations that set the first serial port up: the remap if the pins
/// ask for it, the port's clock, the divider, flow control off, and the
/// port with both directions on.
pub open spec fn usart1_program(remap: bool, divider: int) -> Seq<RegOp> {
    (if remap {
        remap_usart1_ops()
    } else {
        seq![]
    }) + seq![
        set_bits(Reg::RccApb2Pcenr, APB2_USART1EN),
        RegOp::Write { reg: Reg::Usart1Brr, value: divider as u32 },
        clear_bits(Reg::Usart1Ctlr3, CTLR3_CTSE_RTSE),
        set_bits(Reg::Usart1Ctlr1, CTLR1_UE_TE_RE),
    ]
}

/// What a status word says to the receiver: a waiting byte comes first,
/// then the faults in the order overrun, noise, framing, parity.
pub open spec fn rx_status(statr: u32) -> RxStatus {
    if statr & STATR_RXNE != 0 {
        RxStatus::Ready
    } else if statr & STATR_ORE != 0 {
        RxStatus::Fault(UsartError::Overrun)
    } else if statr & STATR_NE != 0 {
        RxStatus::Fault(UsartError::Noise)
    } else if statr & STATR_FE != 0 {
        RxStatus::Fault(UsartError::Framing)
    } else if statr & STATR_PE != 0 {
        RxStatus::Fault(UsartError::Parity)
    } else {
        RxStatus::WouldBlock
    }
}

impl<TX, RX> Serial<USART1, (TX, RX)> {
    /// Binds the first serial port to a transmit and a receive pin, which
    /// must come from the same pin set, and gives the operations that set
    /// it up for `baud_rate`.
    pub fn usart1(usart: USART1, pins: (TX, RX), baud_rate: Bps, clocks: &Clocks) -> (r: (
        Self,
        Vec<RegOp>,
    )) where TX: TxPin<USART1>, RX: RxPin<USART1>
        requires
            pins.0.needs_remap() == pins.1.needs_remap(),
            baud_rate.0 > 0,
        ensures
            r.1@ == usart1_program(pins.0.needs_remap(), clocks@.pclk2 / (baud_rate.0 as int)),
    {
        let mut ops: Vec<RegOp> = Vec::new();
        if pins.0.remap() {
            push_remap_usart1(&mut ops);
        }
        let divider: u32 = clocks.pclk2().0 / baud_rate.0;
        ops.push(RegOp::set(Reg::RccApb2Pcenr, APB2_USART1EN));
        ops.push(RegOp::Write { reg: Reg::Usart1Brr, value: divider });
        ops.push(RegOp::clear(Reg::Usart1Ctlr3, CTLR3_CTSE_RTSE));
        ops.push(RegOp::set(Reg::Usart1Ctlr1, CTLR1_UE_TE_RE));
        assert(ops@ =~= usart1_program(
            pins.0.needs_remap(),
            clocks@.pclk2 / (baud_rate.0 as int),
        ));
        (Serial { usart, pins }, ops)
    }

    /// Splits the port into a transmitter and a receiver.
    pub fn split(self) -> (Tx<USART1>, Rx<USART1>) {
        (Tx { _usart: PhantomData }, Rx { _usart: PhantomData })
    }
}

impl Tx<USART1> {
    /// The write that sends `byte`, if the status word shows room for it;
    /// `None` if sending would block.
    pub fn write(&mut self, statr: u32, byte: u8) -> (r: Option<RegOp>)
        ensures
            r == if statr & STATR_TXE != 0 {
                Some(RegOp::Write { reg: Reg::Usart1Datar, value: byte as u32 })
            } else {
                None
            },
    {
        if statr & STATR_TXE != 0 {
            Some(RegOp::Write { reg: Reg::Usart1Datar, value: byte as u32 })
        } else {
            None
        }
    }

    /// True if the status word shows the last transmission complete.
    pub fn flush(&mut self, statr: u32) -> (done: bool)
        ensures
            done == (statr & STATR_TC != 0),
    {
        statr & STATR_TC != 0
    }
}

impl Rx<USART1> {
    /// What the status word says to the receiver. On `Ready` the data
    /// register is to be read, and `received` gives its byte.
    pub fn read(&mut self, statr: u32) -> (r: RxStatus)
        ensures
            r == rx_status(statr),
    {
        if statr & STATR_RXNE != 0 {
            RxStatus::Ready
        } else if statr & STATR_ORE != 0 {
            RxStatus::Fault(UsartError::Overrun)
        } else if statr & STATR_NE != 0 {
            RxStatus::Fault(UsartError::Noise)
        } else if statr & STATR_FE != 0 {
            RxStatus::Fault(UsartError::Framing)
        } else if statr & STATR_PE != 0 {
            RxStatus::Fault(UsartError::Parity)
        } else {
            RxStatus::WouldBlock
        }
    }

    /// The byte in a word read from the data register: its low eight bits.
    pub fn received(&self, datar: u32) -> (byte: u8)
        ensures
            byte == datar % 256,
    {
        let low: u32 = datar & 0xff;
        proof {
            assert(datar & 0xff == datar % 256) by (bit_vector);
        }
        low as u8
    }
}

} // verus!
