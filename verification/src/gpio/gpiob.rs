//! The pins of bank B.

use crate::gpio::{Floating, GpioExt, Input, Pin};
use crate::regs::{set_bits, Reg, RegOp};
use core::marker::PhantomData;
use vstd::prelude::*;

verus! {

/// The bit of the second peripheral-bus enable register that clocks bank B.
pub const CLOCK_ENABLE: u32 = 0x00000008;

pub type PB0<MODE> = Pin<1, 0, MODE>;

pub type PB1<MODE> = Pin<1, 1, MODE>;

pub type PB2<MODE> = Pin<1, 2, MODE>;

pub type PB3<MODE> = Pin<1, 3, MODE>;

pub type PB4<MODE> = Pin<1, 4, MODE>;

pub type PB5<MODE> = Pin<1, 5, MODE>;

pub type PB6<MODE> = Pin<1, 6, MODE>;

pub type PB7<MODE> = Pin<1, 7, MODE>;

pub type PB8<MODE> = Pin<1, 8, MODE>;

pub type PB9<MODE> = Pin<1, 9, MODE>;

pub type PB10<MODE> = Pin<1, 10, MODE>;

pub type PB11<MODE> = Pin<1, 11, MODE>;

pub type PB12<MODE> = Pin<1, 12, MODE>;

pub type PB13<MODE> = Pin<1, 13, MODE>;

pub type PB14<MODE> = Pin<1, 14, MODE>;

pub type PB15<MODE> = Pin<1, 15, MODE>;

/// The pins of bank B, each in the mode it has after reset, and the
/// operation that clocks the bank, to be carried out before any other.
pub struct Parts {
    pub clock: RegOp,
    pub pb0: PB0<Input<Floating>>,
    pub pb1: PB1<Input<Floating>>,
    pub pb2: PB2<Input<Floating>>,
    pub pb3: PB3<Input<Floating>>,
    pub pb4: PB4<Input<Floating>>,
    pub pb5: PB5<Input<Floating>>,
    pub pb6: PB6<Input<Floating>>,
    pub pb7: PB7<Input<Floating>>,
    pub pb8: PB8<Input<Floating>>,
    pub pb9: PB9<Input<Floating>>,
    pub pb10: PB10<Input<Floating>>,
    pub pb11: PB11<Input<Floating>>,
    pub pb12: PB12<Input<Floating>>,
    pub pb13: PB13<Input<Floating>>,
    pub pb14: PB14<Input<Floating>>,
    pub pb15: PB15<Input<Floating>>,
}

impl GpioExt for ch32v1::ch32v103::GPIOB {
    type Parts = Parts;

    /// Consumes the bank and hands out one token per pin.
    fn split(self) -> (r: Parts)
        ensures
            r.clock == set_bits(Reg::RccApb2Pcenr, CLOCK_ENABLE),
    {
        Parts {
            clock: RegOp::set(Reg::RccApb2Pcenr, CLOCK_ENABLE),
            pb0: Pin { _mode: PhantomData },
            pb1: Pin { _mode: PhantomData },
            pb2: Pin { _mode: PhantomData },
            pb3: Pin { _mode: PhantomData },
            pb4: Pin { _mode: PhantomData },
            pb5: Pin { _mode: PhantomData },
            pb6: Pin { _mode: PhantomData },
            pb7: Pin { _mode: PhantomData },
            pb8: Pin { _mode: PhantomData },
            pb9: Pin { _mode: PhantomData },
            pb10: Pin { _mode: PhantomData },
            pb11: Pin { _mode: PhantomData },
            pb12: Pin { _mode: PhantomData },
            pb13: Pin { _mode: PhantomData },
            pb14: Pin { _mode: PhantomData },
            pb15: Pin { _mode: PhantomData },
        }
    }
}

} // verus!
