//! The pins of bank A.

use crate::gpio::{Floating, GpioExt, Input, Pin, PullDown, PullUp};
use crate::regs::{set_bits, Reg, RegOp};
use core::marker::PhantomData;
use vstd::prelude::*;

verus! {

/// The bit of the second peripheral-bus enable register that clocks bank A.
pub const CLOCK_ENABLE: u32 = 0x00000004;

pub type PA0<MODE> = Pin<0, 0, MODE>;

pub type PA1<MODE> = Pin<0, 1, MODE>;

pub type PA2<MODE> = Pin<0, 2, MODE>;

pub type PA3<MODE> = Pin<0, 3, MODE>;

pub type PA4<MODE> = Pin<0, 4, MODE>;

pub type PA5<MODE> = Pin<0, 5, MODE>;

pub type PA6<MODE> = Pin<0, 6, MODE>;

pub type PA7<MODE> = Pin<0, 7, MODE>;

pub type PA8<MODE> = Pin<0, 8, MODE>;

pub type PA9<MODE> = Pin<0, 9, MODE>;

pub type PA10<MODE> = Pin<0, 10, MODE>;

pub type PA11<MODE> = Pin<0, 11, MODE>;

pub type PA12<MODE> = Pin<0, 12, MODE>;

pub type PA13<MODE> = Pin<0, 13, MODE>;

pub type PA14<MODE> = Pin<0, 14, MODE>;

pub type PA15<MODE> = Pin<0, 15, MODE>;

/// The pins of bank A, each in the mode it has after reset, and the
/// operation that clocks the bank, to be carried out before any other.
pub struct Parts {
    pub clock: RegOp,
    pub pa0: PA0<Input<Floating>>,
    pub pa1: PA1<Input<Floating>>,
    pub pa2: PA2<Input<Floating>>,
    pub pa3: PA3<Input<Floating>>,
    pub pa4: PA4<Input<Floating>>,
    pub pa5: PA5<Input<Floating>>,
    pub pa6: PA6<Input<Floating>>,
    pub pa7: PA7<Input<Floating>>,
    pub pa8: PA8<Input<Floating>>,
    pub pa9: PA9<Input<Floating>>,
    pub pa10: PA10<Input<Floating>>,
    pub pa11: PA11<Input<Floating>>,
    pub pa12: PA12<Input<Floating>>,
    pub pa13: PA13<Input<PullUp>>,
    pub pa14: PA14<Input<PullDown>>,
    pub pa15: PA15<Input<PullUp>>,
}

impl GpioExt for ch32v1::ch32v103::GPIOA {
    type Parts = Parts;

    /// Consumes the bank and hands out one token per pin.
    fn split(self) -> (r: Parts)
        ensures
            r.clock == set_bits(Reg::RccApb2Pcenr, CLOCK_ENABLE),
    {
        Parts {
            clock: RegOp::set(Reg::RccApb2Pcenr, CLOCK_ENABLE),
            pa0: Pin { _mode: PhantomData },
            pa1: Pin { _mode: PhantomData },
            pa2: Pin { _mode: PhantomData },
            pa3: Pin { _mode: PhantomData },
            pa4: Pin { _mode: PhantomData },
            pa5: Pin { _mode: PhantomData },
            pa6: Pin { _mode: PhantomData },
            pa7: Pin { _mode: PhantomData },
            pa8: Pin { _mode: PhantomData },
            pa9: Pin { _mode: PhantomData },
            pa10: Pin { _mode: PhantomData },
            pa11: Pin { _mode: PhantomData },
            pa12: Pin { _mode: PhantomData },
            pa13: Pin { _mode: PhantomData },
            pa14: Pin { _mode: PhantomData },
            pa15: Pin { _mode: PhantomData },
        }
    }
}

} // verus!
