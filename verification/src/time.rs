//! Frequency and bit-rate value types.

use vstd::prelude::*;

verus! {

/// Bits per second.
#[derive(Clone, Copy, Debug)]
pub struct Bps(pub u32);

/// Cycles per second.
#[derive(Clone, Copy, Debug)]
pub struct Hertz(pub u32);

/// Unit suffixes on plain integers: `8.mhz()`, `115_200.bps()`.
pub trait U32Ext: Sized {
    /// The number of base units that the value stands for.
    spec fn units(self) -> int;

    fn bps(self) -> (r: Bps)
        ensures
            r.0 == self.units(),
    ;

    fn hz(self) -> (r: Hertz)
        ensures
            r.0 == self.units(),
    ;

    fn khz(self) -> (r: Hertz)
        requires
            self.units() * 1_000 <= u32::MAX,
        ensures
            r.0 == self.units() * 1_000,
    ;

    fn mhz(self) -> (r: Hertz)
        requires
            self.units() * 1_000_000 <= u32::MAX,
        ensures
            r.0 == self.units() * 1_000_000,
    ;
}

impl U32Ext for u32 {
    open spec fn units(self) -> int {
        self as int
    }

    fn bps(self) -> (r: Bps) {
        Bps(self)
    }

    fn hz(self) -> (r: Hertz) {
        Hertz(self)
    }

    fn khz(self) -> (r: Hertz) {
        Hertz(self * 1_000)
    }

    fn mhz(self) -> (r: Hertz) {
        Hertz(self * 1_000_000)
    }
}

} // verus!
