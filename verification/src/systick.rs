//! Busy-wait delays on the system tick counter, which counts the core
//! clock divided by eight.

use crate::rcc::Clocks;
use crate::regs::{Reg, RegOp};
use vstd::prelude::*;

verus! {

/// Address of the counter's control register.
pub const STK_CTLR: u32 = 0xe000_f000;

/// Address of the low word of the counter.
pub const STK_CNTL: u32 = 0xe000_f004;

/// Address of the high word of the counter.
pub const STK_CNTH: u32 = 0xe000_f008;

/// The system tick counter of a frozen clock configuration.
pub struct SysTick {
    hclk: u32,
}

/// Ticks per microsecond at a core clock of `hclk`: whole megahertz,
/// divided by eight.
pub open spec fn ticks_per_us(hclk: int) -> int {
    hclk / 1_000_000 / 8
}

/// The value that makes a 32-bit counter overflow after `count` ticks.
pub open spec fn reload(count: int) -> u32 {
    if count == 0 {
        0
    } else {
        (0x1_0000_0000 - count) as u32
    }
}

/// The operations of a busy wait of `count` ticks: stop the counter, load
/// the low word so that it overflows after `count` ticks, clear the high
/// word, start, wait for the high word to leave zero, stop.
pub open spec fn wait_program(count: int) -> Seq<RegOp> {
    seq![
        RegOp::Write { reg: Reg::StkCtlr, value: 0 },
        RegOp::Write { reg: Reg::StkCntl, value: reload(count) },
        RegOp::Write { reg: Reg::StkCnth, value: 0 },
        RegOp::Write { reg: Reg::StkCtlr, value: 1 },
        RegOp::WaitNonZero { reg: Reg::StkCnth },
        RegOp::Write { reg: Reg::StkCtlr, value: 0 },
    ]
}

/// The operations of a busy wait of `count` ticks.
pub fn wait_ticks(count: u32) -> (ops: Vec<RegOp>)
    ensures
        ops@ == wait_program(count as int),
{
    let mut ops: Vec<RegOp> = Vec::new();
    ops.push(RegOp::Write { reg: Reg::StkCtlr, value: 0 });
    ops.push(RegOp::Write { reg: Reg::StkCntl, value: 0u32.wrapping_sub(count) });
    ops.push(RegOp::Write { reg: Reg::StkCnth, value: 0 });
    ops.push(RegOp::Write { reg: Reg::StkCtlr, value: 1 });
    ops.push(RegOp::WaitNonZero { reg: Reg::StkCnth });
    ops.push(RegOp::Write { reg: Reg::StkCtlr, value: 0 });
    assert(ops@ =~= wait_program(count as int));
    ops
}

impl SysTick {
    /// The core clock that the counter was made for.
    pub closed spec fn core_clock(&self) -> int {
        self.hclk as int
    }

    /// The counter at the core clock of `clocks`.
    pub fn new(clocks: &Clocks) -> (r: Self)
        ensures
            r.core_clock() == clocks@.hclk,
    {
        SysTick { hclk: clocks.hclk().0 }
    }

    /// The core clock in hertz.
    pub fn hclk(&self) -> (r: u32)
        ensures
            r == self.core_clock(),
    {
        self.hclk
    }

    /// The operations that wait `wait_us` microseconds.
    pub fn delay_us(&mut self, wait_us: u32) -> (ops: Vec<RegOp>)
        requires
            ticks_per_us(old(self).core_clock()) * wait_us <= u32::MAX,
        ensures
            ops@ == wait_program(ticks_per_us(old(self).core_clock()) * wait_us),
            final(self).core_clock() == old(self).core_clock(),
    {
        let count: u32 = (self.hclk / 1_000_000 / 8) * wait_us;
        wait_ticks(count)
    }

    /// The operations that wait `wait_sec` seconds.
    pub fn delay_s(&mut self, wait_sec: u32) -> (ops: Vec<RegOp>)
        requires
            ticks_per_us(old(self).core_clock()) * (wait_sec * 1_000_000) <= u32::MAX,
            wait_sec * 1_000_000 <= u32::MAX,
        ensures
            ops@ == wait_program(ticks_per_us(old(self).core_clock()) * (wait_sec * 1_000_000)),
            final(self).core_clock() == old(self).core_clock(),
    {
        self.delay_us(wait_sec * 1_000_000)
    }

    /// The operations that wait `wait_ms` milliseconds.
    pub fn delay_ms(&mut self, wait_ms: u32) -> (ops: Vec<RegOp>)
        requires
            ticks_per_us(old(self).core_clock()) * (wait_ms * 1_000) <= u32::MAX,
            wait_ms * 1_000 <= u32::MAX,
        ensures
            ops@ == wait_program(ticks_per_us(old(self).core_clock()) * (wait_ms * 1_000)),
            final(self).core_clock() == old(self).core_clock(),
    {
        self.delay_us(wait_ms * 1_000)
    }
}

} // verus!
