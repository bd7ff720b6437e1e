//! The first timer as a periodic interrupt source.

use crate::regs::{clear_bits, set_bits, Reg, RegOp};
use vstd::prelude::*;

verus! {

/// Second peripheral bus: first timer clocked.
pub const APB2_TIM1EN: u32 = 0x0000_0800;

/// Control 1: counter enabled.
pub const CTLR1_CEN: u32 = 0x0000_0001;

/// Control 1: reload value buffered.
pub const CTLR1_ARPE: u32 = 0x0000_0080;

/// Interrupt enable: update interrupt.
pub const DMAINTENR_UIE: u32 = 0x0000_0001;

/// Interrupt flags: update.
pub const INTFR_UIF: u32 = 0x0000_0001;

/// Interrupt controller, second enable word: the timer's update interrupt.
pub const PFIC_TIM1_UP: u32 = 0x0000_0200;

/// Counts of a tenth of a millisecond in one period of 100 ms, less one.
pub const PERIOD_COUNT: u32 = 999;

/// The prescaler that makes the timer count tenths of a millisecond at a
/// core clock of `hclk`: a hundred ticks per whole megahertz, less one, as
/// far as it fits in the register's sixteen bits.
pub open spec fn tenth_ms_prescaler(hclk: int) -> u32 {
    (((hclk / 1_000_000) * 100 - 1) % 0x1_0000) as u32
}

/// The operations that make the timer raise its update interrupt every
/// 100 ms: its clock, the prescaler, counter and reload value, the counter
/// on with buffered reload, and the interrupt enabled at the controller
/// and at the timer.
pub open spec fn periodic_program(hclk: int) -> Seq<RegOp> {
    seq![
        set_bits(Reg::RccApb2Pcenr, APB2_TIM1EN),
        RegOp::Write { reg: Reg::Tim1Psc, value: tenth_ms_prescaler(hclk) },
        RegOp::Write { reg: Reg::Tim1Cnt, value: PERIOD_COUNT },
        RegOp::Write { reg: Reg::Tim1Atrlr, value: PERIOD_COUNT },
        set_bits(Reg::Tim1Ctlr1, (CTLR1_ARPE | CTLR1_CEN)),
        RegOp::Write { reg: Reg::PficIenr2, value: PFIC_TIM1_UP },
        set_bits(Reg::Tim1Dmaintenr, DMAINTENR_UIE),
    ]
}

/// The operations that make the timer raise its update interrupt every
/// 100 ms at a core clock of `hclk`, which must be at least 1 MHz.
pub fn setup_timer1(hclk: u32) -> (ops: Vec<RegOp>)
    requires
        hclk >= 1_000_000,
    ensures
        ops@ == periodic_program(hclk as int),
{
    let prescale: u32 = (hclk / 1_000_000) * 100 - 1;
    let low: u32 = prescale & 0xffff;
    proof {
        assert(prescale & 0xffff == prescale % 0x1_0000) by (bit_vector);
    }
    let mut ops: Vec<RegOp> = Vec::new();
    ops.push(RegOp::set(Reg::RccApb2Pcenr, APB2_TIM1EN));
    ops.push(RegOp::Write { reg: Reg::Tim1Psc, value: low });
    ops.push(RegOp::Write { reg: Reg::Tim1Cnt, value: PERIOD_COUNT });
    ops.push(RegOp::Write { reg: Reg::Tim1Atrlr, value: PERIOD_COUNT });
    ops.push(RegOp::set(Reg::Tim1Ctlr1, CTLR1_ARPE | CTLR1_CEN));
    ops.push(RegOp::Write { reg: Reg::PficIenr2, value: PFIC_TIM1_UP });
    ops.push(RegOp::set(Reg::Tim1Dmaintenr, DMAINTENR_UIE));
    assert(ops@ =~= periodic_program(hclk as int));
    ops
}

/// The operation with which the timer's handler acknowledges an update.
pub fn acknowledge_update() -> (op: RegOp)
    ensures
        op == clear_bits(Reg::Tim1Intfr, INTFR_UIF),
{
    RegOp::clear(Reg::Tim1Intfr, INTFR_UIF)
}

} // verus!
