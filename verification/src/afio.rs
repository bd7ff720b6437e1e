//! Alternate-function remapping.

use crate::regs::{set_bits, Reg, RegOp};
use vstd::prelude::*;

verus! {

/// Second peripheral bus: alternate-function block clocked.
pub const APB2_AFIOEN: u32 = 0x0000_0001;

/// Remap register: the first serial port moves to its alternate pins.
pub const PCFR_USART1RM: u32 = 0x0000_0004;

/// The operations that move the first serial port to its alternate pins:
/// the block is clocked first, then the remap bit is set.
pub open spec fn remap_usart1_ops() -> Seq<RegOp> {
    seq![set_bits(Reg::RccApb2Pcenr, APB2_AFIOEN), set_bits(Reg::AfioPcfr, PCFR_USART1RM)]
}

/// Appends the operations that move the first serial port to its
/// alternate pins.
pub fn push_remap_usart1(ops: &mut Vec<RegOp>)
    ensures
        final(ops)@ == old(ops)@ + remap_usart1_ops(),
{
    ops.push(RegOp::set(Reg::RccApb2Pcenr, APB2_AFIOEN));
    ops.push(RegOp::set(Reg::AfioPcfr, PCFR_USART1RM));
    assert(ops@ =~= old(ops)@ + remap_usart1_ops());
}

/// Remapping through the owner of the alternate-function block.
pub trait AfioExt {
    /// The operations that move the first serial port to its alternate
    /// pins.
    fn remap_usart1(&self) -> (ops: Vec<RegOp>)
        ensures
            ops@ == remap_usart1_ops(),
    ;
}

impl AfioExt for ch32v1::ch32v103::AFIO {
    fn remap_usart1(&self) -> (ops: Vec<RegOp>) {
        let mut ops: Vec<RegOp> = Vec::new();
        push_remap_usart1(&mut ops);
        assert(ops@ =~= remap_usart1_ops());
        ops
    }
}

} // verus!
