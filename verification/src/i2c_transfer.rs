//! The steps of each kind of transfer on the first I2C port, in order.
//!
//! Whoever owns the port carries the steps out one by one. A fault met
//! while awaiting a flag ends the transfer with a stop condition.

use crate::i2c::{
    I2c, I2cStep, CTLR1_ACK, CTLR1_START, CTLR1_STOP, STAR1_ADDR, STAR1_BTF, STAR1_RXNE, STAR1_SB,
    STAR1_TXE,
};
use crate::regs::{clear_bits, set_bits, Reg, RegOp};
use ch32v1::ch32v103::I2C1;
use vstd::prelude::*;

verus! {

/// The word that addresses a device: its address above the direction bit.
pub open spec fn address_word(address: u8, read: bool) -> u32 {
    (2 * address + if read {
        1int
    } else {
        0int
    }) as u32
}

/// Start condition, then the address with its direction, then the read of
/// the second status register that releases the bus for data.
pub open spec fn address_steps(address: u8, read: bool) -> Seq<I2cStep> {
    seq![
        I2cStep::Op(set_bits(Reg::I2c1Ctlr1, CTLR1_START)),
        I2cStep::Await { flag: STAR1_SB },
        I2cStep::Op(RegOp::Write { reg: Reg::I2c1Datar, value: address_word(address, read) }),
        I2cStep::Await { flag: STAR1_ADDR },
        I2cStep::ReadStar2,
    ]
}

/// Each byte in turn, once the data register has room for it.
pub open spec fn send_steps(bytes: Seq<u8>) -> Seq<I2cStep>
    decreases bytes.len(),
{
    if bytes.len() == 0 {
        seq![]
    } else {
        send_steps(bytes.drop_last()) + seq![
            I2cStep::Await { flag: STAR1_TXE },
            I2cStep::Op(RegOp::Write { reg: Reg::I2c1Datar, value: bytes.last() as u32 }),
        ]
    }
}

/// The first `count` of `total` bytes to receive, each once it has
/// arrived; before the last byte of all, acknowledging is switched off.
pub open spec fn receive_prefix(total: nat, count: nat) -> Seq<I2cStep>
    decreases count,
{
    if count == 0 {
        seq![]
    } else {
        let index = (count - 1) as nat;
        receive_prefix(total, index) + (if index + 1 == total {
            seq![I2cStep::Op(clear_bits(Reg::I2c1Ctlr1, CTLR1_ACK))]
        } else {
            seq![]
        }) + seq![I2cStep::Await { flag: STAR1_RXNE }, I2cStep::Receive { index: index as usize }]
    }
}

/// Acknowledging on, then `total` bytes received.
pub open spec fn receive_steps(total: nat) -> Seq<I2cStep> {
    seq![I2cStep::Op(set_bits(Reg::I2c1Ctlr1, CTLR1_ACK))] + receive_prefix(total, total)
}

/// The status register cleared.
pub open spec fn reset_steps() -> Seq<I2cStep> {
    seq![I2cStep::Op(RegOp::Write { reg: Reg::I2c1Star1, value: 0 })]
}

/// The stop condition.
pub open spec fn stop_steps() -> Seq<I2cStep> {
    seq![I2cStep::Op(set_bits(Reg::I2c1Ctlr1, CTLR1_STOP))]
}

/// A write of `bytes` to the device at `address`.
pub open spec fn write_steps(address: u8, bytes: Seq<u8>) -> Seq<I2cStep> {
    reset_steps() + address_steps(address, false) + send_steps(bytes) + seq![
        I2cStep::Await { flag: STAR1_BTF },
    ] + stop_steps()
}

/// A read of `total` bytes from the device at `address`.
pub open spec fn read_steps(address: u8, total: nat) -> Seq<I2cStep> {
    reset_steps() + address_steps(address, true) + receive_steps(total) + stop_steps()
}

/// A write of `bytes` to the device at `address`, then, after a repeated
/// start, a read of `total` bytes from it.
pub open spec fn write_read_steps(address: u8, bytes: Seq<u8>, total: nat) -> Seq<I2cStep> {
    reset_steps() + address_steps(address, false) + send_steps(bytes) + seq![
        I2cStep::Await { flag: STAR1_TXE },
    ] + address_steps(address, true) + receive_steps(total) + stop_steps()
}

fn push_address(steps: &mut Vec<I2cStep>, address: u8, read: bool)
    ensures
        final(steps)@ == old(steps)@ + address_steps(address, read),
{
    let word: u32 = 2 * (address as u32) + if read {
        1
    } else {
        0
    };
    steps.push(I2cStep::Op(RegOp::set(Reg::I2c1Ctlr1, CTLR1_START)));
    steps.push(I2cStep::Await { flag: STAR1_SB });
    steps.push(I2cStep::Op(RegOp::Write { reg: Reg::I2c1Datar, value: word }));
    steps.push(I2cStep::Await { flag: STAR1_ADDR });
    steps.push(I2cStep::ReadStar2);
    assert(steps@ =~= old(steps)@ + address_steps(address, read));
}

fn push_send(steps: &mut Vec<I2cStep>, bytes: &[u8])
    ensures
        final(steps)@ == old(steps)@ + send_steps(bytes@),
{
    let mut i: usize = 0;
    assert(bytes@.take(0) =~= Seq::<u8>::empty());
    assert(steps@ =~= old(steps)@ + send_steps(bytes@.take(0)));
    while i < bytes.len()
        invariant
            i <= bytes.len(),
            steps@ == old(steps)@ + send_steps(bytes@.take(i as int)),
        decreases bytes.len() - i,
    {
        let byte: u8 = bytes[i];
        steps.push(I2cStep::Await { flag: STAR1_TXE });
        steps.push(I2cStep::Op(RegOp::Write { reg: Reg::I2c1Datar, value: byte as u32 }));
        proof {
            let next = bytes@.take(i as int + 1);
            assert(next.drop_last() =~= bytes@.take(i as int));
            assert(next.last() == byte);
            assert(steps@ =~= old(steps)@ + send_steps(next));
        }
        i = i + 1;
    }
    assert(bytes@.take(i as int) =~= bytes@);
}

fn push_receive(steps: &mut Vec<I2cStep>, total: usize)
    ensures
        final(steps)@ == old(steps)@ + receive_steps(total as nat),
{
    steps.push(I2cStep::Op(RegOp::set(Reg::I2c1Ctlr1, CTLR1_ACK)));
    let mut i: usize = 0;
    assert(steps@ =~= old(steps)@ + seq![I2cStep::Op(set_bits(Reg::I2c1Ctlr1, CTLR1_ACK))]
        + receive_prefix(total as nat, 0));
    while i < total
        invariant
            i <= total,
            steps@ == old(steps)@ + seq![I2cStep::Op(set_bits(Reg::I2c1Ctlr1, CTLR1_ACK))]
                + receive_prefix(total as nat, i as nat),
        decreases total - i,
    {
        if i + 1 == total {
            steps.push(I2cStep::Op(RegOp::clear(Reg::I2c1Ctlr1, CTLR1_ACK)));
        }
        steps.push(I2cStep::Await { flag: STAR1_RXNE });
        steps.push(I2cStep::Receive { index: i });
        proof {
            assert(steps@ =~= old(steps)@ + seq![I2cStep::Op(set_bits(Reg::I2c1Ctlr1, CTLR1_ACK))]
                + receive_prefix(total as nat, (i + 1) as nat));
        }
        i = i + 1;
    }
    assert(steps@ =~= old(steps)@ + receive_steps(total as nat));
}

impl<PINS> I2c<I2C1, PINS> {
    /// The steps that write `bytes` to the device at `address`.
    pub fn write(&mut self, address: u8, bytes: &[u8]) -> (steps: Vec<I2cStep>)
        ensures
            steps@ == write_steps(address, bytes@),
    {
        let mut steps: Vec<I2cStep> = Vec::new();
        steps.push(I2cStep::Op(RegOp::Write { reg: Reg::I2c1Star1, value: 0 }));
        push_address(&mut steps, address, false);
        push_send(&mut steps, bytes);
        steps.push(I2cStep::Await { flag: STAR1_BTF });
        steps.push(I2cStep::Op(RegOp::set(Reg::I2c1Ctlr1, CTLR1_STOP)));
        assert(steps@ =~= write_steps(address, bytes@));
        steps
    }

    /// The steps that read `total` bytes from the device at `address` into
    /// a buffer of that length.
    pub fn read(&mut self, address: u8, total: usize) -> (steps: Vec<I2cStep>)
        ensures
            steps@ == read_steps(address, total as nat),
    {
        let mut steps: Vec<I2cStep> = Vec::new();
        steps.push(I2cStep::Op(RegOp::Write { reg: Reg::I2c1Star1, value: 0 }));
        push_address(&mut steps, address, true);
        push_receive(&mut steps, total);
        steps.push(I2cStep::Op(RegOp::set(Reg::I2c1Ctlr1, CTLR1_STOP)));
        assert(steps@ =~= read_steps(address, total as nat));
        steps
    }

    /// The steps that write `bytes` to the device at `address` and then
    /// read `total` bytes from it, with a repeated start in between.
    pub fn write_read(&mut self, address: u8, bytes: &[u8], total: usize) -> (steps: Vec<I2cStep>)
        ensures
            steps@ == write_read_steps(address, bytes@, total as nat),
    {
        let mut steps: Vec<I2cStep> = Vec::new();
        steps.push(I2cStep::Op(RegOp::Write { reg: Reg::I2c1Star1, value: 0 }));
        push_address(&mut steps, address, false);
        push_send(&mut steps, bytes);
        steps.push(I2cStep::Await { flag: STAR1_TXE });
        push_address(&mut steps, address, true);
        push_receive(&mut steps, total);
        steps.push(I2cStep::Op(RegOp::set(Reg::I2c1Ctlr1, CTLR1_STOP)));
        assert(steps@ =~= write_read_steps(address, bytes@, total as nat));
        steps
    }
}

} // verus!
