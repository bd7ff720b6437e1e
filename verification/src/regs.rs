//! Register operations as values.
//!
//! The drivers never touch memory-mapped registers themselves. They compute
//! the operations to perform, in order, and whoever owns the hardware carries
//! them out. What an operation does to the word it targets is fixed here.

use vstd::prelude::*;

verus! {

/// A GPIO bank.
#[derive(Clone, Copy, PartialEq, Eq, Debug, Structural)]
pub enum Port {
    A,
    B,
}

/// A register of a GPIO bank.
#[derive(Clone, Copy, PartialEq, Eq, Debug, Structural)]
pub enum PortReg {
    /// Configuration of pins 0 to 7, four bits each.
    Cfglr,
    /// Configuration of pins 8 to 15, four bits each.
    Cfghr,
    /// Input data.
    Indr,
    /// Output data: the level last commanded for each pin.
    Outdr,
    /// Set bits: a one in bit `i` drives pin `i` high.
    Bshr,
    /// Clear bits: a one in bit `i` drives pin `i` low.
    Bcr,
}

/// A memory-mapped register that the drivers program.
#[derive(Clone, Copy, PartialEq, Eq, Debug, Structural)]
pub enum Reg {
    RccCtlr,
    RccCfgr0,
    RccApb2Pcenr,
    RccApb1Pcenr,
    RccBdctlr,
    RccRstsckr,
    ExtendCtr,
    PwrCtlr,
    RtcCtlrh,
    RtcCtlrl,
    RtcPscrh,
    RtcPscrl,
    RtcAlrmh,
    RtcAlrml,
    AfioPcfr,
    ExtiIntenr,
    ExtiRtenr,
    ExtiIntfr,
    PficIenr2,
    PficSctlr,
    StkCtlr,
    StkCntl,
    StkCnth,
    Usart1Statr,
    Usart1Datar,
    Usart1Brr,
    Usart1Ctlr1,
    Usart1Ctlr3,
    Spi1Ctlr1,
    Spi1Statr,
    Spi1Datar,
    I2c1Ctlr1,
    I2c1Ctlr2,
    I2c1Datar,
    I2c1Star1,
    I2c1Star2,
    I2c1Ckcfgr,
    AdcStatr,
    AdcCtlr2,
    AdcSamptr1,
    AdcSamptr2,
    AdcRsqr1,
    AdcRsqr3,
    AdcRdatar,
    Tim1Ctlr1,
    Tim1Dmaintenr,
    Tim1Intfr,
    Tim1Cnt,
    Tim1Psc,
    Tim1Atrlr,
    Gpio(Port, PortReg),
}

/// One step of a register program.
#[derive(Clone, Copy, PartialEq, Eq, Debug, Structural)]
pub enum RegOp {
    /// Read the register, clear the bits of `clear`, set the bits of `set`,
    /// write it back.
    Modify { reg: Reg, clear: u32, set: u32 },
    /// Write `value` to the register.
    Write { reg: Reg, value: u32 },
    /// Read the register until every bit of `mask` is set.
    WaitSet { reg: Reg, mask: u32 },
    /// Read the register until every bit of `mask` is clear.
    WaitClear { reg: Reg, mask: u32 },
    /// Read the register until it is not zero.
    WaitNonZero { reg: Reg },
}

/// The word with the bits of `clear` cleared and then the bits of `set` set.
pub open spec fn modified(word: u32, clear: u32, set: u32) -> u32 {
    (word & !clear) | set
}

/// The `width`-bit field of `word` that starts at bit `offset`.
pub open spec fn field(word: u32, offset: u32, width: u32) -> u32 {
    (word >> offset) & low_bits(width)
}

/// A word whose lowest `width` bits are set, for a width from 1 to 32.
pub open spec fn low_bits(width: u32) -> u32 {
    0xffff_ffffu32 >> ((32 - width) as u32)
}

/// The read-modify-write that stores `value` in the `width`-bit field at
/// `offset`.
pub open spec fn field_update(reg: Reg, offset: u32, width: u32, value: u32) -> RegOp {
    RegOp::Modify { reg, clear: low_bits(width) << offset, set: value << offset }
}

/// The read-modify-write that sets the bits of `bits`.
pub open spec fn set_bits(reg: Reg, bits: u32) -> RegOp {
    RegOp::Modify { reg, clear: 0, set: bits }
}

/// The read-modify-write that clears the bits of `bits`.
pub open spec fn clear_bits(reg: Reg, bits: u32) -> RegOp {
    RegOp::Modify { reg, clear: bits, set: 0 }
}

impl RegOp {
    /// The register that the operation addresses.
    pub open spec fn target(self) -> Reg {
        match self {
            RegOp::Modify { reg, .. } => reg,
            RegOp::Write { reg, .. } => reg,
            RegOp::WaitSet { reg, .. } => reg,
            RegOp::WaitClear { reg, .. } => reg,
            RegOp::WaitNonZero { reg } => reg,
        }
    }

    /// What the operation leaves in its register, as far as software
    /// decides it, when the register held `before`.
    pub open spec fn result(self, before: u32) -> u32 {
        match self {
            RegOp::Modify { clear, set, .. } => modified(before, clear, set),
            RegOp::Write { value, .. } => value,
            RegOp::WaitSet { .. } => before,
            RegOp::WaitClear { .. } => before,
            RegOp::WaitNonZero { .. } => before,
        }
    }

    /// The register that the operation addresses.
    pub fn reg(&self) -> (r: Reg)
        ensures
            r == self.target(),
    {
        match self {
            RegOp::Modify { reg, .. } => *reg,
            RegOp::Write { reg, .. } => *reg,
            RegOp::WaitSet { reg, .. } => *reg,
            RegOp::WaitClear { reg, .. } => *reg,
            RegOp::WaitNonZero { reg } => *reg,
        }
    }

    /// The word that the operation leaves in a register that held `before`.
    pub fn apply(&self, before: u32) -> (after: u32)
        ensures
            after == self.result(before),
    {
        match self {
            RegOp::Modify { clear, set, .. } => (before & !*clear) | *set,
            RegOp::Write { value, .. } => *value,
            RegOp::WaitSet { .. } => before,
            RegOp::WaitClear { .. } => before,
            RegOp::WaitNonZero { .. } => before,
        }
    }

    /// A read-modify-write that sets the bits of `bits` and keeps the others.
    pub fn set(reg: Reg, bits: u32) -> (op: RegOp)
        ensures
            op == set_bits(reg, bits),
    {
        RegOp::Modify { reg, clear: 0, set: bits }
    }

    /// A read-modify-write that clears the bits of `bits` and keeps the
    /// others.
    pub fn clear(reg: Reg, bits: u32) -> (op: RegOp)
        ensures
            op == clear_bits(reg, bits),
    {
        RegOp::Modify { reg, clear: bits, set: 0 }
    }

    /// A read-modify-write that stores `value` in the `width`-bit field at
    /// `offset` and keeps every other bit.
    pub fn set_field(reg: Reg, offset: u32, width: u32, value: u32) -> (op: RegOp)
        requires
            0 < width,
            offset + width <= 32,
            value <= low_bits(width),
        ensures
            op == field_update(reg, offset, width, value),
            forall|w: u32| field(#[trigger] op.result(w), offset, width) == value,
            forall|w: u32| #[trigger] op.result(w) & !(low_bits(width) << offset) == w & !(low_bits(width) << offset),
    {
        let ones: u32 = 0xffff_ffffu32 >> (32 - width);
        proof {
            lemma_set_field(offset, width, value);
        }
        RegOp::Modify { reg, clear: ones << offset, set: value << offset }
    }
}

/// Storing a value in a field makes the field read back as that value and
/// leaves the bits outside the field as they were.
pub proof fn lemma_set_field(offset: u32, width: u32, value: u32)
    requires
        0 < width,
        offset + width <= 32,
        value <= low_bits(width),
    ensures
        forall|w: u32|
            field(
                #[trigger] modified(w, low_bits(width) << offset, value << offset),
                offset,
                width,
            ) == value,
        forall|w: u32|
            #[trigger] modified(w, low_bits(width) << offset, value << offset) & !(low_bits(width)
                << offset) == w & !(low_bits(width) << offset),
{
    let m = low_bits(width);
    assert forall|w: u32|
        field(#[trigger] modified(w, m << offset, value << offset), offset, width) == value by {
        assert(((((w & !(m << offset)) | (value << offset)) >> offset) & m) == value)
            by (bit_vector)
            requires
                0 < width,
                offset + width <= 32,
                m == 0xffff_ffffu32 >> ((32 - width) as u32),
                value <= m,
        ;
    }
    assert forall|w: u32| #[trigger]
        modified(w, m << offset, value << offset) & !(m << offset) == w & !(m << offset) by {
        assert(((w & !(m << offset)) | (value << offset)) & !(m << offset) == w & !(m << offset))
            by (bit_vector)
            requires
                0 < width,
                offset + width <= 32,
                m == 0xffff_ffffu32 >> ((32 - width) as u32),
                value <= m,
        ;
    }
}

/// The masks of the field widths that the drivers use.
pub proof fn lemma_low_bits()
    ensures
        low_bits(1) == 0x1,
        low_bits(2) == 0x3,
        low_bits(3) == 0x7,
        low_bits(4) == 0xf,
        low_bits(5) == 0x1f,
        low_bits(6) == 0x3f,
        low_bits(16) == 0xffff,
{
    assert(0xffff_ffffu32 >> 31u32 == 0x1 && 0xffff_ffffu32 >> 30u32 == 0x3 && 0xffff_ffffu32
        >> 29u32 == 0x7 && 0xffff_ffffu32 >> 28u32 == 0xf && 0xffff_ffffu32 >> 27u32 == 0x1f
        && 0xffff_ffffu32 >> 26u32 == 0x3f && 0xffff_ffffu32 >> 16u32 == 0xffff) by (bit_vector);
}

/// What a program leaves in the register `reg` that held `word`, as far as
/// software decides it: each operation on that register acts in turn, and
/// operations on other registers pass it by.
pub open spec fn run(ops: Seq<RegOp>, reg: Reg, word: u32) -> u32
    decreases ops.len(),
{
    if ops.len() == 0 {
        word
    } else {
        let before = run(ops.drop_last(), reg, word);
        if ops.last().target() == reg {
            ops.last().result(before)
        } else {
            before
        }
    }
}

/// What one operation leaves in the register `reg` that held `word`.
pub open spec fn step(op: RegOp, reg: Reg, word: u32) -> u32 {
    if op.target() == reg {
        op.result(word)
    } else {
        word
    }
}

/// Running a program with one more operation at its end is running the
/// program and then that operation.
pub proof fn lemma_run_push(ops: Seq<RegOp>, op: RegOp, reg: Reg, word: u32)
    ensures
        run(ops.push(op), reg, word) == step(op, reg, run(ops, reg, word)),
{
    assert(ops.push(op).drop_last() =~= ops);
}

/// Running two programs one after the other is running the second on what
/// the first has left.
pub proof fn lemma_run_concat(first: Seq<RegOp>, second: Seq<RegOp>, reg: Reg, word: u32)
    ensures
        run(first + second, reg, word) == run(second, reg, run(first, reg, word)),
    decreases second.len(),
{
    if second.len() == 0 {
        assert(first + second =~= first);
    } else {
        assert((first + second).drop_last() =~= first + second.drop_last());
        lemma_run_concat(first, second.drop_last(), reg, word);
    }
}

/// A program whose operations all address other registers leaves `reg` as
/// it was.
pub proof fn lemma_run_elsewhere(ops: Seq<RegOp>, reg: Reg, word: u32)
    requires
        forall|i: int| 0 <= i < ops.len() ==> (#[trigger] ops[i]).target() != reg,
    ensures
        run(ops, reg, word) == word,
    decreases ops.len(),
{
    if ops.len() > 0 {
        lemma_run_elsewhere(ops.drop_last(), reg, word);
    }
}

/// The word that a program leaves in the register `reg` that held `word`.
pub fn run_on(ops: &Vec<RegOp>, reg: Reg, word: u32) -> (after: u32)
    ensures
        after == run(ops@, reg, word),
{
    let mut after: u32 = word;
    let mut i: usize = 0;
    assert(ops@.take(0) =~= Seq::<RegOp>::empty());
    while i < ops.len()
        invariant
            i <= ops.len(),
            after == run(ops@.take(i as int), reg, word),
        decreases ops.len() - i,
    {
        let op = ops[i];
        proof {
            assert(ops@.take(i as int + 1) =~= ops@.take(i as int).push(op));
            lemma_run_push(ops@.take(i as int), op, reg, word);
        }
        if op.reg() == reg {
            after = op.apply(after);
        }
        i = i + 1;
    }
    assert(ops@.take(i as int) =~= ops@);
    after
}

} // verus!
