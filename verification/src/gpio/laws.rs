//! What holds of every mode transition and of every drive command, over a
//! model of the registers of one bank.

use crate::gpio::{config_nibble, config_op, config_reg, drive_op, level, PinMode};
use crate::regs::{Port, PortReg, Reg, RegOp};
use vstd::prelude::*;

verus! {

/// The registers of one bank that software decides: both configuration
/// words and the output-data word.
#[derive(Clone, Copy, PartialEq, Eq, Debug, Structural)]
pub struct PortRegs {
    pub cfglr: u32,
    pub cfghr: u32,
    pub outdr: u32,
}

/// The output-data word after `value` is written to the set register: the
/// low half sets bits, the high half clears them.
pub open spec fn after_set_write(outdr: u32, value: u32) -> u32 {
    (outdr | (value & 0xffff)) & !(value >> 16)
}

/// The output-data word after `value` is written to the clear register.
pub open spec fn after_clear_write(outdr: u32, value: u32) -> u32 {
    outdr & !(value & 0xffff)
}

impl PortRegs {
    /// The configuration word that holds the bits of pin `index`.
    pub open spec fn config_word(self, index: u8) -> u32 {
        if index < 8 {
            self.cfglr
        } else {
            self.cfghr
        }
    }

    /// The registers of bank `port` after `op`. An operation on another
    /// bank or another peripheral, or a wait, changes nothing here.
    pub open spec fn after(self, port: Port, op: RegOp) -> PortRegs {
        match op.target() {
            Reg::Gpio(p, r) => if p != port {
                self
            } else {
                match r {
                    PortReg::Cfglr => PortRegs { cfglr: op.result(self.cfglr), ..self },
                    PortReg::Cfghr => PortRegs { cfghr: op.result(self.cfghr), ..self },
                    PortReg::Outdr => PortRegs { outdr: op.result(self.outdr), ..self },
                    PortReg::Bshr => match op {
                        RegOp::Write { value, .. } => PortRegs {
                            outdr: after_set_write(self.outdr, value),
                            ..self
                        },
                        _ => self,
                    },
                    PortReg::Bcr => match op {
                        RegOp::Write { value, .. } => PortRegs {
                            outdr: after_clear_write(self.outdr, value),
                            ..self
                        },
                        _ => self,
                    },
                    PortReg::Indr => self,
                }
            },
            _ => self,
        }
    }

    /// Carries out `op` on the model of bank `port`.
    pub fn apply(&mut self, port: Port, op: RegOp)
        ensures
            *final(self) == old(self).after(port, op),
    {
        match op.reg() {
            Reg::Gpio(p, r) => {
                if p == port {
                    match r {
                        PortReg::Cfglr => {
                            self.cfglr = op.apply(self.cfglr);
                        },
                        PortReg::Cfghr => {
                            self.cfghr = op.apply(self.cfghr);
                        },
                        PortReg::Outdr => {
                            self.outdr = op.apply(self.outdr);
                        },
                        PortReg::Bshr => {
                            if let RegOp::Write { value, .. } = op {
                                self.outdr = (self.outdr | (value & 0xffff)) & !(value >> 16);
                            }
                        },
                        PortReg::Bcr => {
                            if let RegOp::Write { value, .. } = op {
                                self.outdr = self.outdr & !(value & 0xffff);
                            }
                        },
                        PortReg::Indr => {},
                    }
                }
            },
            _ => {},
        }
    }
}

/// Storing four bits at the place of one pin makes them read back there
/// and leaves the places of the other seven pins of the word alone.
proof fn lemma_nibble_bits(w: u32, ki: u32, kj: u32, n: u32)
    requires
        ki < 8,
        kj < 8,
        n <= 0xf,
    ensures
        ((((w & !(0xfu32 << (4 * ki) as u32)) | (n << (4 * ki) as u32)) >> (4 * ki) as u32) & 0xf)
            == n,
        ki != kj ==> ((((w & !(0xfu32 << (4 * ki) as u32)) | (n << (4 * ki) as u32)) >> (4
            * kj) as u32) & 0xf) == (w >> (4 * kj) as u32) & 0xf,
{
    let oi: u32 = (4 * ki) as u32;
    let oj: u32 = (4 * kj) as u32;
    assert(((((w & !(0xfu32 << oi)) | (n << oi)) >> oi) & 0xf) == n) by (bit_vector)
        requires
            ki < 8,
            oi == 4 * ki,
            n <= 0xf,
    ;
    assert(ki != kj ==> ((((w & !(0xfu32 << oi)) | (n << oi)) >> oj) & 0xf) == (w >> oj) & 0xf)
        by (bit_vector)
        requires
            ki < 8,
            kj < 8,
            oi == 4 * ki,
            oj == 4 * kj,
            n <= 0xf,
    ;
}

/// Storing four bits over four bits stored at the same place leaves only
/// the later ones.
proof fn lemma_nibble_overwrite(w: u32, k: u32, a: u32, b: u32)
    requires
        k < 8,
        a <= 0xf,
        b <= 0xf,
    ensures
        ((((w & !(0xfu32 << (4 * k) as u32)) | (b << (4 * k) as u32)) & !(0xfu32 << (4 * k) as u32))
            | (a << (4 * k) as u32)) == ((w & !(0xfu32 << (4 * k) as u32)) | (a << (4 * k) as u32)),
{
    let o: u32 = (4 * k) as u32;
    assert(((((w & !(0xfu32 << o)) | (b << o)) & !(0xfu32 << o)) | (a << o)) == ((w & !(0xfu32
        << o)) | (a << o))) by (bit_vector)
        requires
            k < 8,
            o == 4 * k,
            a <= 0xf,
            b <= 0xf,
    ;
}

/// After a transition of pin `index` into `mode`, the pin's configuration
/// bits are those of the mode.
pub proof fn lemma_transition_takes_effect(port: Port, index: u8, mode: PinMode, word: u32)
    requires
        index < 16,
    ensures
        config_nibble(config_op(port, index, mode).result(word), index) == mode.nibble(),
{
    crate::regs::lemma_low_bits();
    lemma_nibble_bits(word, (index % 8) as u32, (index % 8) as u32, mode.nibble());
}

/// A transition of pin `index` leaves the configuration bits of every
/// other pin in the same register as they were.
pub proof fn lemma_transition_keeps_other_pins(
    port: Port,
    index: u8,
    other: u8,
    mode: PinMode,
    word: u32,
)
    requires
        index < 16,
        other < 16,
        other != index,
        config_reg(other) == config_reg(index),
    ensures
        config_nibble(config_op(port, index, mode).result(word), other) == config_nibble(
            word,
            other,
        ),
{
    crate::regs::lemma_low_bits();
    lemma_nibble_bits(word, (index % 8) as u32, (other % 8) as u32, mode.nibble());
}

/// A transition of pin `index` changes neither the other configuration
/// register of its bank nor the output-data word, and nothing in another
/// bank.
pub proof fn lemma_transition_keeps_other_registers(
    port: Port,
    index: u8,
    mode: PinMode,
    regs: PortRegs,
    bank: Port,
)
    requires
        index < 16,
    ensures
        regs.after(bank, config_op(port, index, mode)).outdr == regs.outdr,
        bank != port ==> regs.after(bank, config_op(port, index, mode)) == regs,
        index < 8 ==> regs.after(bank, config_op(port, index, mode)).cfghr == regs.cfghr,
        index >= 8 ==> regs.after(bank, config_op(port, index, mode)).cfglr == regs.cfglr,
{
}

/// A pin in mode `a` that goes to mode `b` and back to `a` finds its
/// configuration register exactly as it was in mode `a`: its own bits are
/// those of `a` again and no other bit has moved.
pub proof fn lemma_round_trip(port: Port, index: u8, a: PinMode, b: PinMode, word: u32)
    requires
        index < 16,
    ensures
        ({
            let in_a = config_op(port, index, a).result(word);
            let in_b = config_op(port, index, b).result(in_a);
            let back = config_op(port, index, a).result(in_b);
            &&& back == in_a
            &&& config_nibble(back, index) == config_nibble(in_a, index)
            &&& config_nibble(back, index) == a.nibble()
        }),
{
    crate::regs::lemma_low_bits();
    let k = (index % 8) as u32;
    let in_a = config_op(port, index, a).result(word);
    lemma_nibble_overwrite(in_a, k, a.nibble(), b.nibble());
    lemma_nibble_overwrite(word, k, a.nibble(), a.nibble());
    lemma_nibble_bits(word, k, k, a.nibble());
}

/// A drive command sets the commanded level of its pin and of no other.
pub proof fn lemma_drive(port: Port, index: u8, other: u8, high: bool, regs: PortRegs)
    requires
        index < 16,
        other < 16,
    ensures
        level(regs.after(port, drive_op(port, index, high)).outdr, index) == high,
        other != index ==> level(regs.after(port, drive_op(port, index, high)).outdr, other)
            == level(regs.outdr, other),
        regs.after(port, drive_op(port, index, high)).cfglr == regs.cfglr,
        regs.after(port, drive_op(port, index, high)).cfghr == regs.cfghr,
{
    let w = regs.outdr;
    let i = index as u32;
    let j = other as u32;
    assert(((w | ((1u32 << i) & 0xffff)) & !((1u32 << i) >> 16)) & (1u32 << i) != 0) by (bit_vector)
        requires
            i < 16,
    ;
    assert((w & !((1u32 << i) & 0xffff)) & (1u32 << i) == 0) by (bit_vector)
        requires
            i < 16,
    ;
    assert(i != j ==> ((w | ((1u32 << i) & 0xffff)) & !((1u32 << i) >> 16)) & (1u32 << j) == w & (
    1u32 << j)) by (bit_vector)
        requires
            i < 16,
            j < 16,
    ;
    assert(i != j ==> (w & !((1u32 << i) & 0xffff)) & (1u32 << j) == w & (1u32 << j))
        by (bit_vector)
        requires
            i < 16,
            j < 16,
    ;
}

/// The registers of a bank after one toggle of pin `index`.
pub open spec fn toggled(regs: PortRegs, port: Port, index: u8) -> PortRegs {
    regs.after(port, drive_op(port, index, !level(regs.outdr, index)))
}

/// One toggle inverts the level last commanded; a second one restores it,
/// and with it the whole bank.
pub proof fn lemma_toggle_twice(port: Port, index: u8, regs: PortRegs)
    requires
        index < 16,
    ensures
        level(toggled(regs, port, index).outdr, index) == !level(regs.outdr, index),
        toggled(toggled(regs, port, index), port, index) == regs,
{
    let w = regs.outdr;
    let i = index as u32;
    lemma_drive(port, index, index, !level(w, index), regs);
    assert(w & (1u32 << i) != 0 ==> ((w & !((1u32 << i) & 0xffff)) | ((1u32 << i) & 0xffff)) & !((
    1u32 << i) >> 16) == w) by (bit_vector)
        requires
            i < 16,
    ;
    assert(w & (1u32 << i) == 0 ==> ((w | ((1u32 << i) & 0xffff)) & !((1u32 << i) >> 16)) & !((1u32
        << i) & 0xffff) == w) by (bit_vector)
        requires
            i < 16,
    ;
}

/// Entering a pulled input mode leaves the output-data bit of the pin at
/// the level that selects the pull: high for pull-up, low for pull-down.
pub proof fn lemma_pull_direction(port: Port, index: u8, up: bool, regs: PortRegs)
    requires
        index < 16,
    ensures
        ({
            let mode = if up {
                PinMode::PullUpInput
            } else {
                PinMode::PullDownInput
            };
            let configured = regs.after(port, config_op(port, index, mode));
            let settled = configured.after(port, drive_op(port, index, up));
            &&& crate::gpio::level_op(port, index, mode) == Some(drive_op(port, index, up))
            &&& level(settled.outdr, index) == up
            &&& config_nibble(settled.config_word(index), index) == mode.nibble()
        }),
{
    let mode = if up {
        PinMode::PullUpInput
    } else {
        PinMode::PullDownInput
    };
    let configured = regs.after(port, config_op(port, index, mode));
    lemma_drive(port, index, index, up, configured);
    lemma_transition_takes_effect(port, index, mode, regs.config_word(index));
}

} // verus!
