//! The analog-to-digital converter: its clock, its channels, and the
//! operations of a single conversion.

use crate::delay::{busy_ticks, Delay};
use crate::rcc::Clocks;
use crate::regs::{clear_bits, field_update, set_bits, Port, Reg, RegOp};
use crate::systick::wait_program;
use vstd::prelude::*;

verus! {

/// Highest clock that the converter takes.
pub const ADC_CLOCK_MAX: u32 = 14_000_000;

/// Second peripheral bus: converter clocked.
pub const APB2_ADCEN: u32 = 0x0000_0200;

/// Clock configuration: offset of the converter's prescaler, two bits.
pub const CFGR0_ADCPRE: u32 = 14;

/// Status: end of conversion.
pub const STATR_EOC: u32 = 0x0000_0002;

/// Control 2: converter on; set again, it starts a conversion.
pub const CTLR2_ADON: u32 = 0x0000_0001;

/// Control 2: calibration running.
pub const CTLR2_CAL: u32 = 0x0000_0004;

/// Control 2: calibration reset running.
pub const CTLR2_RSTCAL: u32 = 0x0000_0008;

/// Control 2: temperature sensor and reference connected.
pub const CTLR2_TSVREFE: u32 = 0x0080_0000;

/// The channel of the internal temperature sensor.
pub const TEMPERATURE_CHANNEL: u8 = 16;

/// The slowest sampling for every channel: three set bits each.
pub const SAMPLE_SLOWEST: u32 = 0xffff_ffff;

/// The converter with the delay that its start-up needs.
pub struct Adc<ADC> {
    adc: ADC,
    delay: Delay,
    clock: u32,
}

/// The divisor of the converter's clock for a bus clock: two up to twice
/// the highest converter clock, then four, six, and eight.
pub open spec fn prescaler_divisor(pclk2: int) -> int {
    let ratio = pclk2 / (ADC_CLOCK_MAX as int);
    if ratio <= 1 {
        2
    } else if ratio <= 3 {
        4
    } else if ratio <= 5 {
        6
    } else {
        8
    }
}

/// The prescaler field that selects `prescaler_divisor(pclk2)`: half the
/// divisor, less one.
pub open spec fn prescaler_code(pclk2: int) -> u32 {
    (prescaler_divisor(pclk2) / 2 - 1) as u32
}

/// The channel of the pin `index` of `port` in analog mode, if the
/// converter reaches that pin: bank A pins 0 to 7 are channels 0 to 7,
/// bank B pins 0 and 1 are channels 8 and 9.
pub open spec fn channel_of(port: Port, index: u8) -> Option<u8> {
    match port {
        Port::A => if index < 8 {
            Some(index)
        } else {
            None
        },
        Port::B => if index < 2 {
            Some((index + 8) as u8)
        } else {
            None
        },
    }
}

/// The operations that clock the converter and select the slowest
/// sampling on every channel.
pub open spec fn setup_program(pclk2: int) -> Seq<RegOp> {
    seq![
        set_bits(Reg::RccApb2Pcenr, APB2_ADCEN),
        field_update(Reg::RccCfgr0, CFGR0_ADCPRE, 2, prescaler_code(pclk2)),
        RegOp::Write { reg: Reg::AdcSamptr1, value: SAMPLE_SLOWEST },
        RegOp::Write { reg: Reg::AdcSamptr2, value: SAMPLE_SLOWEST },
    ]
}

/// The operations that wake the converter: on, a microsecond to settle,
/// on again.
pub open spec fn power_up_program(hclk: int) -> Seq<RegOp> {
    seq![set_bits(Reg::AdcCtlr2, CTLR2_ADON)] + wait_program(busy_ticks(hclk, 1)) + seq![
        set_bits(Reg::AdcCtlr2, CTLR2_ADON),
    ]
}

/// The operation that switches the converter off.
pub open spec fn power_down_program() -> Seq<RegOp> {
    seq![clear_bits(Reg::AdcCtlr2, CTLR2_ADON)]
}

/// The operations of one conversion of `channel`, up to the point where
/// the result waits in the data register: a sequence of one, that channel
/// first, start, and the wait for the end.
pub open spec fn conversion_program(channel: u8) -> Seq<RegOp> {
    seq![
        field_update(Reg::AdcRsqr3, 0, 5, channel as u32),
        field_update(Reg::AdcRsqr1, 20, 4, 1),
        set_bits(Reg::AdcCtlr2, CTLR2_ADON),
        RegOp::WaitSet { reg: Reg::AdcStatr, mask: STATR_EOC },
    ]
}

/// The operations of a calibration, up to the point where its result
/// waits in the data register.
pub open spec fn calibration_program(hclk: int) -> Seq<RegOp> {
    power_up_program(hclk) + wait_program(busy_ticks(hclk, 10)) + seq![
        set_bits(Reg::AdcCtlr2, CTLR2_RSTCAL),
        RegOp::WaitClear { reg: Reg::AdcCtlr2, mask: CTLR2_RSTCAL },
        set_bits(Reg::AdcCtlr2, CTLR2_CAL),
        RegOp::WaitClear { reg: Reg::AdcCtlr2, mask: CTLR2_CAL },
    ]
}

/// The prescaler of the converter's clock for a bus clock: the field
/// value and the clock that results.
pub fn adc_prescaler(pclk2: u32) -> (r: (u32, u32))
    ensures
        r.0 == prescaler_code(pclk2 as int),
        r.1 == pclk2 as int / prescaler_divisor(pclk2 as int),
        r.0 <= 3,
{
    let ratio: u32 = pclk2 / ADC_CLOCK_MAX;
    if ratio <= 1 {
        (0b00, pclk2 / 2)
    } else if ratio <= 3 {
        (0b01, pclk2 / 4)
    } else if ratio <= 5 {
        (0b10, pclk2 / 6)
    } else {
        (0b11, pclk2 / 8)
    }
}

/// The channel of the pin `index` of `port`, if the converter reaches it.
pub fn channel(port: Port, index: u8) -> (r: Option<u8>)
    ensures
        r == channel_of(port, index),
{
    match port {
        Port::A => if index < 8 {
            Some(index)
        } else {
            None
        },
        Port::B => if index < 2 {
            Some(index + 8)
        } else {
            None
        },
    }
}

/// The sample in a word read from the data register: its low sixteen
/// bits.
pub fn sample(rdatar: u32) -> (r: u16)
    ensures
        r == rdatar % 0x1_0000,
{
    let low: u32 = rdatar & 0xffff;
    proof {
        assert(rdatar & 0xffff == rdatar % 0x1_0000) by (bit_vector);
    }
    low as u16
}

fn push_all(ops: &mut Vec<RegOp>, more: Vec<RegOp>)
    ensures
        final(ops)@ == old(ops)@ + more@,
{
    let mut more = more;
    ops.append(&mut more);
}

impl<ADCX> Adc<ADCX> {
    /// The core clock that the converter's delays count in.
    pub closed spec fn core_clock(&self) -> int {
        self.delay.core_clock()
    }

    /// The converter's clock.
    pub closed spec fn converter_clock(&self) -> int {
        self.clock as int
    }

    /// Takes the converter and gives the operations that set it up under
    /// `clocks`.
    pub fn adc(adc: ADCX, clocks: &Clocks) -> (r: (Self, Vec<RegOp>))
        ensures
            r.1@ == setup_program(clocks@.pclk2),
            r.0.core_clock() == clocks@.hclk,
            r.0.converter_clock() == clocks@.pclk2 / prescaler_divisor(clocks@.pclk2),
    {
        let (code, clock): (u32, u32) = adc_prescaler(clocks.pclk2().0);
        proof {
            crate::regs::lemma_low_bits();
        }
        let mut ops: Vec<RegOp> = Vec::new();
        ops.push(RegOp::set(Reg::RccApb2Pcenr, APB2_ADCEN));
        ops.push(RegOp::set_field(Reg::RccCfgr0, CFGR0_ADCPRE, 2, code));
        ops.push(RegOp::Write { reg: Reg::AdcSamptr1, value: SAMPLE_SLOWEST });
        ops.push(RegOp::Write { reg: Reg::AdcSamptr2, value: SAMPLE_SLOWEST });
        assert(ops@ =~= setup_program(clocks@.pclk2));
        (Adc { adc, delay: Delay::new(clocks), clock }, ops)
    }

    /// The converter's clock in hertz.
    pub fn clock(&self) -> (r: u32)
        ensures
            r == self.converter_clock(),
    {
        self.clock
    }

    /// The operations that wake the converter.
    pub fn power_up(&mut self) -> (ops: Vec<RegOp>)
        ensures
            ops@ == power_up_program(old(self).core_clock()),
            final(self).core_clock() == old(self).core_clock(),
            final(self).converter_clock() == old(self).converter_clock(),
    {
        let mut ops: Vec<RegOp> = Vec::new();
        ops.push(RegOp::set(Reg::AdcCtlr2, CTLR2_ADON));
        proof {
            self.delay.lemma_core_clock_range();
        }
        let settle = self.delay.delay_us(1);
        push_all(&mut ops, settle);
        ops.push(RegOp::set(Reg::AdcCtlr2, CTLR2_ADON));
        assert(ops@ =~= power_up_program(old(self).core_clock()));
        ops
    }

    /// The operation that switches the converter off.
    pub fn power_down(&self) -> (ops: Vec<RegOp>)
        ensures
            ops@ == power_down_program(),
    {
        let mut ops: Vec<RegOp> = Vec::new();
        ops.push(RegOp::clear(Reg::AdcCtlr2, CTLR2_ADON));
        assert(ops@ =~= power_down_program());
        ops
    }

    /// The operations of one conversion of `channel`; after them the
    /// result is read from the data register.
    pub fn do_conversion(&self, channel: u8) -> (ops: Vec<RegOp>)
        requires
            channel < 32,
        ensures
            ops@ == conversion_program(channel),
    {
        proof {
            crate::regs::lemma_low_bits();
        }
        let mut ops: Vec<RegOp> = Vec::new();
        ops.push(RegOp::set_field(Reg::AdcRsqr3, 0, 5, channel as u32));
        ops.push(RegOp::set_field(Reg::AdcRsqr1, 20, 4, 1));
        ops.push(RegOp::set(Reg::AdcCtlr2, CTLR2_ADON));
        ops.push(RegOp::WaitSet { reg: Reg::AdcStatr, mask: STATR_EOC });
        assert(ops@ =~= conversion_program(channel));
        ops
    }

    /// A conversion of one channel from a sleeping converter: the
    /// operations before the result is read from the data register, and
    /// those after.
    pub fn read(&mut self, channel: u8) -> (r: (Vec<RegOp>, Vec<RegOp>))
        requires
            channel < 32,
        ensures
            r.0@ == power_up_program(old(self).core_clock()) + conversion_program(channel),
            r.1@ == power_down_program(),
            final(self).core_clock() == old(self).core_clock(),
            final(self).converter_clock() == old(self).converter_clock(),
    {
        let mut before = self.power_up();
        let convert = self.do_conversion(channel);
        push_all(&mut before, convert);
        (before, self.power_down())
    }

    /// A reading of the internal temperature sensor: the operations before
    /// the result is read from the data register, and those after.
    pub fn read_temp(&mut self) -> (r: (Vec<RegOp>, Vec<RegOp>))
        ensures
            r.0@ == seq![set_bits(Reg::AdcCtlr2, CTLR2_TSVREFE)] + power_up_program(
                old(self).core_clock(),
            ) + conversion_program(TEMPERATURE_CHANNEL),
            r.1@ == seq![clear_bits(Reg::AdcCtlr2, CTLR2_TSVREFE)] + power_down_program(),
            final(self).core_clock() == old(self).core_clock(),
            final(self).converter_clock() == old(self).converter_clock(),
    {
        let mut before: Vec<RegOp> = Vec::new();
        before.push(RegOp::set(Reg::AdcCtlr2, CTLR2_TSVREFE));
        let wake = self.power_up();
        push_all(&mut before, wake);
        let convert = self.do_conversion(TEMPERATURE_CHANNEL);
        push_all(&mut before, convert);
        let mut after: Vec<RegOp> = Vec::new();
        after.push(RegOp::clear(Reg::AdcCtlr2, CTLR2_TSVREFE));
        let sleep = self.power_down();
        push_all(&mut after, sleep);
        assert(before@ =~= seq![set_bits(Reg::AdcCtlr2, CTLR2_TSVREFE)] + power_up_program(
            old(self).core_clock(),
        ) + conversion_program(TEMPERATURE_CHANNEL));
        assert(after@ =~= seq![clear_bits(Reg::AdcCtlr2, CTLR2_TSVREFE)] + power_down_program());
        (before, after)
    }

    /// A calibration: the operations before its result is read from the
    /// data register, and those after.
    pub fn calibration(&mut self) -> (r: (Vec<RegOp>, Vec<RegOp>))
        ensures
            r.0@ == calibration_program(old(self).core_clock()),
            r.1@ == power_down_program(),
            final(self).core_clock() == old(self).core_clock(),
            final(self).converter_clock() == old(self).converter_clock(),
    {
        let mut before = self.power_up();
        proof {
            self.delay.lemma_core_clock_range();
        }
        let settle = self.delay.delay_us(10);
        push_all(&mut before, settle);
        before.push(RegOp::set(Reg::AdcCtlr2, CTLR2_RSTCAL));
        before.push(RegOp::WaitClear { reg: Reg::AdcCtlr2, mask: CTLR2_RSTCAL });
        before.push(RegOp::set(Reg::AdcCtlr2, CTLR2_CAL));
        before.push(RegOp::WaitClear { reg: Reg::AdcCtlr2, mask: CTLR2_CAL });
        assert(before@ =~= calibration_program(old(self).core_clock()));
        (before, self.power_down())
    }
}

} // verus!
