//! Delays: busy waits on the system tick counter, and sleeps that end on
//! an alarm of the real-time counter.

use crate::rcc::Clocks;
use crate::rcc_program::{PWR_DBP, RTC_CNF, RTC_RTOFF};
use crate::regs::{clear_bits, set_bits, Reg, RegOp};
use crate::systick::{wait_program, wait_ticks};
use vstd::prelude::*;

verus! {

/// Real-time counter: a second has passed.
pub const RTC_SECF: u32 = 0x0000_0001;

/// Real-time counter: the alarm has fired.
pub const RTC_ALRF: u32 = 0x0000_0002;

/// Real-time counter: the alarm raises an interrupt.
pub const RTC_ALRIE: u32 = 0x0000_0002;

/// External interrupts: line 17, which carries the alarm.
pub const EXTI_LINE17: u32 = 0x0002_0000;

/// Interrupt controller, second enable word: the alarm's interrupt.
pub const PFIC_RTCALARM: u32 = 0x0200_0000;

/// Power control: deep sleep powers down.
pub const PWR_PDDS: u32 = 0x0000_0002;

/// Interrupt controller: sleep is deep sleep.
pub const PFIC_SLEEPDEEP: u32 = 0x0000_0004;

/// Sleeps shorter than this many milliseconds are busy waits.
pub const SHORT_SLEEP_MS: u32 = 10;

/// Counter ticks by which an alarm is set early, to make up for the time
/// that setting it takes.
pub const ALARM_LEAD: u32 = 3;

/// Longest sleep in seconds: one more would not fit in milliseconds.
pub const SLEEP_SEC_MAX: u32 = 4_294_967;

/// The delay services of a frozen clock configuration.
pub struct Delay {
    hclk: u32,
}

/// How a sleep begins.
pub enum Sleep {
    /// Too short for an alarm: carry out the busy wait.
    Busy(Vec<RegOp>),
    /// Carry out these operations, which wait for the counter's next tick,
    /// then read the counter and arm the alarm with `Delay::alarm`.
    Alarm(Vec<RegOp>),
}

/// Ticks of a busy wait of `us` microseconds at a core clock of `hclk`:
/// microseconds times whole megahertz, divided by eight.
pub open spec fn busy_ticks(hclk: int, us: int) -> int {
    (us * (hclk / 1_000_000)) / 8
}

/// The operations that wait for the real-time counter's next tick.
pub open spec fn tick_sync_program() -> Seq<RegOp> {
    seq![
        clear_bits(Reg::RtcCtlrl, RTC_SECF),
        RegOp::WaitSet { reg: Reg::RtcCtlrl, mask: RTC_SECF },
    ]
}

/// The counter value of the two halves read from the real-time counter.
pub open spec fn counter_value(high: u16, low: u16) -> int {
    high * 0x1_0000 + low
}

/// The operations that set the alarm to `wake` and let it interrupt: the
/// backup domain is opened, the alarm is written in configuration mode
/// with its flag cleared, the domain is closed, and the alarm's line and
/// interrupt are enabled.
pub open spec fn alarm_program(wake: int) -> Seq<RegOp> {
    seq![
        set_bits(Reg::PwrCtlr, PWR_DBP),
        RegOp::WaitSet { reg: Reg::RtcCtlrl, mask: RTC_RTOFF },
        set_bits(Reg::RtcCtlrl, RTC_CNF),
        RegOp::Write { reg: Reg::RtcAlrmh, value: (wake / 0x1_0000) as u32 },
        RegOp::Write { reg: Reg::RtcAlrml, value: (wake % 0x1_0000) as u32 },
        clear_bits(Reg::RtcCtlrl, (RTC_CNF | RTC_ALRF)),
        RegOp::WaitSet { reg: Reg::RtcCtlrl, mask: RTC_RTOFF },
        clear_bits(Reg::PwrCtlr, PWR_DBP),
        set_bits(Reg::ExtiIntenr, EXTI_LINE17),
        set_bits(Reg::ExtiRtenr, EXTI_LINE17),
        RegOp::Write { reg: Reg::PficIenr2, value: PFIC_RTCALARM },
        set_bits(Reg::RtcCtlrh, RTC_ALRIE),
    ]
}

/// The operations that select plain sleep, to be carried out once
/// interrupts are enabled and before waiting for one.
pub open spec fn doze_program() -> Seq<RegOp> {
    seq![clear_bits(Reg::PwrCtlr, PWR_PDDS), clear_bits(Reg::PficSctlr, PFIC_SLEEPDEEP)]
}

/// The operations with which the alarm's handler acknowledges it.
pub open spec fn acknowledge_program() -> Seq<RegOp> {
    seq![clear_bits(Reg::RtcCtlrl, RTC_ALRF), set_bits(Reg::ExtiIntfr, EXTI_LINE17)]
}

impl Delay {
    /// The core clock that the delays were made for.
    pub closed spec fn core_clock(&self) -> int {
        self.hclk as int
    }

    /// The core clock is a 32-bit frequency.
    pub proof fn lemma_core_clock_range(&self)
        ensures
            0 <= self.core_clock() <= u32::MAX,
    {
    }

    /// The delay services at the core clock of `clocks`.
    pub fn new(clocks: &Clocks) -> (r: Self)
        ensures
            r.core_clock() == clocks@.hclk,
    {
        Delay { hclk: clocks.hclk().0 }
    }

    /// The core clock in hertz.
    pub fn hclk(&self) -> (r: u32)
        ensures
            r == self.core_clock(),
    {
        self.hclk
    }

    /// The operations that wait `us` microseconds.
    pub fn delay_us(&mut self, us: u32) -> (ops: Vec<RegOp>)
        requires
            us * (old(self).core_clock() / 1_000_000) <= u32::MAX,
        ensures
            ops@ == wait_program(busy_ticks(old(self).core_clock(), us as int)),
            final(self).core_clock() == old(self).core_clock(),
    {
        let count: u32 = (us * (self.hclk / 1_000_000)) / 8;
        wait_ticks(count)
    }

    /// The operations that wait `ms` milliseconds.
    pub fn delay_ms(&mut self, ms: u32) -> (ops: Vec<RegOp>)
        requires
            ms * 1_000 <= u32::MAX,
            ms * 1_000 * (old(self).core_clock() / 1_000_000) <= u32::MAX,
        ensures
            ops@ == wait_program(busy_ticks(old(self).core_clock(), ms * 1_000)),
            final(self).core_clock() == old(self).core_clock(),
    {
        self.delay_us(ms * 1_000)
    }

    /// How a sleep of `duration` milliseconds begins: below ten
    /// milliseconds with a busy wait, from there with the wait for the
    /// real-time counter's next tick.
    pub fn sleep_ms(&mut self, duration: u32) -> (r: Sleep)
        requires
            duration < SHORT_SLEEP_MS ==> duration * 1_000 * (old(self).core_clock() / 1_000_000)
                <= u32::MAX,
        ensures
            final(self).core_clock() == old(self).core_clock(),
            match r {
                Sleep::Busy(ops) => duration < SHORT_SLEEP_MS && ops@ == wait_program(
                    busy_ticks(old(self).core_clock(), duration * 1_000),
                ),
                Sleep::Alarm(ops) => duration >= SHORT_SLEEP_MS && ops@ == tick_sync_program(),
            },
    {
        if duration < SHORT_SLEEP_MS {
            Sleep::Busy(self.delay_ms(duration))
        } else {
            let mut ops: Vec<RegOp> = Vec::new();
            ops.push(RegOp::clear(Reg::RtcCtlrl, RTC_SECF));
            ops.push(RegOp::WaitSet { reg: Reg::RtcCtlrl, mask: RTC_SECF });
            assert(ops@ =~= tick_sync_program());
            Sleep::Alarm(ops)
        }
    }

    /// How a sleep of `duration` seconds begins.
    pub fn sleep_sec(&mut self, duration: u32) -> (r: Sleep)
        requires
            duration <= SLEEP_SEC_MAX,
        ensures
            final(self).core_clock() == old(self).core_clock(),
            match r {
                Sleep::Busy(ops) => duration == 0 && ops@ == wait_program(0),
                Sleep::Alarm(ops) => duration > 0 && ops@ == tick_sync_program(),
            },
    {
        self.sleep_ms(duration * 1_000)
    }

    /// The operations that arm the alarm for a sleep of `duration`
    /// milliseconds, given the two halves just read from the real-time
    /// counter, which ticks once a millisecond: the alarm is set
    /// `duration` ticks ahead, less three for the time this takes.
    pub fn alarm(&self, high: u16, low: u16, duration: u32) -> (ops: Vec<RegOp>)
        requires
            ALARM_LEAD <= counter_value(high, low) + duration <= u32::MAX,
        ensures
            ops@ == alarm_program(counter_value(high, low) + duration - ALARM_LEAD),
    {
        let now: u32 = ((high as u32) << 16) | (low as u32);
        proof {
            let h = high as u32;
            let l = low as u32;
            assert((h << 16) | l == h * 0x1_0000 + l) by (bit_vector)
                requires
                    h <= 0xffff,
                    l <= 0xffff,
            ;
        }
        let wake: u32 = now + duration - ALARM_LEAD;
        let wake_high: u32 = wake >> 16;
        let wake_low: u32 = wake & 0xffff;
        proof {
            assert(wake >> 16 == wake / 0x1_0000) by (bit_vector);
            assert(wake & 0xffff == wake % 0x1_0000) by (bit_vector);
        }
        let mut ops: Vec<RegOp> = Vec::new();
        ops.push(RegOp::set(Reg::PwrCtlr, PWR_DBP));
        ops.push(RegOp::WaitSet { reg: Reg::RtcCtlrl, mask: RTC_RTOFF });
        ops.push(RegOp::set(Reg::RtcCtlrl, RTC_CNF));
        ops.push(RegOp::Write { reg: Reg::RtcAlrmh, value: wake_high });
        ops.push(RegOp::Write { reg: Reg::RtcAlrml, value: wake_low });
        ops.push(RegOp::clear(Reg::RtcCtlrl, RTC_CNF | RTC_ALRF));
        ops.push(RegOp::WaitSet { reg: Reg::RtcCtlrl, mask: RTC_RTOFF });
        ops.push(RegOp::clear(Reg::PwrCtlr, PWR_DBP));
        ops.push(RegOp::set(Reg::ExtiIntenr, EXTI_LINE17));
        ops.push(RegOp::set(Reg::ExtiRtenr, EXTI_LINE17));
        ops.push(RegOp::Write { reg: Reg::PficIenr2, value: PFIC_RTCALARM });
        ops.push(RegOp::set(Reg::RtcCtlrh, RTC_ALRIE));
        assert(ops@ =~= alarm_program(counter_value(high, low) + duration - ALARM_LEAD));
        ops
    }

    /// The operations that select plain sleep.
    pub fn doze(&self) -> (ops: Vec<RegOp>)
        ensures
            ops@ == doze_program(),
    {
        let mut ops: Vec<RegOp> = Vec::new();
        ops.push(RegOp::clear(Reg::PwrCtlr, PWR_PDDS));
        ops.push(RegOp::clear(Reg::PficSctlr, PFIC_SLEEPDEEP));
        assert(ops@ =~= doze_program());
        ops
    }

    /// The operations with which the alarm's handler acknowledges it.
    pub fn rtc_handler() -> (ops: Vec<RegOp>)
        ensures
            ops@ == acknowledge_program(),
    {
        let mut ops: Vec<RegOp> = Vec::new();
        ops.push(RegOp::clear(Reg::RtcCtlrl, RTC_ALRF));
        ops.push(RegOp::set(Reg::ExtiIntfr, EXTI_LINE17));
        assert(ops@ =~= acknowledge_program());
        ops
    }
}

} // verus!
