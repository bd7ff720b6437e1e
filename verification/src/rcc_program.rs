//! The register program of a clock configuration: which operations bring
//! the hardware to the requested clocks, in the order in which each stage
//! finds the one before it settled.

use crate::rcc::{
    ClockConfig, ClockRequest, ConfigError, Frozen, PllClkSrc, Rtc, Sysclk, CFGR, LSI,
};
use crate::rcc_model::{
    ahb_code, ahb_divisor, ahb_prescaler, apb_code, apb_divisor, apb_prescaler, rtc_prescaler,
};
use crate::regs::{clear_bits, field_update, set_bits, Reg, RegOp};
use vstd::prelude::*;

verus! {

/// Clock control: internal oscillator on.
pub const CTLR_HSION: u32 = 0x0000_0001;

/// Clock control: external oscillator on.
pub const CTLR_HSEON: u32 = 0x0001_0000;

/// Clock control: external oscillator ready.
pub const CTLR_HSERDY: u32 = 0x0002_0000;

/// Clock control: external oscillator bypassed.
pub const CTLR_HSEBYP: u32 = 0x0004_0000;

/// Clock control: PLL on.
pub const CTLR_PLLON: u32 = 0x0100_0000;

/// Clock control: PLL ready.
pub const CTLR_PLLRDY: u32 = 0x0200_0000;

/// Clock configuration: the PLL takes the external oscillator.
pub const CFGR0_PLLSRC: u32 = 0x0001_0000;

/// Clock configuration: the external oscillator is halved before the PLL.
pub const CFGR0_PLLXTPRE: u32 = 0x0002_0000;

/// Clock configuration: offset of the system-clock switch, two bits.
pub const CFGR0_SW: u32 = 0;

/// Clock configuration: offset of the core-bus prescaler, four bits.
pub const CFGR0_HPRE: u32 = 4;

/// Clock configuration: offset of the first peripheral-bus prescaler,
/// three bits.
pub const CFGR0_PPRE1: u32 = 8;

/// Clock configuration: offset of the second peripheral-bus prescaler,
/// three bits.
pub const CFGR0_PPRE2: u32 = 11;

/// Clock configuration: offset of the PLL multiplier, four bits.
pub const CFGR0_PLLMUL: u32 = 18;

/// Extension control: the internal oscillator reaches the PLL undivided.
pub const EXTEND_HSIPRE: u32 = 0x0000_0010;

/// First peripheral bus: power interface clocked.
pub const APB1_PWREN: u32 = 0x1000_0000;

/// Power control: backup domain writable.
pub const PWR_DBP: u32 = 0x0000_0100;

/// Backup domain: external low-speed oscillator on.
pub const BDCTLR_LSEON: u32 = 0x0000_0001;

/// Backup domain: external low-speed oscillator ready.
pub const BDCTLR_LSERDY: u32 = 0x0000_0002;

/// Backup domain: external low-speed oscillator bypassed.
pub const BDCTLR_LSEBYP: u32 = 0x0000_0004;

/// Backup domain: offset of the real-time counter's source, two bits.
pub const BDCTLR_RTCSEL: u32 = 8;

/// Backup domain: real-time counter on.
pub const BDCTLR_RTCEN: u32 = 0x0000_8000;

/// Reset and status: internal low-speed oscillator on.
pub const RSTSCKR_LSION: u32 = 0x0000_0001;

/// Reset and status: internal low-speed oscillator ready.
pub const RSTSCKR_LSIRDY: u32 = 0x0000_0002;

/// Real-time counter: registers synchronised.
pub const RTC_RSF: u32 = 0x0000_0008;

/// Real-time counter: configuration mode.
pub const RTC_CNF: u32 = 0x0000_0010;

/// Real-time counter: last write finished.
pub const RTC_RTOFF: u32 = 0x0000_0020;

/// The system-clock switch value of a source.
pub open spec fn sw_code(source: Option<Sysclk>) -> u32 {
    match source {
        Some(Sysclk::Hse) => 1,
        Some(Sysclk::Pll) => 2,
        _ => 0,
    }
}

/// The multiplier field for a PLL multiplier: the multiplier less two, in
/// four bits.
pub open spec fn pll_field(multiplier: int) -> u32 {
    ((multiplier - 2) % 16) as u32
}

/// The real-time counter's source value.
pub open spec fn rtcsel_code(source: Rtc) -> u32 {
    match source {
        Rtc::Lse => 1,
        Rtc::Lsi => 2,
    }
}

/// Loads a millisecond prescaler into the running counter: wait for
/// synchronisation, enter configuration mode, write both halves, leave it,
/// wait for the write to land.
pub open spec fn rtc_prescaler_ops(prescaler: int) -> Seq<RegOp> {
    seq![
        set_bits(Reg::RccBdctlr, BDCTLR_RTCEN),
        clear_bits(Reg::RtcCtlrl, RTC_RSF),
        RegOp::WaitSet { reg: Reg::RtcCtlrl, mask: RTC_RSF },
        RegOp::WaitSet { reg: Reg::RtcCtlrl, mask: RTC_RTOFF },
        set_bits(Reg::RtcCtlrl, RTC_CNF),
        RegOp::Write { reg: Reg::RtcPscrh, value: (prescaler / 0x1_0000) as u32 },
        RegOp::Write { reg: Reg::RtcPscrl, value: (prescaler % 0x1_0000) as u32 },
        clear_bits(Reg::RtcCtlrl, RTC_CNF),
        RegOp::WaitSet { reg: Reg::RtcCtlrl, mask: RTC_RTOFF },
    ]
}

impl ClockRequest {
    /// Stage one: the external oscillator, if requested, is switched on and
    /// awaited.
    pub open spec fn hse_stage(self) -> Seq<RegOp> {
        if self.hse_freq is None {
            seq![]
        } else if self.hse_bypass {
            seq![
                set_bits(Reg::RccCtlr, CTLR_HSEBYP),
                set_bits(Reg::RccCtlr, CTLR_HSEON),
                RegOp::WaitSet { reg: Reg::RccCtlr, mask: CTLR_HSERDY },
            ]
        } else {
            seq![
                RegOp::Modify { reg: Reg::RccCtlr, clear: CTLR_HSEBYP, set: CTLR_HSEON },
                RegOp::WaitSet { reg: Reg::RccCtlr, mask: CTLR_HSERDY },
            ]
        }
    }

    /// The PLL's input selector and divider.
    pub open spec fn pll_source_ops(self) -> Seq<RegOp> {
        match self.pll_source {
            Some(PllClkSrc::Hsi) => seq![
                set_bits(Reg::ExtendCtr, EXTEND_HSIPRE),
                clear_bits(Reg::RccCfgr0, CFGR0_PLLSRC),
            ],
            Some(PllClkSrc::HsiDiv2) => seq![
                clear_bits(Reg::ExtendCtr, EXTEND_HSIPRE),
                clear_bits(Reg::RccCfgr0, CFGR0_PLLSRC),
            ],
            Some(PllClkSrc::Hse) => seq![
                RegOp::Modify { reg: Reg::RccCfgr0, clear: CFGR0_PLLXTPRE, set: CFGR0_PLLSRC },
            ],
            Some(PllClkSrc::HseDiv2) => seq![
                set_bits(Reg::RccCfgr0, (CFGR0_PLLSRC | CFGR0_PLLXTPRE)),
            ],
            None => seq![],
        }
    }

    /// The multiplier that the PLL is programmed with.
    pub open spec fn pll_multiplier(self) -> int {
        match (self.pll_input(), self.pll_freq) {
            (Some(s), Some(t)) => t as int / s,
            _ => 2,
        }
    }

    /// Stage two: where the PLL feeds the system clock, its input and
    /// multiplier are programmed, and it is switched on and awaited.
    pub open spec fn pll_stage(self) -> Seq<RegOp> {
        if self.sysclk_source == Some(Sysclk::Pll) {
            self.pll_source_ops() + seq![
                field_update(Reg::RccCfgr0, CFGR0_PLLMUL, 4, pll_field(self.pll_multiplier())),
                set_bits(Reg::RccCtlr, CTLR_PLLON),
                RegOp::WaitSet { reg: Reg::RccCtlr, mask: CTLR_PLLRDY },
            ]
        } else {
            seq![]
        }
    }

    /// Stage three: the system clock is switched to its source.
    pub open spec fn switch_stage(self) -> Seq<RegOp> {
        seq![field_update(Reg::RccCfgr0, CFGR0_SW, 2, sw_code(self.sysclk_source))]
    }

    /// The core-bus prescaler field.
    pub open spec fn hpre(self) -> u8 {
        match self.hclk_freq {
            Some(f) => ahb_code(ahb_divisor(self.sysclk(), f as int)),
            None => 0,
        }
    }

    /// The prescaler field of the first peripheral bus.
    pub open spec fn ppre1(self) -> u8 {
        match self.pclk1_freq {
            Some(f) => apb_code(apb_divisor(self.hclk(), f as int)),
            None => 0,
        }
    }

    /// The prescaler field of the second peripheral bus.
    pub open spec fn ppre2(self) -> u8 {
        match self.pclk2_freq {
            Some(f) => apb_code(apb_divisor(self.hclk(), f as int)),
            None => 0,
        }
    }

    /// Stage four: the core bus is divided from the system clock, then each
    /// peripheral bus from the core bus.
    pub open spec fn bus_stage(self) -> Seq<RegOp> {
        seq![
            field_update(Reg::RccCfgr0, CFGR0_HPRE, 4, self.hpre() as u32),
            field_update(Reg::RccCfgr0, CFGR0_PPRE1, 3, self.ppre1() as u32),
            field_update(Reg::RccCfgr0, CFGR0_PPRE2, 3, self.ppre2() as u32),
        ]
    }

    /// Switches the low-speed source on, awaits it and routes it to the
    /// counter.
    pub open spec fn rtc_source_ops(self) -> Seq<RegOp> {
        match self.rtc_source {
            Some(Rtc::Lsi) => seq![
                set_bits(Reg::RccRstsckr, RSTSCKR_LSION),
                RegOp::WaitSet { reg: Reg::RccRstsckr, mask: RSTSCKR_LSIRDY },
                field_update(Reg::RccBdctlr, BDCTLR_RTCSEL, 2, rtcsel_code(Rtc::Lsi)),
            ],
            Some(Rtc::Lse) => (if self.lse_bypass {
                seq![set_bits(Reg::RccBdctlr, BDCTLR_LSEBYP)]
            } else {
                seq![]
            }) + seq![
                set_bits(Reg::RccBdctlr, BDCTLR_LSEON),
                RegOp::WaitSet { reg: Reg::RccBdctlr, mask: BDCTLR_LSERDY },
                field_update(Reg::RccBdctlr, BDCTLR_RTCSEL, 2, rtcsel_code(Rtc::Lse)),
            ],
            None => seq![],
        }
    }

    /// Stage five: where a low-speed source is requested, the backup domain
    /// is opened, the source is started and selected, the counter is given
    /// its millisecond prescaler, and the backup domain is closed again.
    pub open spec fn rtc_stage(self) -> Seq<RegOp> {
        match self.rtc_clk() {
            Some(f) => seq![
                set_bits(Reg::RccApb1Pcenr, APB1_PWREN),
                set_bits(Reg::PwrCtlr, PWR_DBP),
            ] + self.rtc_source_ops() + rtc_prescaler_ops(rtc_prescaler(f)) + seq![
                clear_bits(Reg::PwrCtlr, PWR_DBP),
            ],
            None => seq![],
        }
    }

    /// The whole program, stage after stage.
    pub open spec fn program(self) -> Seq<RegOp> {
        self.hse_stage() + self.pll_stage() + self.switch_stage() + self.bus_stage()
            + self.rtc_stage()
    }

    /// The operations that freezing the request hands out to be carried
    /// out: the program of an accepted request, none of a rejected one.
    pub open spec fn writes(self) -> Seq<RegOp> {
        if self.check() is Ok {
            self.program()
        } else {
            Seq::empty()
        }
    }
}

impl ClockConfig {
    /// The program that brings the clocks back after a sleep: the external
    /// oscillator if it was used, the PLL if it fed the system clock, the
    /// switch, and the internal oscillator off if it was not used.
    pub open spec fn restore_program(self) -> Seq<RegOp> {
        (if self.use_hse {
            seq![
                set_bits(Reg::RccCtlr, CTLR_HSEON),
                RegOp::WaitSet { reg: Reg::RccCtlr, mask: CTLR_HSERDY },
            ]
        } else {
            seq![]
        }) + (if self.source == Sysclk::Pll {
            seq![
                set_bits(Reg::RccCtlr, CTLR_PLLON),
                RegOp::WaitSet { reg: Reg::RccCtlr, mask: CTLR_PLLRDY },
            ]
        } else {
            seq![]
        }) + seq![field_update(Reg::RccCfgr0, CFGR0_SW, 2, sw_code(Some(self.source)))] + (if self.use_hsi {
            seq![]
        } else {
            seq![clear_bits(Reg::RccCtlr, CTLR_HSION)]
        })
    }
}

/// Appends the operations that load a millisecond prescaler.
fn push_rtc_prescaler(ops: &mut Vec<RegOp>, prescaler: u32)
    ensures
        final(ops)@ == old(ops)@ + rtc_prescaler_ops(prescaler as int),
{
    let high: u32 = prescaler >> 16;
    let low: u32 = prescaler & 0xffff;
    proof {
        assert(prescaler >> 16 == prescaler / 0x1_0000) by (bit_vector);
        assert(prescaler & 0xffff == prescaler % 0x1_0000) by (bit_vector);
    }
    ops.push(RegOp::set(Reg::RccBdctlr, BDCTLR_RTCEN));
    ops.push(RegOp::clear(Reg::RtcCtlrl, RTC_RSF));
    ops.push(RegOp::WaitSet { reg: Reg::RtcCtlrl, mask: RTC_RSF });
    ops.push(RegOp::WaitSet { reg: Reg::RtcCtlrl, mask: RTC_RTOFF });
    ops.push(RegOp::set(Reg::RtcCtlrl, RTC_CNF));
    ops.push(RegOp::Write { reg: Reg::RtcPscrh, value: high });
    ops.push(RegOp::Write { reg: Reg::RtcPscrl, value: low });
    ops.push(RegOp::clear(Reg::RtcCtlrl, RTC_CNF));
    ops.push(RegOp::WaitSet { reg: Reg::RtcCtlrl, mask: RTC_RTOFF });
    assert(ops@ =~= old(ops)@ + rtc_prescaler_ops(prescaler as int));
}

/// The system-clock switch value of a source.
fn switch_code(source: Option<Sysclk>) -> (r: u32)
    ensures
        r == sw_code(source),
{
    match source {
        Some(Sysclk::Hse) => 1,
        Some(Sysclk::Pll) => 2,
        _ => 0,
    }
}

impl ClockRequest {
    fn push_hse_stage(&self, ops: &mut Vec<RegOp>)
        ensures
            final(ops)@ == old(ops)@ + self.hse_stage(),
    {
        if self.hse_freq.is_some() {
            if self.hse_bypass {
                ops.push(RegOp::set(Reg::RccCtlr, CTLR_HSEBYP));
                ops.push(RegOp::set(Reg::RccCtlr, CTLR_HSEON));
            } else {
                ops.push(RegOp::Modify { reg: Reg::RccCtlr, clear: CTLR_HSEBYP, set: CTLR_HSEON });
            }
            ops.push(RegOp::WaitSet { reg: Reg::RccCtlr, mask: CTLR_HSERDY });
        }
        assert(ops@ =~= old(ops)@ + self.hse_stage());
    }

    fn push_pll_source(&self, ops: &mut Vec<RegOp>)
        ensures
            final(ops)@ == old(ops)@ + self.pll_source_ops(),
    {
        match self.pll_source {
            Some(PllClkSrc::Hsi) => {
                ops.push(RegOp::set(Reg::ExtendCtr, EXTEND_HSIPRE));
                ops.push(RegOp::clear(Reg::RccCfgr0, CFGR0_PLLSRC));
            },
            Some(PllClkSrc::HsiDiv2) => {
                ops.push(RegOp::clear(Reg::ExtendCtr, EXTEND_HSIPRE));
                ops.push(RegOp::clear(Reg::RccCfgr0, CFGR0_PLLSRC));
            },
            Some(PllClkSrc::Hse) => {
                ops.push(
                    RegOp::Modify { reg: Reg::RccCfgr0, clear: CFGR0_PLLXTPRE, set: CFGR0_PLLSRC },
                );
            },
            Some(PllClkSrc::HseDiv2) => {
                ops.push(RegOp::set(Reg::RccCfgr0, CFGR0_PLLSRC | CFGR0_PLLXTPRE));
            },
            None => {},
        }
        assert(ops@ =~= old(ops)@ + self.pll_source_ops());
    }

    fn push_pll_stage(&self, ops: &mut Vec<RegOp>)
        requires
            self.check() is Ok,
        ensures
            final(ops)@ == old(ops)@ + self.pll_stage(),
    {
        if let Some(Sysclk::Pll) = self.sysclk_source {
            self.push_pll_source(ops);
            match (self.pll_input_freq(), self.pll_freq) {
                (Some(s), Some(t)) => {
                    let multiplier: u32 = t / s;
                    let code: u32 = (multiplier - 2) & 0xf;
                    proof {
                        let m = (multiplier - 2) as u32;
                        assert(m & 0xf == m % 16) by (bit_vector);
                        assert(m & 0xf <= 0xf) by (bit_vector);
                        crate::regs::lemma_low_bits();
                    }
                    ops.push(RegOp::set_field(Reg::RccCfgr0, CFGR0_PLLMUL, 4, code));
                    ops.push(RegOp::set(Reg::RccCtlr, CTLR_PLLON));
                    ops.push(RegOp::WaitSet { reg: Reg::RccCtlr, mask: CTLR_PLLRDY });
                },
                _ => {},
            }
        }
        assert(ops@ =~= old(ops)@ + self.pll_stage());
    }

    /// The prescaler fields of the three buses.
    pub fn prescalers(&self) -> (r: (u8, u8, u8))
        requires
            self.check() is Ok,
        ensures
            r.0 == self.hpre(),
            r.1 == self.ppre1(),
            r.2 == self.ppre2(),
    {
        let sysclk: u32 = self.resolve_sysclk();
        let (hpre, hclk): (u8, u32) = match self.hclk_freq {
            Some(f) => ahb_prescaler(sysclk, f),
            None => (0, sysclk),
        };
        let ppre1: u8 = match self.pclk1_freq {
            Some(f) => apb_prescaler(hclk, f).0,
            None => 0,
        };
        let ppre2: u8 = match self.pclk2_freq {
            Some(f) => apb_prescaler(hclk, f).0,
            None => 0,
        };
        (hpre, ppre1, ppre2)
    }

    fn push_bus_stage(&self, ops: &mut Vec<RegOp>)
        requires
            self.check() is Ok,
        ensures
            final(ops)@ == old(ops)@ + self.bus_stage(),
    {
        let (hpre, ppre1, ppre2): (u8, u8, u8) = self.prescalers();
        proof {
            crate::regs::lemma_low_bits();
        }
        ops.push(RegOp::set_field(Reg::RccCfgr0, CFGR0_HPRE, 4, hpre as u32));
        ops.push(RegOp::set_field(Reg::RccCfgr0, CFGR0_PPRE1, 3, ppre1 as u32));
        ops.push(RegOp::set_field(Reg::RccCfgr0, CFGR0_PPRE2, 3, ppre2 as u32));
        assert(ops@ =~= old(ops)@ + self.bus_stage());
    }

    fn push_rtc_source(&self, ops: &mut Vec<RegOp>)
        ensures
            final(ops)@ == old(ops)@ + self.rtc_source_ops(),
    {
        proof {
            crate::regs::lemma_low_bits();
        }
        match self.rtc_source {
            Some(Rtc::Lsi) => {
                ops.push(RegOp::set(Reg::RccRstsckr, RSTSCKR_LSION));
                ops.push(RegOp::WaitSet { reg: Reg::RccRstsckr, mask: RSTSCKR_LSIRDY });
                ops.push(RegOp::set_field(Reg::RccBdctlr, BDCTLR_RTCSEL, 2, 2));
            },
            Some(Rtc::Lse) => {
                if self.lse_bypass {
                    ops.push(RegOp::set(Reg::RccBdctlr, BDCTLR_LSEBYP));
                }
                ops.push(RegOp::set(Reg::RccBdctlr, BDCTLR_LSEON));
                ops.push(RegOp::WaitSet { reg: Reg::RccBdctlr, mask: BDCTLR_LSERDY });
                ops.push(RegOp::set_field(Reg::RccBdctlr, BDCTLR_RTCSEL, 2, 1));
            },
            None => {},
        }
        assert(ops@ =~= old(ops)@ + self.rtc_source_ops());
    }

    fn push_rtc_stage(&self, ops: &mut Vec<RegOp>)
        requires
            self.check() is Ok,
        ensures
            final(ops)@ == old(ops)@ + self.rtc_stage(),
    {
        let freq: Option<u32> = match self.rtc_source {
            Some(Rtc::Lsi) => Some(LSI),
            Some(Rtc::Lse) => self.lse_freq,
            None => None,
        };
        match freq {
            Some(f) => {
                let prescaler: u32 = (f + 500) / 1000 - 1;
                ops.push(RegOp::set(Reg::RccApb1Pcenr, APB1_PWREN));
                ops.push(RegOp::set(Reg::PwrCtlr, PWR_DBP));
                self.push_rtc_source(ops);
                push_rtc_prescaler(ops, prescaler);
                ops.push(RegOp::clear(Reg::PwrCtlr, PWR_DBP));
            },
            None => {},
        }
        assert(ops@ =~= old(ops)@ + self.rtc_stage());
    }

    /// The register program of an accepted configuration, to be carried
    /// out in order.
    pub fn plan(&self) -> (ops: Vec<RegOp>)
        requires
            self.check() is Ok,
        ensures
            ops@ == self.program(),
    {
        let mut ops: Vec<RegOp> = Vec::new();
        self.push_hse_stage(&mut ops);
        self.push_pll_stage(&mut ops);
        proof {
            crate::regs::lemma_low_bits();
        }
        ops.push(RegOp::set_field(Reg::RccCfgr0, CFGR0_SW, 2, switch_code(self.sysclk_source)));
        self.push_bus_stage(&mut ops);
        self.push_rtc_stage(&mut ops);
        assert(ops@ =~= self.program());
        ops
    }
}

impl ClockConfig {
    /// The register program that brings the recorded clocks back after a
    /// sleep.
    pub fn restore_plan(&self) -> (ops: Vec<RegOp>)
        ensures
            ops@ == self.restore_program(),
    {
        let mut ops: Vec<RegOp> = Vec::new();
        if self.use_hse {
            ops.push(RegOp::set(Reg::RccCtlr, CTLR_HSEON));
            ops.push(RegOp::WaitSet { reg: Reg::RccCtlr, mask: CTLR_HSERDY });
        }
        if let Sysclk::Pll = self.source {
            ops.push(RegOp::set(Reg::RccCtlr, CTLR_PLLON));
            ops.push(RegOp::WaitSet { reg: Reg::RccCtlr, mask: CTLR_PLLRDY });
        }
        proof {
            crate::regs::lemma_low_bits();
        }
        ops.push(RegOp::set_field(Reg::RccCfgr0, CFGR0_SW, 2, switch_code(Some(self.source))));
        if !self.use_hsi {
            ops.push(RegOp::clear(Reg::RccCtlr, CTLR_HSION));
        }
        assert(ops@ =~= self.restore_program());
        ops
    }
}

impl CFGR {
    /// The register program of an accepted configuration, to be carried
    /// out in order before the frozen clocks are relied on.
    pub fn plan(&self) -> (ops: Vec<RegOp>)
        requires
            self@.check() is Ok,
        ensures
            ops@ == self@.program(),
    {
        self.request().plan()
    }

    /// Freezes an accepted configuration: gives the frequencies that result,
    /// the register program that brings the hardware there, and the record
    /// for a later restore.
    pub fn freeze(self) -> (r: Frozen)
        requires
            self@.check() is Ok,
        ensures
            r.clocks@ == self@.snapshot(),
            r.program@ == self@.program(),
            r.record == self@.persistent(),
    {
        let request = self.request();
        Frozen {
            clocks: request.resolve(),
            program: request.plan(),
            record: request.persistent_state(),
        }
    }

    /// Checks the configuration. Where it is accepted, gives its
    /// frequencies, its register program and the record for a later
    /// restore; otherwise its first fault, and nothing to carry out.
    pub fn try_freeze(self) -> (r: Result<Frozen, ConfigError>)
        ensures
            match r {
                Ok(frozen) => {
                    &&& self@.check() is Ok
                    &&& frozen.clocks@ == self@.snapshot()
                    &&& frozen.program@ == self@.program()
                    &&& frozen.program@ == self@.writes()
                    &&& frozen.record == self@.persistent()
                },
                Err(e) => {
                    &&& self@.check() == Err::<(), ConfigError>(e)
                    &&& self@.writes() == Seq::<RegOp>::empty()
                },
            },
    {
        match self.validate() {
            Ok(()) => Ok(self.freeze()),
            Err(e) => Err(e),
        }
    }

    /// The register program that brings the clocks of `state` back after a
    /// sleep.
    pub fn restore_clock(state: &ClockConfig) -> (ops: Vec<RegOp>)
        ensures
            ops@ == state.restore_program(),
    {
        state.restore_plan()
    }
}

} // verus!
