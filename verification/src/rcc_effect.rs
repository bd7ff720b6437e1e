//! What the clock program leaves in the clock configuration register.

use crate::rcc::{ClockConfig, ClockRequest, PllClkSrc, Rtc, Sysclk};
use crate::rcc_model::rtc_prescaler;
use crate::rcc_program::{
    pll_field, rtc_prescaler_ops, rtcsel_code, sw_code, BDCTLR_LSEBYP, BDCTLR_LSEON,
    BDCTLR_RTCEN, BDCTLR_RTCSEL, CFGR0_HPRE, CFGR0_PLLMUL, CFGR0_PLLSRC, CFGR0_PLLXTPRE,
    CFGR0_PPRE1, CFGR0_PPRE2, CFGR0_SW, CTLR_HSEBYP, CTLR_HSEON, CTLR_HSION, CTLR_PLLON, PWR_DBP,
};
use crate::regs::{
    field, lemma_run_concat, lemma_run_elsewhere, lemma_run_push, low_bits, run, step, Reg, RegOp,
};
use vstd::prelude::*;

verus! {

/// The bits of the clock configuration register that the clock program
/// decides: the switch, the three prescalers, and the PLL's source,
/// divider and multiplier.
pub const CFGR0_PROGRAMMED: u32 = 0x003f_3ff3;

/// The bits of the clock configuration register that belong to the PLL.
pub const CFGR0_PLL: u32 = 0x003f_0000;

proof fn lemma_run_one(a: RegOp, reg: Reg, word: u32)
    ensures
        run(seq![a], reg, word) == step(a, reg, word),
{
    lemma_run_push(Seq::empty(), a, reg, word);
    assert(seq![a] =~= Seq::<RegOp>::empty().push(a));
}

proof fn lemma_run_two(a: RegOp, b: RegOp, reg: Reg, word: u32)
    ensures
        run(seq![a, b], reg, word) == step(b, reg, step(a, reg, word)),
{
    lemma_run_one(a, reg, word);
    lemma_run_push(seq![a], b, reg, word);
    assert(seq![a, b] =~= seq![a].push(b));
}

proof fn lemma_run_three(a: RegOp, b: RegOp, c: RegOp, reg: Reg, word: u32)
    ensures
        run(seq![a, b, c], reg, word) == step(c, reg, step(b, reg, step(a, reg, word))),
{
    lemma_run_two(a, b, reg, word);
    lemma_run_push(seq![a, b], c, reg, word);
    assert(seq![a, b, c] =~= seq![a, b].push(c));
}

/// The masks of the fields that the clock program writes.
proof fn lemma_masks()
    ensures
        low_bits(2) << CFGR0_SW == 0x0000_0003,
        low_bits(4) << CFGR0_HPRE == 0x0000_00f0,
        low_bits(3) << CFGR0_PPRE1 == 0x0000_0700,
        low_bits(3) << CFGR0_PPRE2 == 0x0000_3800,
        low_bits(4) << CFGR0_PLLMUL == 0x003c_0000,
{
    crate::regs::lemma_low_bits();
    assert(0x3u32 << 0u32 == 0x3 && 0xfu32 << 4u32 == 0xf0 && 0x7u32 << 8u32 == 0x700 && 0x7u32
        << 11u32 == 0x3800 && 0xfu32 << 18u32 == 0x003c_0000) by (bit_vector);
}

/// The external oscillator's stage leaves the configuration register
/// alone.
proof fn lemma_hse_stage(req: ClockRequest, word: u32)
    ensures
        run(req.hse_stage(), Reg::RccCfgr0, word) == word,
{
    lemma_run_elsewhere(req.hse_stage(), Reg::RccCfgr0, word);
}

/// The real-time counter's stage leaves the configuration register alone.
proof fn lemma_rtc_stage(req: ClockRequest, word: u32)
    ensures
        run(req.rtc_stage(), Reg::RccCfgr0, word) == word,
{
    lemma_run_elsewhere(req.rtc_stage(), Reg::RccCfgr0, word);
}

/// What the PLL's stage leaves in the configuration register.
proof fn lemma_pll_stage(req: ClockRequest, word: u32)
    requires
        req.sysclk_source == Some(Sysclk::Pll),
        req.pll_source is Some,
    ensures
        ({
            let after = run(req.pll_stage(), Reg::RccCfgr0, word);
            &&& field(after, CFGR0_PLLMUL, 4) == pll_field(req.pll_multiplier())
            &&& (after & CFGR0_PLLSRC != 0) == (req.pll_source == Some(PllClkSrc::Hse)
                || req.pll_source == Some(PllClkSrc::HseDiv2))
            &&& req.pll_source == Some(PllClkSrc::Hse) ==> after & CFGR0_PLLXTPRE == 0
            &&& req.pll_source == Some(PllClkSrc::HseDiv2) ==> after & CFGR0_PLLXTPRE != 0
            &&& after & !CFGR0_PLL == word & !CFGR0_PLL
        }),
{
    lemma_masks();
    crate::regs::lemma_low_bits();
    let reg = Reg::RccCfgr0;
    let m = pll_field(req.pll_multiplier());
    let source = req.pll_source_ops();
    let rest = seq![
        crate::regs::field_update(Reg::RccCfgr0, CFGR0_PLLMUL, 4, m),
        crate::regs::set_bits(Reg::RccCtlr, crate::rcc_program::CTLR_PLLON),
        RegOp::WaitSet { reg: Reg::RccCtlr, mask: crate::rcc_program::CTLR_PLLRDY },
    ];
    lemma_run_concat(source, rest, reg, word);
    let mid = run(source, reg, word);
    lemma_run_three(rest[0], rest[1], rest[2], reg, mid);
    let after = run(req.pll_stage(), reg, word);
    assert(after == (mid & !0x003c_0000u32) | (m << 18u32));
    assert(m <= 0xf);
    match req.pll_source {
        Some(PllClkSrc::Hsi) | Some(PllClkSrc::HsiDiv2) => {
            lemma_run_two(source[0], source[1], reg, word);
            assert(mid == (word & !0x0001_0000u32) | 0u32);
            assert({
                &&& ((after >> 18u32) & 0xf) == m
                &&& after & 0x0001_0000 == 0
                &&& after & !0x003f_0000u32 == word & !0x003f_0000u32
            }) by (bit_vector)
                requires
                    after == (mid & !0x003c_0000u32) | (m << 18u32),
                    mid == (word & !0x0001_0000u32) | 0u32,
                    m <= 0xf,
            ;
        },
        Some(PllClkSrc::Hse) => {
            lemma_run_one(source[0], reg, word);
            assert(mid == (word & !0x0002_0000u32) | 0x0001_0000u32);
            assert({
                &&& ((after >> 18u32) & 0xf) == m
                &&& after & 0x0001_0000 != 0
                &&& after & 0x0002_0000 == 0
                &&& after & !0x003f_0000u32 == word & !0x003f_0000u32
            }) by (bit_vector)
                requires
                    after == (mid & !0x003c_0000u32) | (m << 18u32),
                    mid == (word & !0x0002_0000u32) | 0x0001_0000u32,
                    m <= 0xf,
            ;
        },
        Some(PllClkSrc::HseDiv2) => {
            lemma_run_one(source[0], reg, word);
            assert(0x0001_0000u32 | 0x0002_0000u32 == 0x0003_0000u32) by (bit_vector);
            assert(mid == (word & !0u32) | 0x0003_0000u32);
            assert({
                &&& ((after >> 18u32) & 0xf) == m
                &&& after & 0x0001_0000 != 0
                &&& after & 0x0002_0000 != 0
                &&& after & !0x003f_0000u32 == word & !0x003f_0000u32
            }) by (bit_vector)
                requires
                    after == (mid & !0x003c_0000u32) | (m << 18u32),
                    mid == (word & !0u32) | 0x0003_0000u32,
                    m <= 0xf,
            ;
        },
        None => {},
    }
}

/// What the switch and the bus stage leave in the configuration register.
proof fn lemma_switch_and_bus(req: ClockRequest, word: u32)
    ensures
        ({
            let after = run(
                req.bus_stage(),
                Reg::RccCfgr0,
                run(req.switch_stage(), Reg::RccCfgr0, word),
            );
            &&& field(after, CFGR0_SW, 2) == sw_code(req.sysclk_source)
            &&& field(after, CFGR0_HPRE, 4) == req.hpre()
            &&& field(after, CFGR0_PPRE1, 3) == req.ppre1()
            &&& field(after, CFGR0_PPRE2, 3) == req.ppre2()
            &&& after & !0x0000_3ff3u32 == word & !0x0000_3ff3u32
        }),
{
    lemma_masks();
    crate::regs::lemma_low_bits();
    let reg = Reg::RccCfgr0;
    let s = sw_code(req.sysclk_source);
    let h = req.hpre() as u32;
    let bus1 = req.ppre1() as u32;
    let bus2 = req.ppre2() as u32;
    let switch = req.switch_stage();
    let bus = req.bus_stage();
    lemma_run_one(switch[0], reg, word);
    let w1 = run(switch, reg, word);
    lemma_run_three(bus[0], bus[1], bus[2], reg, w1);
    let after = run(bus, reg, w1);
    assert(w1 == (word & !0x3u32) | (s << 0u32));
    assert(after == (((((w1 & !0xf0u32) | (h << 4u32)) & !0x700u32) | (bus1 << 8u32)) & !0x3800u32)
        | (bus2 << 11u32));
    assert(s <= 2 && h <= 15 && bus1 <= 7 && bus2 <= 7);
    assert({
        &&& ((after >> 0u32) & 0x3) == s
        &&& ((after >> 4u32) & 0xf) == h
        &&& ((after >> 8u32) & 0x7) == bus1
        &&& ((after >> 11u32) & 0x7) == bus2
        &&& after & !0x0000_3ff3u32 == word & !0x0000_3ff3u32
    }) by (bit_vector)
        requires
            w1 == (word & !0x3u32) | (s << 0u32),
            after == (((((w1 & !0xf0u32) | (h << 4u32)) & !0x700u32) | (bus1 << 8u32)) & !0x3800u32)
                | (bus2 << 11u32),
            s <= 2 && h <= 15 && bus1 <= 7 && bus2 <= 7,
    ;
}

/// Carried out on any register contents, the program of a request leaves
/// the clock configuration register with the switch at the requested
/// source and each prescaler at its field value; where the PLL feeds the
/// system clock, with the PLL's source, divider and multiplier as
/// requested, and otherwise with the PLL's bits as they were. Every bit
/// that the program does not decide stays as it was.
pub proof fn lemma_program_effect(req: ClockRequest, word: u32)
    requires
        req.sysclk_source == Some(Sysclk::Pll) ==> req.pll_source is Some,
    ensures
        ({
            let after = run(req.program(), Reg::RccCfgr0, word);
            &&& field(after, CFGR0_SW, 2) == sw_code(req.sysclk_source)
            &&& field(after, CFGR0_HPRE, 4) == req.hpre()
            &&& field(after, CFGR0_PPRE1, 3) == req.ppre1()
            &&& field(after, CFGR0_PPRE2, 3) == req.ppre2()
            &&& after & !CFGR0_PROGRAMMED == word & !CFGR0_PROGRAMMED
            &&& req.sysclk_source != Some(Sysclk::Pll) ==> after & CFGR0_PLL == word & CFGR0_PLL
            &&& req.sysclk_source == Some(Sysclk::Pll) ==> {
                &&& field(after, CFGR0_PLLMUL, 4) == pll_field(req.pll_multiplier())
                &&& (after & CFGR0_PLLSRC != 0) == (req.pll_source == Some(PllClkSrc::Hse)
                    || req.pll_source == Some(PllClkSrc::HseDiv2))
                &&& req.pll_source == Some(PllClkSrc::Hse) ==> after & CFGR0_PLLXTPRE == 0
                &&& req.pll_source == Some(PllClkSrc::HseDiv2) ==> after & CFGR0_PLLXTPRE != 0
            }
        }),
{
    crate::regs::lemma_low_bits();
    let reg = Reg::RccCfgr0;
    let hse = req.hse_stage();
    let pll = req.pll_stage();
    let switch = req.switch_stage();
    let bus = req.bus_stage();
    let rtc = req.rtc_stage();
    lemma_run_concat(hse + pll + switch + bus, rtc, reg, word);
    lemma_run_concat(hse + pll + switch, bus, reg, word);
    lemma_run_concat(hse + pll, switch, reg, word);
    lemma_run_concat(hse, pll, reg, word);
    lemma_hse_stage(req, word);
    let w1 = run(pll, reg, word);
    let w2 = run(switch, reg, w1);
    let w3 = run(bus, reg, w2);
    lemma_rtc_stage(req, w3);
    let after = run(req.program(), reg, word);
    assert(after == w3);
    lemma_switch_and_bus(req, w1);
    if req.sysclk_source == Some(Sysclk::Pll) {
        lemma_pll_stage(req, word);
        assert({
            &&& ((w3 >> 18u32) & 0xf) == ((w1 >> 18u32) & 0xf)
            &&& w3 & 0x0001_0000 == w1 & 0x0001_0000
            &&& w3 & 0x0002_0000 == w1 & 0x0002_0000
            &&& w3 & !0x003f_3ff3u32 == word & !0x003f_3ff3u32
        }) by (bit_vector)
            requires
                w3 & !0x0000_3ff3u32 == w1 & !0x0000_3ff3u32,
                w1 & !0x003f_0000u32 == word & !0x003f_0000u32,
        ;
    } else {
        assert(pll =~= Seq::<RegOp>::empty());
        assert(w1 == word);
        assert({
            &&& w3 & 0x003f_0000 == word & 0x003f_0000
            &&& w3 & !0x003f_3ff3u32 == word & !0x003f_3ff3u32
        }) by (bit_vector)
            requires
                w3 & !0x0000_3ff3u32 == word & !0x0000_3ff3u32,
        ;
    }
}

/// The bits of the clock control register that the clock program may
/// set or clear: the external oscillator's switch and bypass, and the
/// PLL's switch.
pub const CTLR_PROGRAMMED: u32 = 0x0105_0000;

/// The bits of the backup domain register that the clock program may set:
/// the external low-speed oscillator's switch and bypass, the counter's
/// source, and the counter's switch.
pub const BDCTLR_PROGRAMMED: u32 = 0x0000_8305;

/// Carried out on any register contents, the program of a request leaves
/// the clock control register with the external oscillator on where one
/// is requested, bypassed or not as requested, and with the PLL on where
/// it feeds the system clock. It switches nothing off but the bypass, and
/// changes no other bit.
pub proof fn lemma_oscillator_effect(req: ClockRequest, word: u32)
    ensures
        ({
            let after = run(req.program(), Reg::RccCtlr, word);
            &&& req.hse_freq is Some ==> after & CTLR_HSEON != 0 && (after & CTLR_HSEBYP != 0)
                == req.hse_bypass
            &&& req.hse_freq is None ==> after & (CTLR_HSEON | CTLR_HSEBYP) == word & (CTLR_HSEON
                | CTLR_HSEBYP)
            &&& req.sysclk_source == Some(Sysclk::Pll) ==> after & CTLR_PLLON != 0
            &&& req.sysclk_source != Some(Sysclk::Pll) ==> after & CTLR_PLLON == word & CTLR_PLLON
            &&& after & !CTLR_PROGRAMMED == word & !CTLR_PROGRAMMED
        }),
{
    let reg = Reg::RccCtlr;
    let hse = req.hse_stage();
    let pll = req.pll_stage();
    let switch = req.switch_stage();
    let bus = req.bus_stage();
    let rtc = req.rtc_stage();
    lemma_run_concat(hse + pll + switch + bus, rtc, reg, word);
    lemma_run_concat(hse + pll + switch, bus, reg, word);
    lemma_run_concat(hse + pll, switch, reg, word);
    lemma_run_concat(hse, pll, reg, word);
    let w1 = run(hse, reg, word);
    let w2 = run(pll, reg, w1);
    lemma_run_elsewhere(switch, reg, w2);
    lemma_run_elsewhere(bus, reg, w2);
    lemma_run_elsewhere(rtc, reg, w2);
    assert(run(req.program(), reg, word) == w2);
    if req.hse_freq is None {
        assert(hse =~= Seq::<RegOp>::empty());
        assert(w1 == word);
    } else if req.hse_bypass {
        lemma_run_three(hse[0], hse[1], hse[2], reg, word);
        assert(w1 == (((word & !0u32) | 0x0004_0000u32) & !0u32) | 0x0001_0000u32);
    } else {
        lemma_run_two(hse[0], hse[1], reg, word);
        assert(w1 == (word & !0x0004_0000u32) | 0x0001_0000u32);
    }
    if req.sysclk_source == Some(Sysclk::Pll) {
        let source = req.pll_source_ops();
        let rest = seq![
            crate::regs::field_update(
                Reg::RccCfgr0,
                CFGR0_PLLMUL,
                4,
                pll_field(req.pll_multiplier()),
            ),
            crate::regs::set_bits(Reg::RccCtlr, CTLR_PLLON),
            RegOp::WaitSet { reg: Reg::RccCtlr, mask: crate::rcc_program::CTLR_PLLRDY },
        ];
        lemma_run_concat(source, rest, reg, w1);
        lemma_run_elsewhere(source, reg, w1);
        lemma_run_three(rest[0], rest[1], rest[2], reg, w1);
        assert(w2 == (w1 & !0u32) | 0x0100_0000u32);
    } else {
        assert(pll =~= Seq::<RegOp>::empty());
        assert(w2 == w1);
    }
    assert({
        &&& (w1 == (((word & !0u32) | 0x0004_0000u32) & !0u32) | 0x0001_0000u32) ==> w1
            & 0x0001_0000 != 0 && w1 & 0x0004_0000 != 0 && w1 & !0x0005_0000u32 == word
            & !0x0005_0000u32
        &&& (w1 == (word & !0x0004_0000u32) | 0x0001_0000u32) ==> w1 & 0x0001_0000 != 0 && w1
            & 0x0004_0000 == 0 && w1 & !0x0005_0000u32 == word & !0x0005_0000u32
        &&& (w2 == (w1 & !0u32) | 0x0100_0000u32) ==> w2 & 0x0100_0000 != 0 && w2
            & !0x0100_0000u32 == w1 & !0x0100_0000u32
    }) by (bit_vector);
    assert(0x0001_0000u32 | 0x0004_0000u32 == 0x0005_0000u32) by (bit_vector);
    assert({
        &&& w2 & !0x0100_0000u32 == w1 & !0x0100_0000u32 ==> w2 & 0x0001_0000 == w1 & 0x0001_0000
            && w2 & 0x0004_0000 == w1 & 0x0004_0000 && w2 & 0x0005_0000 == w1 & 0x0005_0000
        &&& (w2 & !0x0100_0000u32 == w1 & !0x0100_0000u32 && w1 & !0x0005_0000u32 == word
            & !0x0005_0000u32) ==> w2 & !0x0105_0000u32 == word & !0x0105_0000u32
        &&& (w2 == w1 && w1 & !0x0005_0000u32 == word & !0x0005_0000u32) ==> w2 & 0x0100_0000
            == word & 0x0100_0000 && w2 & !0x0105_0000u32 == word & !0x0105_0000u32
        &&& (w2 & !0x0100_0000u32 == w1 & !0x0100_0000u32 && w1 == word) ==> w2 & !0x0105_0000u32
            == word & !0x0105_0000u32
    }) by (bit_vector);
}

/// What loading the prescaler leaves in the backup domain register: the
/// counter switched on.
proof fn lemma_prescaler_ops(prescaler: int, word: u32)
    ensures
        run(rtc_prescaler_ops(prescaler), Reg::RccBdctlr, word) == word | BDCTLR_RTCEN,
        run(rtc_prescaler_ops(prescaler), Reg::PwrCtlr, word) == word,
{
    let ops = rtc_prescaler_ops(prescaler);
    let first = seq![ops[0]];
    let rest = ops.subrange(1, 9);
    assert(ops =~= first + rest);
    lemma_run_concat(first, rest, Reg::RccBdctlr, word);
    lemma_run_one(ops[0], Reg::RccBdctlr, word);
    lemma_run_elsewhere(rest, Reg::RccBdctlr, run(first, Reg::RccBdctlr, word));
    lemma_run_elsewhere(ops, Reg::PwrCtlr, word);
    assert((word & !0u32) | 0x0000_8000u32 == word | 0x0000_8000u32) by (bit_vector);
}

/// Carried out on any register contents, the program of a request that
/// names a low-speed source leaves the backup domain register with that
/// source selected for the counter and the counter on, and, for the
/// external oscillator, with it on and bypassed if so requested; it
/// leaves the backup domain closed to writes. It clears nothing but the
/// source field, and changes no other bit. The program of a request
/// without a low-speed source changes neither register.
pub proof fn lemma_counter_effect(req: ClockRequest, word: u32)
    requires
        req.rtc_source == Some(Rtc::Lse) ==> req.lse_freq is Some,
    ensures
        ({
            let after = run(req.program(), Reg::RccBdctlr, word);
            let power = run(req.program(), Reg::PwrCtlr, word);
            &&& req.rtc_source is None ==> after == word && power == word
            &&& req.rtc_source is Some ==> {
                &&& field(after, BDCTLR_RTCSEL, 2) == rtcsel_code(req.rtc_source->0)
                &&& after & BDCTLR_RTCEN != 0
                &&& req.rtc_source == Some(Rtc::Lse) ==> after & BDCTLR_LSEON != 0
                &&& req.rtc_source == Some(Rtc::Lse) && req.lse_bypass ==> after & BDCTLR_LSEBYP
                    != 0
                &&& after & !BDCTLR_PROGRAMMED == word & !BDCTLR_PROGRAMMED
                &&& power & PWR_DBP == 0
                &&& power & !PWR_DBP == word & !PWR_DBP
            }
        }),
{
    lemma_masks();
    crate::regs::lemma_low_bits();
    let hse = req.hse_stage();
    let pll = req.pll_stage();
    let switch = req.switch_stage();
    let bus = req.bus_stage();
    let rtc = req.rtc_stage();
    let head = hse + pll + switch + bus;
    assert(req.program() =~= head + rtc);
    assert forall|reg: Reg| reg == Reg::RccBdctlr || reg == Reg::PwrCtlr implies #[trigger] run(
        head,
        reg,
        word,
    ) == word by {
        lemma_run_concat(hse + pll + switch, bus, reg, word);
        lemma_run_concat(hse + pll, switch, reg, word);
        lemma_run_concat(hse, pll, reg, word);
        lemma_run_elsewhere(hse, reg, word);
        if req.sysclk_source == Some(Sysclk::Pll) {
            let source = req.pll_source_ops();
            let rest = seq![
                crate::regs::field_update(
                    Reg::RccCfgr0,
                    CFGR0_PLLMUL,
                    4,
                    pll_field(req.pll_multiplier()),
                ),
                crate::regs::set_bits(Reg::RccCtlr, CTLR_PLLON),
                RegOp::WaitSet { reg: Reg::RccCtlr, mask: crate::rcc_program::CTLR_PLLRDY },
            ];
            lemma_run_concat(source, rest, reg, word);
            lemma_run_elsewhere(source, reg, word);
            lemma_run_elsewhere(rest, reg, word);
        } else {
            assert(pll =~= Seq::<RegOp>::empty());
        }
        lemma_run_elsewhere(switch, reg, word);
        lemma_run_elsewhere(bus, reg, word);
    }
    lemma_run_concat(head, rtc, Reg::RccBdctlr, word);
    lemma_run_concat(head, rtc, Reg::PwrCtlr, word);
    assert(run(head, Reg::RccBdctlr, word) == word);
    assert(run(head, Reg::PwrCtlr, word) == word);
    match req.rtc_clk() {
        None => {
            assert(rtc =~= Seq::<RegOp>::empty());
        },
        Some(f) => {
            let open = seq![
                crate::regs::set_bits(Reg::RccApb1Pcenr, crate::rcc_program::APB1_PWREN),
                crate::regs::set_bits(Reg::PwrCtlr, PWR_DBP),
            ];
            let source = req.rtc_source_ops();
            let load = rtc_prescaler_ops(rtc_prescaler(f));
            let close = seq![crate::regs::clear_bits(Reg::PwrCtlr, PWR_DBP)];
            assert(rtc == open + source + load + close);
            // The power control register.
            let reg = Reg::PwrCtlr;
            lemma_run_concat(open + source + load, close, reg, word);
            lemma_run_concat(open + source, load, reg, word);
            lemma_run_concat(open, source, reg, word);
            lemma_run_two(open[0], open[1], reg, word);
            let opened = run(open, reg, word);
            lemma_run_elsewhere(source, reg, opened);
            lemma_prescaler_ops(rtc_prescaler(f), opened);
            lemma_run_one(close[0], reg, opened);
            let power = run(rtc, reg, word);
            assert(power == (((word & !0u32) | 0x100u32) & !0x100u32) | 0u32);
            assert(power & 0x100 == 0 && power & !0x100u32 == word & !0x100u32) by (bit_vector)
                requires
                    power == (((word & !0u32) | 0x100u32) & !0x100u32) | 0u32,
            ;
            // The backup domain register.
            let reg = Reg::RccBdctlr;
            lemma_run_concat(open + source + load, close, reg, word);
            lemma_run_concat(open + source, load, reg, word);
            lemma_run_concat(open, source, reg, word);
            lemma_run_elsewhere(open, reg, word);
            lemma_run_elsewhere(close, reg, run(open + source + load, reg, word));
            let sourced = run(source, reg, word);
            lemma_prescaler_ops(rtc_prescaler(f), sourced);
            let after = run(rtc, reg, word);
            assert(after == sourced | 0x8000u32);
            match req.rtc_source {
                Some(Rtc::Lsi) => {
                    lemma_run_three(source[0], source[1], source[2], reg, word);
                    assert(sourced == (word & !(0x3u32 << 8u32)) | (2u32 << 8u32));
                    assert({
                        &&& ((after >> 8u32) & 0x3) == 2
                        &&& after & 0x8000 != 0
                        &&& after & !0x8305u32 == word & !0x8305u32
                    }) by (bit_vector)
                        requires
                            after == sourced | 0x8000u32,
                            sourced == (word & !(0x3u32 << 8u32)) | (2u32 << 8u32),
                    ;
                },
                Some(Rtc::Lse) => {
                    let tail = seq![
                        crate::regs::set_bits(Reg::RccBdctlr, BDCTLR_LSEON),
                        RegOp::WaitSet {
                            reg: Reg::RccBdctlr,
                            mask: crate::rcc_program::BDCTLR_LSERDY,
                        },
                        crate::regs::field_update(
                            Reg::RccBdctlr,
                            BDCTLR_RTCSEL,
                            2,
                            rtcsel_code(Rtc::Lse),
                        ),
                    ];
                    let lead = if req.lse_bypass {
                        seq![crate::regs::set_bits(Reg::RccBdctlr, BDCTLR_LSEBYP)]
                    } else {
                        seq![]
                    };
                    assert(source == lead + tail);
                    lemma_run_concat(lead, tail, reg, word);
                    let led = run(lead, reg, word);
                    lemma_run_three(tail[0], tail[1], tail[2], reg, led);
                    if req.lse_bypass {
                        lemma_run_one(lead[0], reg, word);
                        assert(led == (word & !0u32) | 0x4u32);
                    } else {
                        assert(led == word);
                    }
                    assert(sourced == (((led & !0u32) | 0x1u32) & !(0x3u32 << 8u32)) | (1u32
                        << 8u32));
                    assert({
                        &&& ((after >> 8u32) & 0x3) == 1
                        &&& after & 0x8000 != 0
                        &&& after & 0x1 != 0
                        &&& (led == (word & !0u32) | 0x4u32) ==> after & 0x4 != 0 && after
                            & !0x8305u32 == word & !0x8305u32
                        &&& led == word ==> after & !0x8305u32 == word & !0x8305u32
                    }) by (bit_vector)
                        requires
                            after == sourced | 0x8000u32,
                            sourced == (((led & !0u32) | 0x1u32) & !(0x3u32 << 8u32)) | (1u32
                                << 8u32),
                    ;
                },
                None => {},
            }
        },
    }
}

/// The bits of the clock control register that a restore may touch: the
/// switches of both oscillators and of the PLL.
pub const CTLR_RESTORED: u32 = 0x0101_0001;

/// Carried out on any register contents, the restore program of a record
/// leaves the system clock switched to the recorded source, the external
/// oscillator on if it was in use, the PLL on if it fed the system clock,
/// and the internal oscillator off if it was not in use. It changes no
/// other bit of either register.
pub proof fn lemma_restore_effect(record: ClockConfig, word: u32)
    ensures
        ({
            let switch = run(record.restore_program(), Reg::RccCfgr0, word);
            let after = run(record.restore_program(), Reg::RccCtlr, word);
            &&& field(switch, CFGR0_SW, 2) == sw_code(Some(record.source))
            &&& switch & !0x0000_0003u32 == word & !0x0000_0003u32
            &&& record.use_hse ==> after & CTLR_HSEON != 0
            &&& !record.use_hse ==> after & CTLR_HSEON == word & CTLR_HSEON
            &&& record.source == Sysclk::Pll ==> after & CTLR_PLLON != 0
            &&& record.source != Sysclk::Pll ==> after & CTLR_PLLON == word & CTLR_PLLON
            &&& !record.use_hsi ==> after & CTLR_HSION == 0
            &&& record.use_hsi ==> after & CTLR_HSION == word & CTLR_HSION
            &&& after & !CTLR_RESTORED == word & !CTLR_RESTORED
        }),
{
    lemma_masks();
    crate::regs::lemma_low_bits();
    let hse = if record.use_hse {
        seq![
            crate::regs::set_bits(Reg::RccCtlr, CTLR_HSEON),
            RegOp::WaitSet { reg: Reg::RccCtlr, mask: crate::rcc_program::CTLR_HSERDY },
        ]
    } else {
        seq![]
    };
    let pll = if record.source == Sysclk::Pll {
        seq![
            crate::regs::set_bits(Reg::RccCtlr, CTLR_PLLON),
            RegOp::WaitSet { reg: Reg::RccCtlr, mask: crate::rcc_program::CTLR_PLLRDY },
        ]
    } else {
        seq![]
    };
    let switch = seq![
        crate::regs::field_update(Reg::RccCfgr0, CFGR0_SW, 2, sw_code(Some(record.source))),
    ];
    let hsi = if record.use_hsi {
        seq![]
    } else {
        seq![crate::regs::clear_bits(Reg::RccCtlr, CTLR_HSION)]
    };
    assert(record.restore_program() == hse + pll + switch + hsi);
    let s = sw_code(Some(record.source));

    let reg = Reg::RccCfgr0;
    lemma_run_concat(hse + pll + switch, hsi, reg, word);
    lemma_run_concat(hse + pll, switch, reg, word);
    lemma_run_concat(hse, pll, reg, word);
    lemma_run_elsewhere(hse, reg, word);
    lemma_run_elsewhere(pll, reg, word);
    lemma_run_one(switch[0], reg, word);
    let switched = run(switch, reg, word);
    lemma_run_elsewhere(hsi, reg, switched);
    assert(switched == (word & !0x3u32) | (s << 0u32));
    assert(((switched >> 0u32) & 0x3) == s && switched & !0x3u32 == word & !0x3u32)
        by (bit_vector)
        requires
            switched == (word & !0x3u32) | (s << 0u32),
            s <= 2,
    ;

    let reg = Reg::RccCtlr;
    lemma_run_concat(hse + pll + switch, hsi, reg, word);
    lemma_run_concat(hse + pll, switch, reg, word);
    lemma_run_concat(hse, pll, reg, word);
    let w1 = run(hse, reg, word);
    let w2 = run(pll, reg, w1);
    lemma_run_elsewhere(switch, reg, w2);
    let w3 = run(hsi, reg, w2);
    if record.use_hse {
        lemma_run_two(hse[0], hse[1], reg, word);
    }
    if record.source == Sysclk::Pll {
        lemma_run_two(pll[0], pll[1], reg, w1);
    }
    if !record.use_hsi {
        lemma_run_one(hsi[0], reg, w2);
    }
    assert({
        &&& (w1 == (word & !0u32) | 0x0001_0000u32 || w1 == word)
        &&& (w2 == (w1 & !0u32) | 0x0100_0000u32 || w2 == w1)
        &&& (w3 == (w2 & !0x1u32) | 0u32 || w3 == w2)
    });
    assert({
        &&& w3 & !0x0101_0001u32 == word & !0x0101_0001u32
        &&& (w1 == (word & !0u32) | 0x0001_0000u32) ==> w3 & 0x0001_0000 != 0
        &&& w1 == word ==> w3 & 0x0001_0000 == word & 0x0001_0000
        &&& (w2 == (w1 & !0u32) | 0x0100_0000u32) ==> w3 & 0x0100_0000 != 0
        &&& w2 == w1 ==> w3 & 0x0100_0000 == word & 0x0100_0000
        &&& (w3 == (w2 & !0x1u32) | 0u32) ==> w3 & 0x1 == 0
        &&& w3 == w2 ==> w3 & 0x1 == word & 0x1
    }) by (bit_vector)
        requires
            (w1 == (word & !0u32) | 0x0001_0000u32 || w1 == word),
            (w2 == (w1 & !0u32) | 0x0100_0000u32 || w2 == w1),
            (w3 == (w2 & !0x1u32) | 0u32 || w3 == w2),
    ;
}

} // verus!
