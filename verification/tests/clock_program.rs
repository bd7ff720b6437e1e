use ch32v103_hal::rcc::{ClockConfig, PllClkSrc, Sysclk, CFGR};
use ch32v103_hal::regs::{run_on, Reg, RegOp};
use ch32v103_hal::time::{Hertz, U32Ext};

fn modify(reg: Reg, clear: u32, set: u32) -> RegOp {
    RegOp::Modify { reg, clear, set }
}

fn wait(reg: Reg, mask: u32) -> RegOp {
    RegOp::WaitSet { reg, mask }
}

fn write(reg: Reg, value: u32) -> RegOp {
    RegOp::Write { reg, value }
}

/// Runs a program on one register, handing every wait what it waits for.
fn run(ops: &[RegOp], reg: Reg, start: u32) -> u32 {
    let mut word = start;
    for op in ops {
        if op.reg() == reg {
            word = op.apply(word);
        }
    }
    word
}

#[test]
fn default_program_selects_internal_oscillator_undivided() {
    let cfgr = CFGR::new();
    assert_eq!(cfgr.validate(), Ok(()));
    assert_eq!(
        cfgr.plan(),
        vec![
            modify(Reg::RccCfgr0, 0x0000_0003, 0),
            modify(Reg::RccCfgr0, 0x0000_00f0, 0),
            modify(Reg::RccCfgr0, 0x0000_0700, 0),
            modify(Reg::RccCfgr0, 0x0000_3800, 0),
        ]
    );
}

#[test]
fn bypassed_oscillator_through_pll_program() {
    let cfgr = CFGR::new()
        .use_hse(8.mhz())
        .bypass_hse_oscillator()
        .use_pll(48.mhz(), PllClkSrc::Hse)
        .hclk(24.mhz());
    assert_eq!(cfgr.validate(), Ok(()));
    let plan = cfgr.plan();
    assert_eq!(
        plan,
        vec![
            modify(Reg::RccCtlr, 0, 0x0004_0000),
            modify(Reg::RccCtlr, 0, 0x0001_0000),
            wait(Reg::RccCtlr, 0x0002_0000),
            modify(Reg::RccCfgr0, 0x0002_0000, 0x0001_0000),
            modify(Reg::RccCfgr0, 0x003c_0000, 0x0010_0000),
            modify(Reg::RccCtlr, 0, 0x0100_0000),
            wait(Reg::RccCtlr, 0x0200_0000),
            modify(Reg::RccCfgr0, 0x0000_0003, 0x0000_0002),
            modify(Reg::RccCfgr0, 0x0000_00f0, 0x0000_0080),
            modify(Reg::RccCfgr0, 0x0000_0700, 0),
            modify(Reg::RccCfgr0, 0x0000_3800, 0),
        ]
    );
    let cfgr0 = run(&plan, Reg::RccCfgr0, 0xffff_ffff);
    assert_eq!(cfgr0 & 0x3, 2);
    assert_eq!((cfgr0 >> 4) & 0xf, 0b1000);
    assert_eq!((cfgr0 >> 8) & 0x7, 0);
    assert_eq!((cfgr0 >> 11) & 0x7, 0);
    assert_eq!((cfgr0 >> 16) & 0x1, 1);
    assert_eq!((cfgr0 >> 17) & 0x1, 0);
    assert_eq!((cfgr0 >> 18) & 0xf, 6 - 2);
    assert_eq!(cfgr0 | 0x003f_3fff, 0xffff_ffff);
    let ctlr = run(&plan, Reg::RccCtlr, 0);
    assert_eq!(ctlr, 0x0105_0000);
}

#[test]
fn crystal_program_clears_the_bypass() {
    let cfgr = CFGR::new().use_hse(8.mhz());
    assert_eq!(cfgr.validate(), Ok(()));
    let plan = cfgr.plan();
    assert_eq!(
        plan[..3].to_vec(),
        vec![
            modify(Reg::RccCtlr, 0x0004_0000, 0x0001_0000),
            wait(Reg::RccCtlr, 0x0002_0000),
            modify(Reg::RccCfgr0, 0x0000_0003, 0x0000_0001),
        ]
    );
    assert_eq!(run(&plan, Reg::RccCtlr, 0x0004_0001), 0x0001_0001);
}

#[test]
fn every_pll_source_programs_selector_and_divider() {
    let hsi = CFGR::new().use_pll(64.mhz(), PllClkSrc::Hsi);
    assert_eq!(hsi.validate(), Ok(()));
    assert_eq!(
        hsi.plan()[..3].to_vec(),
        vec![
            modify(Reg::ExtendCtr, 0, 0x10),
            modify(Reg::RccCfgr0, 0x0001_0000, 0),
            modify(Reg::RccCfgr0, 0x003c_0000, 6 << 18),
        ]
    );
    let halved = CFGR::new().use_pll(48.mhz(), PllClkSrc::HsiDiv2);
    assert_eq!(halved.validate(), Ok(()));
    assert_eq!(
        halved.plan()[..3].to_vec(),
        vec![
            modify(Reg::ExtendCtr, 0x10, 0),
            modify(Reg::RccCfgr0, 0x0001_0000, 0),
            modify(Reg::RccCfgr0, 0x003c_0000, 10 << 18),
        ]
    );
    let hse = CFGR::new().use_hse(8.mhz()).use_pll(16.mhz(), PllClkSrc::Hse);
    assert_eq!(hse.validate(), Ok(()));
    assert_eq!(
        hse.plan()[2..4].to_vec(),
        vec![
            modify(Reg::RccCfgr0, 0x0002_0000, 0x0001_0000),
            modify(Reg::RccCfgr0, 0x003c_0000, 0),
        ]
    );
    let hse_halved = CFGR::new().use_hse(8.mhz()).use_pll(64.mhz(), PllClkSrc::HseDiv2);
    assert_eq!(hse_halved.validate(), Ok(()));
    assert_eq!(
        hse_halved.plan()[2..4].to_vec(),
        vec![
            modify(Reg::RccCfgr0, 0, 0x0003_0000),
            modify(Reg::RccCfgr0, 0x003c_0000, 14 << 18),
        ]
    );
}

#[test]
fn multiplier_field_keeps_four_bits() {
    let cfgr = CFGR::new()
        .use_hse(1.mhz())
        .bypass_hse_oscillator()
        .use_pll(72.mhz(), PllClkSrc::Hse);
    assert_eq!(cfgr.validate(), Ok(()));
    assert_eq!(cfgr.plan()[4], modify(Reg::RccCfgr0, 0x003c_0000, ((72 - 2) % 16) << 18));
}

#[test]
fn internal_low_speed_program() {
    let cfgr = CFGR::new().use_lsi();
    assert_eq!(cfgr.validate(), Ok(()));
    let plan = cfgr.plan();
    assert_eq!(
        plan[4..].to_vec(),
        vec![
            modify(Reg::RccApb1Pcenr, 0, 0x1000_0000),
            modify(Reg::PwrCtlr, 0, 0x100),
            modify(Reg::RccRstsckr, 0, 0x1),
            wait(Reg::RccRstsckr, 0x2),
            modify(Reg::RccBdctlr, 0x300, 0x200),
            modify(Reg::RccBdctlr, 0, 0x8000),
            modify(Reg::RtcCtlrl, 0x8, 0),
            wait(Reg::RtcCtlrl, 0x8),
            wait(Reg::RtcCtlrl, 0x20),
            modify(Reg::RtcCtlrl, 0, 0x10),
            write(Reg::RtcPscrh, 0),
            write(Reg::RtcPscrl, 39),
            modify(Reg::RtcCtlrl, 0x10, 0),
            wait(Reg::RtcCtlrl, 0x20),
            modify(Reg::PwrCtlr, 0x100, 0),
        ]
    );
    assert_eq!(plan.len(), 19);
}

#[test]
fn external_low_speed_program() {
    let cfgr = CFGR::new().use_lse(32_768.hz()).bypass_lse_oscillator();
    assert_eq!(cfgr.validate(), Ok(()));
    let plan = cfgr.plan();
    assert_eq!(
        plan[6..10].to_vec(),
        vec![
            modify(Reg::RccBdctlr, 0, 0x4),
            modify(Reg::RccBdctlr, 0, 0x1),
            wait(Reg::RccBdctlr, 0x2),
            modify(Reg::RccBdctlr, 0x300, 0x100),
        ]
    );
    assert_eq!(plan[15], write(Reg::RtcPscrh, 0));
    assert_eq!(plan[16], write(Reg::RtcPscrl, 32));
    let plain = CFGR::new().use_lse(32_768.hz());
    assert_eq!(plain.validate(), Ok(()));
    assert_eq!(plain.plan()[6], modify(Reg::RccBdctlr, 0, 0x1));
    assert_eq!(plain.plan().len(), plan.len() - 1);
}

#[test]
fn millisecond_prescaler_is_rounded_and_split() {
    let cfgr = CFGR::new().use_lse(Hertz(70_000_499));
    assert_eq!(cfgr.validate(), Ok(()));
    let plan = cfgr.plan();
    assert_eq!(plan[14], write(Reg::RtcPscrh, 69_999 >> 16));
    assert_eq!(plan[15], write(Reg::RtcPscrl, 69_999 & 0xffff));
    let cfgr = CFGR::new().use_lse(Hertz(70_000_500));
    assert_eq!(cfgr.validate(), Ok(()));
    assert_eq!(cfgr.plan()[15], write(Reg::RtcPscrl, 70_000 & 0xffff));
    let cfgr = CFGR::new().use_lse(Hertz(500));
    assert_eq!(cfgr.validate(), Ok(()));
    assert_eq!(cfgr.plan()[15], write(Reg::RtcPscrl, 0));
}

#[test]
fn restore_brings_back_what_was_in_use() {
    let hsi = ClockConfig { use_hsi: true, use_hse: false, source: Sysclk::Hsi };
    assert_eq!(CFGR::restore_clock(&hsi), vec![modify(Reg::RccCfgr0, 0x3, 0)]);
    let hse = ClockConfig { use_hsi: false, use_hse: true, source: Sysclk::Hse };
    assert_eq!(
        CFGR::restore_clock(&hse),
        vec![
            modify(Reg::RccCtlr, 0, 0x0001_0000),
            wait(Reg::RccCtlr, 0x0002_0000),
            modify(Reg::RccCfgr0, 0x3, 1),
            modify(Reg::RccCtlr, 0x1, 0),
        ]
    );
    let pll = ClockConfig { use_hsi: true, use_hse: false, source: Sysclk::Pll };
    assert_eq!(
        pll.restore_plan(),
        vec![
            modify(Reg::RccCtlr, 0, 0x0100_0000),
            wait(Reg::RccCtlr, 0x0200_0000),
            modify(Reg::RccCfgr0, 0x3, 2),
        ]
    );
    let recorded =
        CFGR::new().use_hse(8.mhz()).use_pll(48.mhz(), PllClkSrc::Hse).clock_config();
    assert_eq!(
        CFGR::restore_clock(&recorded),
        vec![
            modify(Reg::RccCtlr, 0, 0x0001_0000),
            wait(Reg::RccCtlr, 0x0002_0000),
            modify(Reg::RccCtlr, 0, 0x0100_0000),
            wait(Reg::RccCtlr, 0x0200_0000),
            modify(Reg::RccCfgr0, 0x3, 2),
            modify(Reg::RccCtlr, 0x1, 0),
        ]
    );
}

#[test]
fn register_operations_act_on_words() {
    assert_eq!(modify(Reg::RccCfgr0, 0xf0, 0x80).apply(0xffff_ffff), 0xffff_ff8f);
    assert_eq!(write(Reg::RtcPscrl, 39).apply(0xffff_ffff), 39);
    assert_eq!(wait(Reg::RccCtlr, 0x2).apply(0x1234), 0x1234);
    assert_eq!(RegOp::WaitClear { reg: Reg::AdcCtlr2, mask: 0x4 }.apply(0x1234), 0x1234);
    assert_eq!(RegOp::WaitNonZero { reg: Reg::StkCnth }.apply(0), 0);
    assert_eq!(RegOp::set(Reg::PwrCtlr, 0x100), modify(Reg::PwrCtlr, 0, 0x100));
    assert_eq!(RegOp::clear(Reg::PwrCtlr, 0x100), modify(Reg::PwrCtlr, 0x100, 0));
    assert_eq!(RegOp::set_field(Reg::RccCfgr0, 18, 4, 10), modify(Reg::RccCfgr0, 0x003c_0000, 0x0028_0000));
    assert_eq!(RegOp::set_field(Reg::RccCfgr0, 0, 32, 7), modify(Reg::RccCfgr0, 0xffff_ffff, 7));
    assert_eq!(RegOp::set_field(Reg::RccCfgr0, 31, 1, 1), modify(Reg::RccCfgr0, 0x8000_0000, 0x8000_0000));
    assert_eq!(write(Reg::RtcPscrl, 39).reg(), Reg::RtcPscrl);
    assert_eq!(wait(Reg::RccCtlr, 0x2).reg(), Reg::RccCtlr);
    assert_eq!(modify(Reg::RccCfgr0, 0, 0).reg(), Reg::RccCfgr0);
}

#[test]
fn freezing_yields_clocks_program_and_record() {
    let cfgr = || {
        CFGR::new()
            .use_hse(8.mhz())
            .use_pll(72.mhz(), PllClkSrc::HseDiv2)
            .hclk(36.mhz())
            .pclk1(9.mhz())
            .use_lsi()
    };
    assert_eq!(cfgr().validate(), Ok(()));
    let frozen = cfgr().try_freeze().unwrap();
    assert_eq!(frozen.program, cfgr().plan());
    assert_eq!(frozen.record, cfgr().clock_config());
    assert_eq!(frozen.record, ClockConfig { use_hsi: false, use_hse: true, source: Sysclk::Pll });
    let again = cfgr().freeze();
    assert_eq!(again.program, frozen.program);
    assert_eq!(again.record, frozen.record);
    assert_eq!(again.clocks.sysclk().0, frozen.clocks.sysclk().0);
    assert_eq!(again.clocks.pclk1().0, frozen.clocks.pclk1().0);
    assert_eq!(frozen.clocks.sysclk().0, 72_000_000);
    assert_eq!(frozen.clocks.hclk().0, 36_000_000);
    assert_eq!(frozen.clocks.pclk1().0, 9_000_000);
    assert_eq!(frozen.clocks.pclk2().0, 36_000_000);
    assert_eq!(frozen.clocks.rtc_clk().unwrap().0, 40_000);
    assert_eq!(frozen.program.len(), 2 + 4 + 1 + 3 + 15);
}

#[test]
fn a_rejected_configuration_yields_nothing_to_carry_out() {
    let rejected = CFGR::new().use_hse(Hertz(3_000_000)).try_freeze();
    assert!(rejected.is_err());
    let rejected = CFGR::new().use_pll(45.mhz(), PllClkSrc::Hsi).try_freeze();
    assert!(rejected.is_err());
}

#[test]
fn the_program_leaves_its_fields_in_the_configuration_register() {
    for start in [0u32, 0xffff_ffff, 0x1234_5678, 0x8765_4321] {
        let cfgr = CFGR::new()
            .use_hse(8.mhz())
            .use_pll(64.mhz(), PllClkSrc::HseDiv2)
            .hclk(10.mhz())
            .pclk1(1.mhz())
            .pclk2(3.mhz());
        let program = cfgr.try_freeze().unwrap().program;
        let after = run_on(&program, Reg::RccCfgr0, start);
        assert_eq!(after, run(&program, Reg::RccCfgr0, start));
        assert_ne!(after, start);
        assert_eq!(after & 0x3, 2);
        assert_eq!((after >> 4) & 0xf, 0b1010);
        assert_eq!((after >> 8) & 0x7, 0b110);
        assert_eq!((after >> 11) & 0x7, 0b101);
        assert_eq!((after >> 16) & 0x3, 0b11);
        assert_eq!((after >> 18) & 0xf, 16 - 2);
        assert_eq!(after & !0x003f_3ff3, start & !0x003f_3ff3);
        assert_eq!(run_on(&program, Reg::RccBdctlr, start), start);
        assert_eq!(run_on(&program, Reg::RccCtlr, start), (start & !0x0004_0000) | 0x0101_0000);

        let plain = CFGR::new().try_freeze().unwrap().program;
        let after = run_on(&plain, Reg::RccCfgr0, start);
        assert_eq!(after, start & !0x0000_3ff3);
    }
}

#[test]
fn the_program_leaves_the_oscillators_as_requested() {
    for start in [0u32, 0xffff_ffff, 0x0004_0001] {
        let bypassed = CFGR::new()
            .use_hse(8.mhz())
            .bypass_hse_oscillator()
            .use_pll(16.mhz(), PllClkSrc::Hsi)
            .freeze();
        let ctlr = run_on(&bypassed.program, Reg::RccCtlr, start);
        assert_eq!(ctlr, start | 0x0105_0000);
        let crystal = CFGR::new().use_hse(8.mhz()).freeze();
        let ctlr = run_on(&crystal.program, Reg::RccCtlr, start);
        assert_eq!(ctlr, (start & !0x0004_0000) | 0x0001_0000);
        let internal = CFGR::new().freeze();
        assert_eq!(run_on(&internal.program, Reg::RccCtlr, start), start);
    }
}

#[test]
fn the_program_leaves_the_counter_fed_and_the_backup_domain_closed() {
    for start in [0u32, 0xffff_ffff, 0x0000_0100] {
        let lsi = CFGR::new().use_lsi().freeze().program;
        assert_eq!(run_on(&lsi, Reg::RccBdctlr, start), (start & !0x300) | 0x8200);
        assert_eq!(run_on(&lsi, Reg::PwrCtlr, start), start & !0x100);
        assert_eq!(run_on(&lsi, Reg::RccRstsckr, start), start | 0x1);
        assert_eq!(run_on(&lsi, Reg::RccApb1Pcenr, start), start | 0x1000_0000);
        assert_eq!(run_on(&lsi, Reg::RtcCtlrl, start), start & !0x18);
        assert_eq!(run_on(&lsi, Reg::RtcPscrl, start), 39);
        let lse = CFGR::new().use_lse(32_768.hz()).bypass_lse_oscillator().freeze().program;
        assert_eq!(run_on(&lse, Reg::RccBdctlr, start), (start & !0x300) | 0x8105);
        assert_eq!(run_on(&lse, Reg::PwrCtlr, start), start & !0x100);
        let plain = CFGR::new().use_lse(32_768.hz()).freeze().program;
        assert_eq!(run_on(&plain, Reg::RccBdctlr, start), (start & !0x300) | 0x8101);
        let none = CFGR::new().freeze().program;
        assert_eq!(run_on(&none, Reg::RccBdctlr, start), start);
        assert_eq!(run_on(&none, Reg::PwrCtlr, start), start);
    }
}
