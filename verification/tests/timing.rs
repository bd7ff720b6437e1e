use ch32v103_hal::adc::{adc_prescaler, channel, sample, Adc};
use ch32v103_hal::delay::{Delay, Sleep};
use ch32v103_hal::interrupt::{dispatch, Dispatch};
use ch32v103_hal::rcc::{Clocks, PllClkSrc, CFGR};
use ch32v103_hal::regs::{Port, Reg, RegOp};
use ch32v103_hal::systick::{wait_ticks, SysTick};
use ch32v103_hal::time::U32Ext;
use ch32v103_hal::timer::{acknowledge_update, setup_timer1};

fn modify(reg: Reg, clear: u32, set: u32) -> RegOp {
    RegOp::Modify { reg, clear, set }
}

fn write(reg: Reg, value: u32) -> RegOp {
    RegOp::Write { reg, value }
}

fn busy(ticks: u32) -> Vec<RegOp> {
    vec![
        write(Reg::StkCtlr, 0),
        write(Reg::StkCntl, 0u32.wrapping_sub(ticks)),
        write(Reg::StkCnth, 0),
        write(Reg::StkCtlr, 1),
        RegOp::WaitNonZero { reg: Reg::StkCnth },
        write(Reg::StkCtlr, 0),
    ]
}

fn default_clocks() -> Clocks {
    CFGR::new().try_freeze().unwrap().clocks
}

fn full_speed() -> Clocks {
    CFGR::new().use_pll(72.mhz(), PllClkSrc::Hsi).try_freeze().unwrap().clocks
}

#[test]
fn a_busy_wait_counts_up_to_the_overflow() {
    assert_eq!(wait_ticks(1)[1], write(Reg::StkCntl, 0xffff_ffff));
    assert_eq!(wait_ticks(0)[1], write(Reg::StkCntl, 0));
    assert_eq!(wait_ticks(500), busy(500));
    assert_eq!(wait_ticks(u32::MAX)[1], write(Reg::StkCntl, 1));
}

#[test]
fn system_tick_delays() {
    let mut tick = SysTick::new(&default_clocks());
    assert_eq!(tick.delay_us(500), busy(500));
    assert_eq!(tick.delay_ms(3), busy(3_000));
    assert_eq!(tick.delay_s(2), busy(2_000_000));
    let mut fast = SysTick::new(&full_speed());
    assert_eq!(fast.delay_us(500), busy(4_500));
    assert_eq!(fast.delay_ms(1), busy(9_000));
    let slow = CFGR::new().hclk(4.mhz()).try_freeze().unwrap().clocks;
    assert_eq!(SysTick::new(&slow).delay_us(500), busy(0));
}

#[test]
fn delay_multiplies_before_it_divides() {
    let clocks = CFGR::new().use_pll(24.mhz(), PllClkSrc::Hsi).hclk(12.mhz()).try_freeze().unwrap().clocks;
    assert_eq!(clocks.hclk().0, 12_000_000);
    let mut delay = Delay::new(&clocks);
    assert_eq!(delay.delay_us(3), busy(4));
    assert_eq!(SysTick::new(&clocks).delay_us(3), busy(3));
    assert_eq!(delay.delay_ms(2), busy(3_000));
    let mut plain = Delay::new(&default_clocks());
    assert_eq!(plain.delay_us(10), busy(10));
    assert_eq!(plain.delay_us(0), busy(0));
}

#[test]
fn short_sleeps_are_busy_waits() {
    let mut delay = Delay::new(&default_clocks());
    match delay.sleep_ms(9) {
        Sleep::Busy(ops) => assert_eq!(ops, busy(9_000)),
        Sleep::Alarm(_) => panic!("a sleep of nine milliseconds armed the alarm"),
    }
    match delay.sleep_sec(0) {
        Sleep::Busy(ops) => assert_eq!(ops, busy(0)),
        Sleep::Alarm(_) => panic!("a sleep of no time armed the alarm"),
    }
}

#[test]
fn long_sleeps_wait_for_the_next_tick() {
    let mut delay = Delay::new(&default_clocks());
    let sync = vec![modify(Reg::RtcCtlrl, 0x1, 0), RegOp::WaitSet { reg: Reg::RtcCtlrl, mask: 0x1 }];
    match delay.sleep_ms(10) {
        Sleep::Alarm(ops) => assert_eq!(ops, sync),
        Sleep::Busy(_) => panic!("a sleep of ten milliseconds kept the core busy"),
    }
    match delay.sleep_sec(4_294_967) {
        Sleep::Alarm(ops) => assert_eq!(ops, sync),
        Sleep::Busy(_) => panic!("the longest sleep kept the core busy"),
    }
}

#[test]
fn the_alarm_is_set_ahead_less_three() {
    let delay = Delay::new(&default_clocks());
    let ops = delay.alarm(0x0001, 0xfff0, 1_000);
    assert_eq!(
        ops,
        vec![
            modify(Reg::PwrCtlr, 0, 0x100),
            RegOp::WaitSet { reg: Reg::RtcCtlrl, mask: 0x20 },
            modify(Reg::RtcCtlrl, 0, 0x10),
            write(Reg::RtcAlrmh, 0x0002),
            write(Reg::RtcAlrml, 0x03d5),
            modify(Reg::RtcCtlrl, 0x12, 0),
            RegOp::WaitSet { reg: Reg::RtcCtlrl, mask: 0x20 },
            modify(Reg::PwrCtlr, 0x100, 0),
            modify(Reg::ExtiIntenr, 0, 0x0002_0000),
            modify(Reg::ExtiRtenr, 0, 0x0002_0000),
            write(Reg::PficIenr2, 0x0200_0000),
            modify(Reg::RtcCtlrh, 0, 0x2),
        ]
    );
    let ops = delay.alarm(0, 0, 10);
    assert_eq!(ops[3], write(Reg::RtcAlrmh, 0));
    assert_eq!(ops[4], write(Reg::RtcAlrml, 7));
    let ops = delay.alarm(0xffff, 0xfff0, 15);
    assert_eq!(ops[3], write(Reg::RtcAlrmh, 0xffff));
    assert_eq!(ops[4], write(Reg::RtcAlrml, 0xfffc));
}

#[test]
fn dozing_and_acknowledging() {
    let delay = Delay::new(&default_clocks());
    assert_eq!(
        delay.doze(),
        vec![modify(Reg::PwrCtlr, 0x2, 0), modify(Reg::PficSctlr, 0x4, 0)]
    );
    assert_eq!(
        Delay::rtc_handler(),
        vec![modify(Reg::RtcCtlrl, 0x2, 0), modify(Reg::ExtiIntfr, 0, 0x0002_0000)]
    );
}

#[test]
fn converter_clock_stays_within_its_limit() {
    assert_eq!(adc_prescaler(8_000_000), (0, 4_000_000));
    assert_eq!(adc_prescaler(27_999_999), (0, 13_999_999));
    assert_eq!(adc_prescaler(28_000_000), (1, 7_000_000));
    assert_eq!(adc_prescaler(55_999_999), (1, 13_999_999));
    assert_eq!(adc_prescaler(56_000_000), (2, 9_333_333));
    assert_eq!(adc_prescaler(72_000_000), (2, 12_000_000));
    assert_eq!(adc_prescaler(84_000_000), (3, 10_500_000));
}

#[test]
fn converter_channels_by_pin() {
    assert_eq!(channel(Port::A, 0), Some(0));
    assert_eq!(channel(Port::A, 7), Some(7));
    assert_eq!(channel(Port::A, 8), None);
    assert_eq!(channel(Port::B, 0), Some(8));
    assert_eq!(channel(Port::B, 1), Some(9));
    assert_eq!(channel(Port::B, 2), None);
    assert_eq!(sample(0x1234_0abc), 0x0abc);
}

#[test]
fn converter_programs() {
    let (mut adc, setup) = Adc::adc((), &full_speed());
    assert_eq!(adc.clock(), 12_000_000);
    assert_eq!(
        setup,
        vec![
            modify(Reg::RccApb2Pcenr, 0, 0x200),
            modify(Reg::RccCfgr0, 0xc000, 0x8000),
            write(Reg::AdcSamptr1, 0xffff_ffff),
            write(Reg::AdcSamptr2, 0xffff_ffff),
        ]
    );
    let on = modify(Reg::AdcCtlr2, 0, 0x1);
    let mut wake = vec![on];
    wake.extend(busy(9));
    wake.push(on);
    assert_eq!(adc.power_up(), wake);
    assert_eq!(adc.power_down(), vec![modify(Reg::AdcCtlr2, 0x1, 0)]);
    let convert = |ch: u32| {
        vec![
            modify(Reg::AdcRsqr3, 0x1f, ch),
            modify(Reg::AdcRsqr1, 0x00f0_0000, 0x0010_0000),
            on,
            RegOp::WaitSet { reg: Reg::AdcStatr, mask: 0x2 },
        ]
    };
    assert_eq!(adc.do_conversion(9), convert(9));

    let (before, after) = adc.read(3);
    let mut expected = wake.clone();
    expected.extend(convert(3));
    assert_eq!(before, expected);
    assert_eq!(after, vec![modify(Reg::AdcCtlr2, 0x1, 0)]);

    let (before, after) = adc.read_temp();
    let mut expected = vec![modify(Reg::AdcCtlr2, 0, 0x0080_0000)];
    expected.extend(wake.clone());
    expected.extend(convert(16));
    assert_eq!(before, expected);
    assert_eq!(after, vec![modify(Reg::AdcCtlr2, 0x0080_0000, 0), modify(Reg::AdcCtlr2, 0x1, 0)]);

    let (before, after) = adc.calibration();
    let mut expected = wake;
    expected.extend(busy(90));
    expected.extend(vec![
        modify(Reg::AdcCtlr2, 0, 0x8),
        RegOp::WaitClear { reg: Reg::AdcCtlr2, mask: 0x8 },
        modify(Reg::AdcCtlr2, 0, 0x4),
        RegOp::WaitClear { reg: Reg::AdcCtlr2, mask: 0x4 },
    ]);
    assert_eq!(before, expected);
    assert_eq!(after, vec![modify(Reg::AdcCtlr2, 0x1, 0)]);
}

#[test]
fn traps_find_their_handler_or_hang() {
    let vectors = [0usize, 0x0800_1234, 0, 0x0800_5678];
    assert_eq!(dispatch(false, 1, &vectors), Dispatch::Call(1));
    assert_eq!(dispatch(false, 3, &vectors), Dispatch::Call(3));
    assert_eq!(dispatch(false, 0, &vectors), Dispatch::Hang);
    assert_eq!(dispatch(false, 2, &vectors), Dispatch::Hang);
    assert_eq!(dispatch(false, 4, &vectors), Dispatch::Hang);
    assert_eq!(dispatch(true, 1, &vectors), Dispatch::Hang);
    assert_eq!(dispatch(false, 0, &[]), Dispatch::Hang);
}

#[test]
fn the_timer_ticks_every_hundred_milliseconds() {
    assert_eq!(
        setup_timer1(8_000_000),
        vec![
            modify(Reg::RccApb2Pcenr, 0, 0x800),
            write(Reg::Tim1Psc, 799),
            write(Reg::Tim1Cnt, 999),
            write(Reg::Tim1Atrlr, 999),
            modify(Reg::Tim1Ctlr1, 0, 0x81),
            write(Reg::PficIenr2, 0x200),
            modify(Reg::Tim1Dmaintenr, 0, 0x1),
        ]
    );
    assert_eq!(setup_timer1(72_000_000)[1], write(Reg::Tim1Psc, 7_199));
    assert_eq!(setup_timer1(1_999_999)[1], write(Reg::Tim1Psc, 99));
    assert_eq!(setup_timer1(656_000_000)[1], write(Reg::Tim1Psc, 65_599 - 65_536));
    assert_eq!(acknowledge_update(), modify(Reg::Tim1Intfr, 0x1, 0));
}
