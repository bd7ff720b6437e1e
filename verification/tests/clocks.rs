use ch32v103_hal::rcc::{
    ClockConfig, ClockRequest, ConfigError, PllClkSrc, RccExt, Rtc, Sysclk, CFGR,
};
use ch32v103_hal::rcc_model::{ahb_prescaler, apb_prescaler};
use ch32v103_hal::time::{Bps, Hertz, U32Ext};

fn unset() -> ClockRequest {
    CFGR::new().request()
}

#[test]
fn unit_suffixes_scale() {
    assert_eq!(115_200.bps().0, 115_200);
    assert_eq!(7.hz().0, 7);
    assert_eq!(100.khz().0, 100_000);
    assert_eq!(48.mhz().0, 48_000_000);
    let Bps(b) = 9_600.bps();
    let Hertz(h) = 4294.mhz();
    assert_eq!(b, 9_600);
    assert_eq!(h, 4_294_000_000);
}

#[test]
fn a_fresh_builder_asks_for_nothing() {
    let r = unset();
    assert_eq!(r.hse_freq, None);
    assert!(!r.hse_bypass);
    assert_eq!(r.pll_source, None);
    assert_eq!(r.pll_freq, None);
    assert_eq!(r.sysclk_source, None);
    assert_eq!(r.hclk_freq, None);
    assert_eq!(r.pclk1_freq, None);
    assert_eq!(r.pclk2_freq, None);
    assert_eq!(r.lse_freq, None);
    assert!(!r.lse_bypass);
    assert_eq!(r.rtc_source, None);
}

#[test]
fn constrain_hands_out_a_fresh_builder() {
    let peripherals = ch32v1::ch32v103::Peripherals::take().unwrap();
    let rcc = peripherals.RCC.constrain();
    assert_eq!(rcc.cfgr.request(), unset());
}

#[test]
fn builders_record_their_arguments() {
    let r = CFGR::new()
        .use_hse(8.mhz())
        .bypass_hse_oscillator()
        .use_pll(48.mhz(), PllClkSrc::HseDiv2)
        .hclk(24.mhz())
        .pclk1(12.mhz())
        .pclk2(6.mhz())
        .use_lse(32_768.hz())
        .bypass_lse_oscillator()
        .request();
    assert_eq!(r.hse_freq, Some(8_000_000));
    assert!(r.hse_bypass);
    assert_eq!(r.pll_source, Some(PllClkSrc::HseDiv2));
    assert_eq!(r.pll_freq, Some(48_000_000));
    assert_eq!(r.sysclk_source, Some(Sysclk::Pll));
    assert_eq!(r.hclk_freq, Some(24_000_000));
    assert_eq!(r.pclk1_freq, Some(12_000_000));
    assert_eq!(r.pclk2_freq, Some(6_000_000));
    assert_eq!(r.lse_freq, Some(32_768));
    assert!(r.lse_bypass);
    assert_eq!(r.rtc_source, Some(Rtc::Lse));
    assert_eq!(CFGR::new().use_hsi().request().sysclk_source, Some(Sysclk::Hsi));
    assert_eq!(CFGR::new().use_hse(8.mhz()).request().sysclk_source, Some(Sysclk::Hse));
    assert_eq!(CFGR::new().use_lsi().request().rtc_source, Some(Rtc::Lsi));
}

#[test]
fn external_bypass_through_pll_with_halved_core_bus() {
    let cfgr = CFGR::new()
        .use_hse(8.mhz())
        .bypass_hse_oscillator()
        .use_pll(48.mhz(), PllClkSrc::Hse)
        .hclk(24.mhz());
    assert_eq!(cfgr.request().prescalers(), (0b1000, 0, 0));
    let clocks = cfgr.try_freeze().unwrap().clocks;
    assert_eq!(clocks.sysclk().0, 48_000_000);
    assert_eq!(clocks.hclk().0, 24_000_000);
    assert_eq!(clocks.pclk1().0, 24_000_000);
    assert_eq!(clocks.pclk2().0, 24_000_000);
    assert!(clocks.rtc_clk().is_none());
}

#[test]
fn halved_internal_oscillator_times_twelve() {
    let cfgr = CFGR::new().use_pll(48.mhz(), PllClkSrc::HsiDiv2);
    assert_eq!(cfgr.request().pll_input_freq(), Some(4_000_000));
    assert_eq!(48_000_000 / cfgr.request().pll_input_freq().unwrap(), 12);
    let clocks = cfgr.try_freeze().unwrap().clocks;
    assert_eq!(clocks.sysclk().0, 48_000_000);
}

#[test]
fn fractional_pll_ratio_is_rejected() {
    let cfgr = CFGR::new().use_pll(Hertz(45_000_000), PllClkSrc::Hsi);
    assert_eq!(cfgr.request().pll_input_freq(), Some(8_000_000));
    assert_eq!(cfgr.validate(), Err(ConfigError::PllRatio));
    assert!(matches!(cfgr.try_freeze(), Err(ConfigError::PllRatio)));
}

#[test]
fn pll_ratio_of_one_or_less_is_rejected() {
    assert_eq!(
        CFGR::new().use_pll(8.mhz(), PllClkSrc::Hsi).validate(),
        Err(ConfigError::PllRatio)
    );
    assert_eq!(
        CFGR::new().use_pll(4.mhz(), PllClkSrc::Hsi).validate(),
        Err(ConfigError::PllRatio)
    );
    assert_eq!(CFGR::new().use_pll(16.mhz(), PllClkSrc::Hsi).validate(), Ok(()));
    assert_eq!(
        CFGR::new()
            .use_hse(Hertz(0))
            .bypass_hse_oscillator()
            .use_pll(16.mhz(), PllClkSrc::Hse)
            .validate(),
        Err(ConfigError::PllRatio)
    );
}

#[test]
fn pll_from_every_source() {
    let hsi = CFGR::new().use_pll(72.mhz(), PllClkSrc::Hsi).try_freeze().unwrap().clocks;
    assert_eq!(hsi.sysclk().0, 72_000_000);
    let hse = CFGR::new()
        .use_hse(12.mhz())
        .use_pll(36.mhz(), PllClkSrc::Hse)
        .try_freeze()
        .unwrap()
        .clocks;
    assert_eq!(hse.sysclk().0, 36_000_000);
    let halved = CFGR::new()
        .use_hse(16.mhz())
        .use_pll(56.mhz(), PllClkSrc::HseDiv2)
        .try_freeze()
        .unwrap()
        .clocks;
    assert_eq!(halved.sysclk().0, 56_000_000);
    let odd = CFGR::new()
        .use_hse(Hertz(5))
        .bypass_hse_oscillator()
        .use_pll(Hertz(6), PllClkSrc::HseDiv2)
        .try_freeze()
        .unwrap()
        .clocks;
    assert_eq!(odd.sysclk().0, 6);
}

#[test]
fn crystal_range_is_four_to_sixteen_megahertz() {
    assert_eq!(CFGR::new().use_hse(4.mhz()).validate(), Ok(()));
    assert_eq!(CFGR::new().use_hse(16.mhz()).validate(), Ok(()));
    assert_eq!(CFGR::new().use_hse(8.mhz()).try_freeze().unwrap().clocks.sysclk().0, 8_000_000);
    assert_eq!(
        CFGR::new().use_hse(Hertz(3_999_999)).validate(),
        Err(ConfigError::HseOutOfRange)
    );
    assert_eq!(
        CFGR::new().use_hse(Hertz(16_000_001)).validate(),
        Err(ConfigError::HseOutOfRange)
    );
    assert!(matches!(
        CFGR::new().use_hse(25.mhz()).try_freeze(),
        Err(ConfigError::HseOutOfRange)
    ));
}

#[test]
fn bypass_range_is_up_to_twenty_five_megahertz() {
    assert_eq!(CFGR::new().use_hse(25.mhz()).bypass_hse_oscillator().validate(), Ok(()));
    assert_eq!(CFGR::new().use_hse(Hertz(1)).bypass_hse_oscillator().validate(), Ok(()));
    assert_eq!(
        CFGR::new().use_hse(Hertz(25_000_001)).bypass_hse_oscillator().validate(),
        Err(ConfigError::HseOutOfRange)
    );
    let clocks = CFGR::new().use_hse(25.mhz()).bypass_hse_oscillator().try_freeze().unwrap().clocks;
    assert_eq!(clocks.sysclk().0, 25_000_000);
}

#[test]
fn every_fault_has_its_request() {
    assert_eq!(
        ClockRequest { sysclk_source: Some(Sysclk::Hse), ..unset() }.validate(),
        Err(ConfigError::HseMissing)
    );
    assert_eq!(
        CFGR::new().use_pll(48.mhz(), PllClkSrc::Hse).validate(),
        Err(ConfigError::HseMissing)
    );
    assert_eq!(
        ClockRequest { sysclk_source: Some(Sysclk::Pll), pll_freq: Some(48_000_000), ..unset() }
            .validate(),
        Err(ConfigError::PllSourceMissing)
    );
    assert_eq!(
        ClockRequest {
            sysclk_source: Some(Sysclk::Pll),
            pll_source: Some(PllClkSrc::Hsi),
            ..unset()
        }
        .validate(),
        Err(ConfigError::PllTargetMissing)
    );
    assert_eq!(
        ClockRequest {
            sysclk_source: Some(Sysclk::Pll),
            pll_source: Some(PllClkSrc::Hsi),
            pll_freq: Some(72_000_001),
            ..unset()
        }
        .validate(),
        Err(ConfigError::PllTargetTooHigh)
    );
    assert_eq!(CFGR::new().use_pll(Hertz(72_000_000), PllClkSrc::Hsi).validate(), Ok(()));
    assert_eq!(CFGR::new().hclk(Hertz(0)).validate(), Err(ConfigError::BusFrequencyZero));
    assert_eq!(CFGR::new().pclk1(Hertz(0)).validate(), Err(ConfigError::BusFrequencyZero));
    assert_eq!(CFGR::new().pclk2(Hertz(0)).validate(), Err(ConfigError::BusFrequencyZero));
    assert_eq!(
        ClockRequest { rtc_source: Some(Rtc::Lse), ..unset() }.validate(),
        Err(ConfigError::LseMissing)
    );
    assert_eq!(CFGR::new().use_lse(Hertz(499)).validate(), Err(ConfigError::LseOutOfRange));
    assert_eq!(
        CFGR::new().use_lse(Hertz(u32::MAX - 499)).validate(),
        Err(ConfigError::LseOutOfRange)
    );
    assert_eq!(CFGR::new().use_lse(Hertz(500)).validate(), Ok(()));
    assert_eq!(CFGR::new().use_lse(Hertz(u32::MAX - 500)).validate(), Ok(()));
}

#[test]
fn the_first_fault_wins() {
    let cfgr = CFGR::new()
        .use_hse(1.mhz())
        .use_pll(45.mhz(), PllClkSrc::Hsi)
        .hclk(Hertz(0))
        .use_lse(Hertz(1));
    assert_eq!(cfgr.validate(), Err(ConfigError::HseOutOfRange));
    let cfgr = CFGR::new().use_pll(45.mhz(), PllClkSrc::Hsi).hclk(Hertz(0)).use_lse(Hertz(1));
    assert_eq!(cfgr.validate(), Err(ConfigError::PllRatio));
    let cfgr = CFGR::new().hclk(Hertz(0)).use_lse(Hertz(1));
    assert_eq!(cfgr.validate(), Err(ConfigError::BusFrequencyZero));
}

#[test]
fn no_bus_requests_means_no_division() {
    let cfgr = CFGR::new().use_pll(64.mhz(), PllClkSrc::Hsi);
    assert_eq!(cfgr.request().prescalers(), (0, 0, 0));
    let clocks = cfgr.try_freeze().unwrap().clocks;
    assert_eq!(clocks.sysclk().0, 64_000_000);
    assert_eq!(clocks.hclk().0, 64_000_000);
    assert_eq!(clocks.pclk1().0, 64_000_000);
    assert_eq!(clocks.pclk2().0, 64_000_000);
    let clocks = CFGR::new().try_freeze().unwrap().clocks;
    assert_eq!(clocks.sysclk().0, 8_000_000);
    assert_eq!(clocks.hclk().0, 8_000_000);
    assert_eq!(clocks.pclk1().0, 8_000_000);
    assert_eq!(clocks.pclk2().0, 8_000_000);
    assert!(clocks.rtc_clk().is_none());
}

#[test]
fn peripheral_buses_divide_the_core_bus() {
    let cfgr = CFGR::new()
        .use_pll(48.mhz(), PllClkSrc::Hsi)
        .hclk(24.mhz())
        .pclk1(12.mhz())
        .pclk2(6.mhz());
    assert_eq!(cfgr.request().prescalers(), (0b1000, 0b100, 0b101));
    let clocks = cfgr.try_freeze().unwrap().clocks;
    assert_eq!(clocks.hclk().0, 24_000_000);
    assert_eq!(clocks.pclk1().0, 12_000_000);
    assert_eq!(clocks.pclk2().0, 6_000_000);
}

#[test]
fn core_bus_ladder_rungs() {
    let s = 72_000_000;
    assert_eq!(ahb_prescaler(s, 100_000_000), (0b0000, s));
    assert_eq!(ahb_prescaler(s, 72_000_000), (0b0000, s));
    assert_eq!(ahb_prescaler(s, 71_999_999), (0b1000, 36_000_000));
    assert_eq!(ahb_prescaler(s, 36_000_000), (0b1000, 36_000_000));
    assert_eq!(ahb_prescaler(s, 35_999_999), (0b1001, 18_000_000));
    assert_eq!(ahb_prescaler(s, 18_000_000), (0b1001, 18_000_000));
    assert_eq!(ahb_prescaler(s, 17_999_999), (0b1010, 9_000_000));
    assert_eq!(ahb_prescaler(s, 12_000_000), (0b1010, 9_000_000));
    assert_eq!(ahb_prescaler(s, 9_000_000), (0b1010, 9_000_000));
    assert_eq!(ahb_prescaler(s, 8_999_999), (0b1011, 4_500_000));
    assert_eq!(ahb_prescaler(s, 4_500_000), (0b1011, 4_500_000));
    assert_eq!(ahb_prescaler(s, 4_499_999), (0b1100, 1_125_000));
    assert_eq!(ahb_prescaler(s, 2_250_000), (0b1100, 1_125_000));
    assert_eq!(ahb_prescaler(s, 1_125_000), (0b1100, 1_125_000));
    assert_eq!(ahb_prescaler(s, 1_124_999), (0b1101, 562_500));
    assert_eq!(ahb_prescaler(s, 562_500), (0b1101, 562_500));
    assert_eq!(ahb_prescaler(s, 562_499), (0b1110, 281_250));
    assert_eq!(ahb_prescaler(s, 281_250), (0b1110, 281_250));
    assert_eq!(ahb_prescaler(s, 281_249), (0b1111, 140_625));
    assert_eq!(ahb_prescaler(s, 140_625), (0b1111, 140_625));
    assert_eq!(ahb_prescaler(s, 1), (0b1111, 140_625));
    assert_eq!(ahb_prescaler(s, 0), (0b1111, 140_625));
    assert_eq!(ahb_prescaler(0, 1), (0b0000, 0));
    assert_eq!(ahb_prescaler(0, 0), (0b0000, 0));
    assert_eq!(ahb_prescaler(511, 0), (0b1111, 0));
    assert_eq!(ahb_prescaler(512, 0), (0b1111, 1));
}

#[test]
fn the_core_bus_never_exceeds_its_request() {
    assert_eq!(ahb_prescaler(48_000_000, 30_000_000), (0b1000, 24_000_000));
    assert_eq!(ahb_prescaler(48_000_000, 8_000_000), (0b1010, 6_000_000));
    assert_eq!(ahb_prescaler(48_000_000, 47_999_999), (0b1000, 24_000_000));
    assert_eq!(ahb_prescaler(8_000_000, 3_000_000), (0b1001, 2_000_000));
    assert_eq!(ahb_prescaler(7, 3), (0b1000, 3));
    assert_eq!(ahb_prescaler(7, 2), (0b1001, 1));
    let clocks = CFGR::new()
        .use_pll(48.mhz(), PllClkSrc::Hsi)
        .hclk(30.mhz())
        .pclk1(10.mhz())
        .pclk2(24.mhz())
        .try_freeze()
        .unwrap()
        .clocks;
    assert_eq!(clocks.sysclk().0, 48_000_000);
    assert_eq!(clocks.hclk().0, 24_000_000);
    assert_eq!(clocks.pclk1().0, 6_000_000);
    assert_eq!(clocks.pclk2().0, 24_000_000);
}

#[test]
fn peripheral_bus_ladder_rungs() {
    let h = 48_000_000;
    assert_eq!(apb_prescaler(h, 50_000_000), (0b000, h));
    assert_eq!(apb_prescaler(h, 48_000_000), (0b000, h));
    assert_eq!(apb_prescaler(h, 47_999_999), (0b100, 24_000_000));
    assert_eq!(apb_prescaler(h, 24_000_000), (0b100, 24_000_000));
    assert_eq!(apb_prescaler(h, 23_999_999), (0b101, 12_000_000));
    assert_eq!(apb_prescaler(h, 16_000_000), (0b101, 12_000_000));
    assert_eq!(apb_prescaler(h, 12_000_000), (0b101, 12_000_000));
    assert_eq!(apb_prescaler(h, 11_999_999), (0b110, 6_000_000));
    assert_eq!(apb_prescaler(h, 6_000_000), (0b110, 6_000_000));
    assert_eq!(apb_prescaler(h, 5_999_999), (0b111, 3_000_000));
    assert_eq!(apb_prescaler(h, 3_000_000), (0b111, 3_000_000));
    assert_eq!(apb_prescaler(h, 1), (0b111, 3_000_000));
    assert_eq!(apb_prescaler(h, 0), (0b111, 3_000_000));
    assert_eq!(apb_prescaler(24_000_000, 10_000_000), (0b101, 6_000_000));
    assert_eq!(apb_prescaler(0, 0), (0b000, 0));
}

#[test]
fn asking_for_more_never_yields_less() {
    let sysclk = 48_000_000;
    let mut request = 1;
    let mut last = 0;
    while request <= 2 * sysclk {
        let (_, hclk) = ahb_prescaler(sysclk, request);
        assert!(hclk >= last);
        assert!(hclk <= sysclk);
        assert!(hclk >= sysclk / 512);
        if sysclk / 512 <= request {
            assert!(hclk <= request);
        }
        if hclk < sysclk {
            assert!(request <= 4 * hclk + 2);
        }
        let (_, pclk) = apb_prescaler(hclk, request / 3);
        assert!(pclk <= hclk);
        assert!(pclk >= hclk / 16);
        if hclk / 16 <= request / 3 {
            assert!(pclk <= request / 3);
        }
        last = hclk;
        request += 9_973;
    }
    assert_eq!(last, sysclk);
}

#[test]
fn low_speed_sources_feed_the_counter() {
    let lsi = CFGR::new().use_lsi().try_freeze().unwrap().clocks;
    assert_eq!(lsi.rtc_clk().unwrap().0, 40_000);
    assert_eq!(lsi.sysclk().0, 8_000_000);
    let lse = CFGR::new().use_lse(32_768.hz()).try_freeze().unwrap().clocks;
    assert_eq!(lse.rtc_clk().unwrap().0, 32_768);
}

#[test]
fn the_record_names_the_oscillator_in_use() {
    assert_eq!(
        CFGR::new().clock_config(),
        ClockConfig { use_hsi: true, use_hse: false, source: Sysclk::Hsi }
    );
    assert_eq!(
        CFGR::new().use_hsi().clock_config(),
        ClockConfig { use_hsi: true, use_hse: false, source: Sysclk::Hsi }
    );
    assert_eq!(
        CFGR::new().use_hse(8.mhz()).clock_config(),
        ClockConfig { use_hsi: false, use_hse: true, source: Sysclk::Hse }
    );
    assert_eq!(
        CFGR::new().use_pll(48.mhz(), PllClkSrc::HsiDiv2).clock_config(),
        ClockConfig { use_hsi: true, use_hse: false, source: Sysclk::Pll }
    );
    assert_eq!(
        CFGR::new().use_hse(8.mhz()).use_pll(48.mhz(), PllClkSrc::HseDiv2).clock_config(),
        ClockConfig { use_hsi: false, use_hse: true, source: Sysclk::Pll }
    );
}
