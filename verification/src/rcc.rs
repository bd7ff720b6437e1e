//! The clock tree: a builder that collects the wanted configuration, the
//! check that accepts or rejects it, the frequencies that result and the
//! register program that brings the hardware there.

use crate::rcc_model::{ahb_prescaler, apb_prescaler};
use crate::regs::RegOp;
use crate::time::Hertz;
use vstd::prelude::*;

verus! {

/// Frequency of the internal high-speed oscillator.
pub const HSI: u32 = 8_000_000;

/// Frequency of the internal low-speed oscillator.
pub const LSI: u32 = 40_000;

/// Highest frequency that the PLL may be asked for.
pub const PLL_MAX: u32 = 72_000_000;

/// Highest frequency of an external clock fed in with the oscillator bypassed.
pub const HSE_BYPASS_MAX: u32 = 25_000_000;

/// Lowest frequency of an external crystal.
pub const HSE_CRYSTAL_MIN: u32 = 4_000_000;

/// Highest frequency of an external crystal.
pub const HSE_CRYSTAL_MAX: u32 = 16_000_000;

/// What feeds the system clock.
#[derive(Clone, Copy, PartialEq, Eq, Debug, Structural)]
pub enum Sysclk {
    Hsi,
    Hse,
    Pll,
}

/// What feeds the PLL.
#[derive(Clone, Copy, PartialEq, Eq, Debug, Structural)]
pub enum PllClkSrc {
    Hsi,
    HsiDiv2,
    Hse,
    HseDiv2,
}

/// What feeds the real-time counter.
#[derive(Clone, Copy, PartialEq, Eq, Debug, Structural)]
pub enum Rtc {
    Lsi,
    Lse,
}

/// Why a clock configuration is rejected.
#[derive(Clone, Copy, PartialEq, Eq, Debug, Structural)]
pub enum ConfigError {
    /// The external oscillator is outside the range of its kind: above
    /// 25 MHz when bypassed, outside 4 MHz to 16 MHz as a crystal.
    HseOutOfRange,
    /// The external oscillator is selected but has no frequency.
    HseMissing,
    /// The PLL feeds the system clock but has no source.
    PllSourceMissing,
    /// The PLL feeds the system clock but has no target frequency.
    PllTargetMissing,
    /// The PLL target is above 72 MHz.
    PllTargetTooHigh,
    /// The PLL target is not a whole multiple, at least twice, of its source.
    PllRatio,
    /// A bus frequency of zero was asked for.
    BusFrequencyZero,
    /// The external low-speed oscillator is selected but has no frequency.
    LseMissing,
    /// The low-speed frequency gives no millisecond prescaler.
    LseOutOfRange,
}

/// The wanted configuration, as plain data: what a `CFGR` stands for.
#[derive(Clone, Copy, PartialEq, Eq, Debug, Structural)]
pub struct ClockRequest {
    pub hse_freq: Option<u32>,
    pub hse_bypass: bool,
    pub pll_source: Option<PllClkSrc>,
    pub pll_freq: Option<u32>,
    pub sysclk_source: Option<Sysclk>,
    pub hclk_freq: Option<u32>,
    pub pclk1_freq: Option<u32>,
    pub pclk2_freq: Option<u32>,
    pub lse_freq: Option<u32>,
    pub lse_bypass: bool,
    pub rtc_source: Option<Rtc>,
}

/// The clock configuration builder. Every field starts unset, which stands
/// for the hardware default.
pub struct CFGR {
    request: ClockRequest,
}

/// The frequencies that a frozen configuration runs at.
#[derive(Clone, Copy, Debug)]
pub struct Clocks {
    sysclk: Hertz,
    hclk: Hertz,
    pclk1: Hertz,
    pclk2: Hertz,
    rtc_clk: Option<Hertz>,
}

/// What a `Clocks` stands for: the frequencies as numbers.
pub struct ClockSnapshot {
    pub sysclk: int,
    pub hclk: int,
    pub pclk1: int,
    pub pclk2: int,
    pub rtc_clk: Option<int>,
}

/// What has to outlive a sleep: which oscillators the configuration uses
/// and what feeds the system clock.
#[derive(Clone, Copy, PartialEq, Eq, Debug, Structural)]
pub struct ClockConfig {
    pub use_hsi: bool,
    pub use_hse: bool,
    pub source: Sysclk,
}

/// All that freezing an accepted configuration yields.
pub struct Frozen {
    /// The frequencies that the clocks run at once the program is carried
    /// out.
    pub clocks: Clocks,
    /// The register program, to be carried out in order.
    pub program: Vec<RegOp>,
    /// The record to keep for `CFGR::restore_clock`.
    pub record: ClockConfig,
}

/// The constrained clock-control block.
pub struct Rcc {
    pub cfgr: CFGR,
}

/// Turns the raw clock-control peripheral into its builder.
pub trait RccExt {
    type Rcc;

    fn constrain(self) -> Self::Rcc;
}

impl ClockRequest {
    /// The request that asks for nothing.
    pub open spec fn unset() -> ClockRequest {
        ClockRequest {
            hse_freq: None,
            hse_bypass: false,
            pll_source: None,
            pll_freq: None,
            sysclk_source: None,
            hclk_freq: None,
            pclk1_freq: None,
            pclk2_freq: None,
            lse_freq: None,
            lse_bypass: false,
            rtc_source: None,
        }
    }
}

impl RccExt for ch32v1::ch32v103::RCC {
    type Rcc = Rcc;

    /// Consumes the clock-control peripheral and hands out a builder with
    /// nothing requested.
    fn constrain(self) -> (r: Rcc)
        ensures
            r.cfgr@ == ClockRequest::unset(),
    {
        Rcc { cfgr: CFGR::new() }
    }
}

impl View for CFGR {
    type V = ClockRequest;

    closed spec fn view(&self) -> ClockRequest {
        self.request
    }
}

impl CFGR {
    /// A builder with nothing requested.
    pub fn new() -> (r: CFGR)
        ensures
            r@ == ClockRequest::unset(),
    {
        CFGR {
            request: ClockRequest {
                hse_freq: None,
                hse_bypass: false,
                pll_source: None,
                pll_freq: None,
                sysclk_source: None,
                hclk_freq: None,
                pclk1_freq: None,
                pclk2_freq: None,
                lse_freq: None,
                lse_bypass: false,
                rtc_source: None,
            },
        }
    }

    /// The request collected so far.
    pub fn request(&self) -> (r: ClockRequest)
        ensures
            r == self@,
    {
        self.request
    }

    /// Marks the external oscillator as an external clock fed into a
    /// bypassed oscillator.
    pub fn bypass_hse_oscillator(self) -> (r: CFGR)
        ensures
            r@ == (ClockRequest { hse_bypass: true, ..self@ }),
    {
        let mut s = self;
        s.request.hse_bypass = true;
        s
    }

    /// Feeds the system clock from the internal oscillator.
    pub fn use_hsi(self) -> (r: CFGR)
        ensures
            r@ == (ClockRequest { sysclk_source: Some(Sysclk::Hsi), ..self@ }),
    {
        let mut s = self;
        s.request.sysclk_source = Some(Sysclk::Hsi);
        s
    }

    /// Feeds the system clock from the external oscillator of the given
    /// frequency.
    pub fn use_hse(self, freq: Hertz) -> (r: CFGR)
        ensures
            r@ == (ClockRequest {
                sysclk_source: Some(Sysclk::Hse),
                hse_freq: Some(freq.0),
                ..self@
            }),
    {
        let mut s = self;
        s.request.sysclk_source = Some(Sysclk::Hse);
        s.request.hse_freq = Some(freq.0);
        s
    }

    /// Feeds the system clock from the PLL, which is to give `freq` from
    /// `src`. The PLL gives at most 72 MHz.
    pub fn use_pll(self, freq: Hertz, src: PllClkSrc) -> (r: CFGR)
        requires
            freq.0 <= PLL_MAX,
        ensures
            r@ == (ClockRequest {
                sysclk_source: Some(Sysclk::Pll),
                pll_source: Some(src),
                pll_freq: Some(freq.0),
                ..self@
            }),
    {
        let mut s = self;
        s.request.sysclk_source = Some(Sysclk::Pll);
        s.request.pll_source = Some(src);
        s.request.pll_freq = Some(freq.0);
        s
    }

    /// Asks for a core-bus frequency.
    pub fn hclk(self, freq: Hertz) -> (r: CFGR)
        ensures
            r@ == (ClockRequest { hclk_freq: Some(freq.0), ..self@ }),
    {
        let mut s = self;
        s.request.hclk_freq = Some(freq.0);
        s
    }

    /// Asks for a frequency of the first peripheral bus.
    pub fn pclk1(self, freq: Hertz) -> (r: CFGR)
        ensures
            r@ == (ClockRequest { pclk1_freq: Some(freq.0), ..self@ }),
    {
        let mut s = self;
        s.request.pclk1_freq = Some(freq.0);
        s
    }

    /// Asks for a frequency of the second peripheral bus.
    pub fn pclk2(self, freq: Hertz) -> (r: CFGR)
        ensures
            r@ == (ClockRequest { pclk2_freq: Some(freq.0), ..self@ }),
    {
        let mut s = self;
        s.request.pclk2_freq = Some(freq.0);
        s
    }

    /// Marks the external low-speed oscillator as bypassed.
    pub fn bypass_lse_oscillator(self) -> (r: CFGR)
        ensures
            r@ == (ClockRequest { lse_bypass: true, ..self@ }),
    {
        let mut s = self;
        s.request.lse_bypass = true;
        s
    }

    /// Feeds the real-time counter from the internal low-speed oscillator.
    pub fn use_lsi(self) -> (r: CFGR)
        ensures
            r@ == (ClockRequest { rtc_source: Some(Rtc::Lsi), ..self@ }),
    {
        let mut s = self;
        s.request.rtc_source = Some(Rtc::Lsi);
        s
    }

    /// Feeds the real-time counter from the external low-speed oscillator
    /// of the given frequency.
    pub fn use_lse(self, freq: Hertz) -> (r: CFGR)
        ensures
            r@ == (ClockRequest { rtc_source: Some(Rtc::Lse), lse_freq: Some(freq.0), ..self@ }),
    {
        let mut s = self;
        s.request.rtc_source = Some(Rtc::Lse);
        s.request.lse_freq = Some(freq.0);
        s
    }
}

impl View for Clocks {
    type V = ClockSnapshot;

    closed spec fn view(&self) -> ClockSnapshot {
        ClockSnapshot {
            sysclk: self.sysclk.0 as int,
            hclk: self.hclk.0 as int,
            pclk1: self.pclk1.0 as int,
            pclk2: self.pclk2.0 as int,
            rtc_clk: match self.rtc_clk {
                Some(f) => Some(f.0 as int),
                None => None,
            },
        }
    }
}

impl Clocks {
    /// The system clock.
    pub fn sysclk(&self) -> (r: Hertz)
        ensures
            r.0 == self@.sysclk,
    {
        self.sysclk
    }

    /// The core-bus clock.
    pub fn hclk(&self) -> (r: Hertz)
        ensures
            r.0 == self@.hclk,
    {
        self.hclk
    }

    /// The clock of the first peripheral bus.
    pub fn pclk1(&self) -> (r: Hertz)
        ensures
            r.0 == self@.pclk1,
    {
        self.pclk1
    }

    /// The clock of the second peripheral bus.
    pub fn pclk2(&self) -> (r: Hertz)
        ensures
            r.0 == self@.pclk2,
    {
        self.pclk2
    }

    /// The clock that feeds the real-time counter, if one was selected.
    pub fn rtc_clk(&self) -> (r: Option<Hertz>)
        ensures
            match r {
                Some(f) => self@.rtc_clk == Some(f.0 as int),
                None => self@.rtc_clk is None,
            },
    {
        self.rtc_clk
    }
}

impl ClockRequest {
    /// The frequencies that the request yields.
    pub open spec fn snapshot(self) -> ClockSnapshot {
        ClockSnapshot {
            sysclk: self.sysclk(),
            hclk: self.hclk(),
            pclk1: self.pclk1(),
            pclk2: self.pclk2(),
            rtc_clk: self.rtc_clk(),
        }
    }

    /// The record that the request leaves for a later restore: the
    /// oscillator behind the system clock counts as used, the other does
    /// not.
    pub open spec fn persistent(self) -> ClockConfig {
        match self.sysclk_source {
            Some(Sysclk::Hse) => ClockConfig { use_hsi: false, use_hse: true, source: Sysclk::Hse },
            Some(Sysclk::Pll) => match self.pll_source {
                Some(PllClkSrc::Hse) | Some(PllClkSrc::HseDiv2) => ClockConfig {
                    use_hsi: false,
                    use_hse: true,
                    source: Sysclk::Pll,
                },
                _ => ClockConfig { use_hsi: true, use_hse: false, source: Sysclk::Pll },
            },
            _ => ClockConfig { use_hsi: true, use_hse: false, source: Sysclk::Hsi },
        }
    }
}

impl ClockRequest {
    /// The frequency at the PLL's input, where its source is named and has
    /// a frequency.
    pub fn pll_input_freq(&self) -> (r: Option<u32>)
        ensures
            match r {
                Some(v) => self.pll_input() == Some(v as int),
                None => self.pll_input() is None,
            },
    {
        match self.pll_source {
            Some(PllClkSrc::Hsi) => Some(HSI),
            Some(PllClkSrc::HsiDiv2) => Some(HSI / 2),
            Some(PllClkSrc::Hse) => self.hse_freq,
            Some(PllClkSrc::HseDiv2) => match self.hse_freq {
                Some(f) => Some(f / 2),
                None => None,
            },
            None => None,
        }
    }

    fn validate_hse(&self) -> (ok: bool)
        ensures
            ok == self.hse_in_range(),
    {
        match self.hse_freq {
            Some(f) => if self.hse_bypass {
                f <= HSE_BYPASS_MAX
            } else {
                HSE_CRYSTAL_MIN <= f && f <= HSE_CRYSTAL_MAX
            },
            None => true,
        }
    }

    fn validate_pll(&self) -> (r: Result<(), ConfigError>)
        ensures
            r == self.pll_check(),
    {
        if self.pll_source.is_none() {
            return Err(ConfigError::PllSourceMissing);
        }
        let target: u32 = match self.pll_freq {
            Some(t) => t,
            None => {
                return Err(ConfigError::PllTargetMissing);
            },
        };
        if target > PLL_MAX {
            return Err(ConfigError::PllTargetTooHigh);
        }
        let input: u32 = match self.pll_input_freq() {
            Some(s) => s,
            None => {
                return Err(ConfigError::HseMissing);
            },
        };
        if input == 0 || target % input != 0 || target / input <= 1 {
            return Err(ConfigError::PllRatio);
        }
        Ok(())
    }

    fn validate_sysclk(&self) -> (r: Result<(), ConfigError>)
        ensures
            r == self.sysclk_check(),
    {
        match self.sysclk_source {
            Some(Sysclk::Hse) => if self.hse_freq.is_none() {
                Err(ConfigError::HseMissing)
            } else {
                Ok(())
            },
            Some(Sysclk::Pll) => self.validate_pll(),
            _ => Ok(()),
        }
    }

    fn validate_rtc(&self) -> (r: Result<(), ConfigError>)
        ensures
            r == self.rtc_check(),
    {
        match self.rtc_source {
            Some(Rtc::Lse) => match self.lse_freq {
                None => Err(ConfigError::LseMissing),
                Some(f) => if 500 <= f && f <= u32::MAX - 500 {
                    Ok(())
                } else {
                    Err(ConfigError::LseOutOfRange)
                },
            },
            _ => Ok(()),
        }
    }

    /// Accepts the configuration or names its first fault. Nothing is
    /// programmed for a configuration that this rejects.
    pub fn validate(&self) -> (r: Result<(), ConfigError>)
        ensures
            r == self.check(),
    {
        if !self.validate_hse() {
            return Err(ConfigError::HseOutOfRange);
        }
        let sys = self.validate_sysclk();
        if sys.is_err() {
            return sys;
        }
        if is_zero(self.hclk_freq) || is_zero(self.pclk1_freq) || is_zero(self.pclk2_freq) {
            return Err(ConfigError::BusFrequencyZero);
        }
        self.validate_rtc()
    }

    /// The system clock of an accepted configuration.
    pub fn resolve_sysclk(&self) -> (r: u32)
        requires
            self.check() is Ok,
        ensures
            r == self.sysclk(),
            self.sysclk_source == Some(Sysclk::Pll) ==> r == self.pll_freq->0,
    {
        match self.sysclk_source {
            Some(Sysclk::Hse) => match self.hse_freq {
                Some(f) => f,
                None => HSI,
            },
            Some(Sysclk::Pll) => {
                match (self.pll_input_freq(), self.pll_freq) {
                    (Some(s), Some(t)) => {
                        let multiplier: u32 = t / s;
                        proof {
                            crate::rcc_model::lemma_whole_ratio(t as int, s as int);
                        }
                        s * multiplier
                    },
                    _ => HSI,
                }
            },
            _ => HSI,
        }
    }

    /// The frequencies of an accepted configuration.
    pub fn resolve(&self) -> (r: Clocks)
        requires
            self.check() is Ok,
        ensures
            r@ == self.snapshot(),
    {
        let sysclk: u32 = self.resolve_sysclk();
        let hclk: u32 = match self.hclk_freq {
            Some(f) => ahb_prescaler(sysclk, f).1,
            None => sysclk,
        };
        let pclk1: u32 = match self.pclk1_freq {
            Some(f) => apb_prescaler(hclk, f).1,
            None => hclk,
        };
        let pclk2: u32 = match self.pclk2_freq {
            Some(f) => apb_prescaler(hclk, f).1,
            None => hclk,
        };
        let rtc_clk: Option<Hertz> = match self.rtc_source {
            Some(Rtc::Lsi) => Some(Hertz(LSI)),
            Some(Rtc::Lse) => match self.lse_freq {
                Some(f) => Some(Hertz(f)),
                None => None,
            },
            None => None,
        };
        Clocks { sysclk: Hertz(sysclk), hclk: Hertz(hclk), pclk1: Hertz(pclk1), pclk2: Hertz(pclk2), rtc_clk }
    }

    /// The record that the request leaves for a later restore.
    pub fn persistent_state(&self) -> (r: ClockConfig)
        ensures
            r == self.persistent(),
    {
        match self.sysclk_source {
            Some(Sysclk::Hse) => ClockConfig { use_hsi: false, use_hse: true, source: Sysclk::Hse },
            Some(Sysclk::Pll) => match self.pll_source {
                Some(PllClkSrc::Hse) | Some(PllClkSrc::HseDiv2) => ClockConfig {
                    use_hsi: false,
                    use_hse: true,
                    source: Sysclk::Pll,
                },
                _ => ClockConfig { use_hsi: true, use_hse: false, source: Sysclk::Pll },
            },
            _ => ClockConfig { use_hsi: true, use_hse: false, source: Sysclk::Hsi },
        }
    }
}

impl CFGR {
    /// Accepts the configuration or names its first fault. Nothing is
    /// programmed for a configuration that this rejects.
    pub fn validate(&self) -> (r: Result<(), ConfigError>)
        ensures
            r == self@.check(),
    {
        self.request.validate()
    }

    /// The record to keep for `restore_clock`.
    pub fn clock_config(&self) -> (r: ClockConfig)
        ensures
            r == self@.persistent(),
    {
        self.request.persistent_state()
    }
}

/// True for a request of zero.
fn is_zero(request: Option<u32>) -> (r: bool)
    ensures
        r == (request == Some(0u32)),
{
    match request {
        Some(f) => f == 0,
        None => false,
    }
}

} // verus!
