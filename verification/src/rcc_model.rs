//! What a clock request means: when it is acceptable and which frequencies
//! it yields.

use crate::rcc::{
    ClockRequest, ConfigError, PllClkSrc, Rtc, Sysclk, HSE_BYPASS_MAX, HSE_CRYSTAL_MAX,
    HSE_CRYSTAL_MIN, HSI, LSI, PLL_MAX,
};
use vstd::prelude::*;

verus! {

/// The PLL can turn `input` into `target`: the ratio is a whole number of
/// at least two.
pub open spec fn pll_ratio_ok(target: int, input: int) -> bool {
    input > 0 && target % input == 0 && target / input > 1
}

/// Dividing `source` by `divisor` brings it down to `request` or below.
pub open spec fn reaches(source: int, divisor: int, request: int) -> bool {
    source / divisor <= request
}

/// The divisors that the core bus prescaler offers. There is no 32.
pub open spec fn ahb_rung(divisor: int) -> bool {
    divisor == 1 || divisor == 2 || divisor == 4 || divisor == 8 || divisor == 16 || divisor == 64
        || divisor == 128 || divisor == 256 || divisor == 512
}

/// The divisors that a peripheral bus prescaler offers.
pub open spec fn apb_rung(divisor: int) -> bool {
    divisor == 1 || divisor == 2 || divisor == 4 || divisor == 8 || divisor == 16
}

/// The divisor of the core bus: the least rung that brings `source` down
/// to `request` or below, and the largest rung if none does.
pub open spec fn ahb_divisor(source: int, request: int) -> int {
    if reaches(source, 1, request) {
        1
    } else if reaches(source, 2, request) {
        2
    } else if reaches(source, 4, request) {
        4
    } else if reaches(source, 8, request) {
        8
    } else if reaches(source, 16, request) {
        16
    } else if reaches(source, 64, request) {
        64
    } else if reaches(source, 128, request) {
        128
    } else if reaches(source, 256, request) {
        256
    } else {
        512
    }
}

/// The prescaler field that selects a divisor of the core bus.
pub open spec fn ahb_code(divisor: int) -> u8 {
    if divisor == 1 {
        0b0000
    } else if divisor == 2 {
        0b1000
    } else if divisor == 4 {
        0b1001
    } else if divisor == 8 {
        0b1010
    } else if divisor == 16 {
        0b1011
    } else if divisor == 64 {
        0b1100
    } else if divisor == 128 {
        0b1101
    } else if divisor == 256 {
        0b1110
    } else {
        0b1111
    }
}

/// The divisor of a peripheral bus: the least rung that brings `source`
/// down to `request` or below, and the largest rung if none does.
pub open spec fn apb_divisor(source: int, request: int) -> int {
    if reaches(source, 1, request) {
        1
    } else if reaches(source, 2, request) {
        2
    } else if reaches(source, 4, request) {
        4
    } else if reaches(source, 8, request) {
        8
    } else {
        16
    }
}

/// The prescaler field that selects a divisor of a peripheral bus.
pub open spec fn apb_code(divisor: int) -> u8 {
    if divisor == 1 {
        0b000
    } else if divisor == 2 {
        0b100
    } else if divisor == 4 {
        0b101
    } else if divisor == 8 {
        0b110
    } else {
        0b111
    }
}

/// The frequency of the core bus under `source`: divided by the divisor
/// that the request selects; without a request the bus runs at the
/// source's frequency.
pub open spec fn ahb_output(source: int, request: Option<u32>) -> int {
    match request {
        Some(f) => source / ahb_divisor(source, f as int),
        None => source,
    }
}

/// As `ahb_output`, for a peripheral bus below the core bus.
pub open spec fn apb_output(source: int, request: Option<u32>) -> int {
    match request {
        Some(f) => source / apb_divisor(source, f as int),
        None => source,
    }
}

/// The prescaler that makes a counter fed with `freq` tick once a
/// millisecond: the frequency in kilohertz, rounded, less one.
pub open spec fn rtc_prescaler(freq: int) -> int {
    (freq + 500) / 1000 - 1
}

impl ClockRequest {
    /// The external oscillator, if requested, is within the range of its
    /// kind.
    pub open spec fn hse_in_range(self) -> bool {
        match self.hse_freq {
            Some(f) => if self.hse_bypass {
                f <= HSE_BYPASS_MAX
            } else {
                HSE_CRYSTAL_MIN <= f <= HSE_CRYSTAL_MAX
            },
            None => true,
        }
    }

    /// The frequency at the PLL's input, where its source is named and has
    /// a frequency.
    pub open spec fn pll_input(self) -> Option<int> {
        match self.pll_source {
            Some(PllClkSrc::Hsi) => Some(HSI as int),
            Some(PllClkSrc::HsiDiv2) => Some(HSI as int / 2),
            Some(PllClkSrc::Hse) => match self.hse_freq {
                Some(f) => Some(f as int),
                None => None,
            },
            Some(PllClkSrc::HseDiv2) => match self.hse_freq {
                Some(f) => Some(f as int / 2),
                None => None,
            },
            None => None,
        }
    }

    /// The first fault of the PLL request, if it has one.
    pub open spec fn pll_check(self) -> Result<(), ConfigError> {
        if self.pll_source is None {
            Err(ConfigError::PllSourceMissing)
        } else if self.pll_freq is None {
            Err(ConfigError::PllTargetMissing)
        } else if self.pll_freq->0 > PLL_MAX {
            Err(ConfigError::PllTargetTooHigh)
        } else if self.pll_input() is None {
            Err(ConfigError::HseMissing)
        } else if !pll_ratio_ok(self.pll_freq->0 as int, self.pll_input()->0) {
            Err(ConfigError::PllRatio)
        } else {
            Ok(())
        }
    }

    /// The first fault of the system-clock selection, if it has one.
    pub open spec fn sysclk_check(self) -> Result<(), ConfigError> {
        match self.sysclk_source {
            Some(Sysclk::Hse) => if self.hse_freq is None {
                Err(ConfigError::HseMissing)
            } else {
                Ok(())
            },
            Some(Sysclk::Pll) => self.pll_check(),
            _ => Ok(()),
        }
    }

    /// No bus is asked to run at zero.
    pub open spec fn bus_requests_ok(self) -> bool {
        self.hclk_freq != Some(0u32) && self.pclk1_freq != Some(0u32) && self.pclk2_freq != Some(
            0u32,
        )
    }

    /// The first fault of the real-time counter's source, if it has one.
    pub open spec fn rtc_check(self) -> Result<(), ConfigError> {
        match self.rtc_source {
            Some(Rtc::Lse) => match self.lse_freq {
                None => Err(ConfigError::LseMissing),
                Some(f) => if 500 <= f && f + 500 <= u32::MAX {
                    Ok(())
                } else {
                    Err(ConfigError::LseOutOfRange)
                },
            },
            _ => Ok(()),
        }
    }

    /// The verdict on the request: `Ok`, or the first fault in the order
    /// oscillator, system clock, buses, real-time counter.
    pub open spec fn check(self) -> Result<(), ConfigError> {
        if !self.hse_in_range() {
            Err(ConfigError::HseOutOfRange)
        } else if self.sysclk_check() is Err {
            self.sysclk_check()
        } else if !self.bus_requests_ok() {
            Err(ConfigError::BusFrequencyZero)
        } else {
            self.rtc_check()
        }
    }

    /// The system clock that the request resolves to.
    pub open spec fn sysclk(self) -> int {
        match self.sysclk_source {
            Some(Sysclk::Hse) => match self.hse_freq {
                Some(f) => f as int,
                None => HSI as int,
            },
            Some(Sysclk::Pll) => match (self.pll_input(), self.pll_freq) {
                (Some(s), Some(t)) => s * (t as int / s),
                _ => HSI as int,
            },
            _ => HSI as int,
        }
    }

    /// The core-bus frequency.
    pub open spec fn hclk(self) -> int {
        ahb_output(self.sysclk(), self.hclk_freq)
    }

    /// The frequency of the first peripheral bus.
    pub open spec fn pclk1(self) -> int {
        apb_output(self.hclk(), self.pclk1_freq)
    }

    /// The frequency of the second peripheral bus.
    pub open spec fn pclk2(self) -> int {
        apb_output(self.hclk(), self.pclk2_freq)
    }

    /// The frequency that feeds the real-time counter, if one is selected.
    pub open spec fn rtc_clk(self) -> Option<int> {
        match self.rtc_source {
            Some(Rtc::Lsi) => Some(LSI as int),
            Some(Rtc::Lse) => match self.lse_freq {
                Some(f) => Some(f as int),
                None => None,
            },
            None => None,
        }
    }
}

/// Picks the core-bus prescaler for a request: the field value and the
/// frequency that results. The divisor is the least rung that brings the
/// system clock down to the request, so the result is at most the request
/// wherever the ladder reaches that far, and no smaller divisor would do.
pub fn ahb_prescaler(sysclk: u32, request: u32) -> (r: (u8, u32))
    ensures
        r.0 == ahb_code(ahb_divisor(sysclk as int, request as int)),
        r.1 == sysclk as int / ahb_divisor(sysclk as int, request as int),
        ahb_rung(ahb_divisor(sysclk as int, request as int)),
        reaches(sysclk as int, 512, request as int) ==> r.1 <= request,
        forall|smaller: int| #[trigger]
            ahb_rung(smaller) && smaller < ahb_divisor(sysclk as int, request as int) ==> !reaches(
                sysclk as int,
                smaller,
                request as int,
            ),
{
    if sysclk <= request {
        (0b0000, sysclk)
    } else if sysclk / 2 <= request {
        (0b1000, sysclk / 2)
    } else if sysclk / 4 <= request {
        (0b1001, sysclk / 4)
    } else if sysclk / 8 <= request {
        (0b1010, sysclk / 8)
    } else if sysclk / 16 <= request {
        (0b1011, sysclk / 16)
    } else if sysclk / 64 <= request {
        (0b1100, sysclk / 64)
    } else if sysclk / 128 <= request {
        (0b1101, sysclk / 128)
    } else if sysclk / 256 <= request {
        (0b1110, sysclk / 256)
    } else {
        (0b1111, sysclk / 512)
    }
}

/// Picks a peripheral-bus prescaler for a request: the field value and the
/// frequency that results. The divisor is the least rung that brings the
/// core clock down to the request, so the result is at most the request
/// wherever the ladder reaches that far, and no smaller divisor would do.
pub fn apb_prescaler(hclk: u32, request: u32) -> (r: (u8, u32))
    ensures
        r.0 == apb_code(apb_divisor(hclk as int, request as int)),
        r.1 == hclk as int / apb_divisor(hclk as int, request as int),
        apb_rung(apb_divisor(hclk as int, request as int)),
        reaches(hclk as int, 16, request as int) ==> r.1 <= request,
        forall|smaller: int| #[trigger]
            apb_rung(smaller) && smaller < apb_divisor(hclk as int, request as int) ==> !reaches(
                hclk as int,
                smaller,
                request as int,
            ),
{
    if hclk <= request {
        (0b000, hclk)
    } else if hclk / 2 <= request {
        (0b100, hclk / 2)
    } else if hclk / 4 <= request {
        (0b101, hclk / 4)
    } else if hclk / 8 <= request {
        (0b110, hclk / 8)
    } else {
        (0b111, hclk / 16)
    }
}

/// Where the target is a whole multiple of the input, multiplying the input
/// by the ratio gives the target back.
pub proof fn lemma_whole_ratio(target: int, input: int)
    requires
        input > 0,
        target >= 0,
        target % input == 0,
    ensures
        input * (target / input) == target,
{
    assert(target == input * (target / input) + target % input) by (nonlinear_arith)
        requires
            input > 0,
    ;
}

} // verus!
