//! What holds of every clock request.

use crate::rcc::{
    ClockRequest, ConfigError, PllClkSrc, Sysclk, HSE_BYPASS_MAX, HSE_CRYSTAL_MAX,
    HSE_CRYSTAL_MIN, PLL_MAX,
};
use crate::rcc_model::{
    ahb_divisor, ahb_output, ahb_rung, apb_divisor, apb_output, apb_rung, pll_ratio_ok, reaches,
};
use crate::regs::{run, Reg, RegOp};
use vstd::prelude::*;

verus! {

/// A request that names a crystal of frequency `f` is rejected for the
/// oscillator exactly when `f` lies outside 4 MHz to 16 MHz, whatever
/// else it asks for, and then hands out nothing to write; inside that
/// range the verdict is that of the rest of the request. Asked for alone,
/// such a crystal is accepted exactly inside the range.
pub proof fn lemma_crystal_range(req: ClockRequest, f: u32)
    requires
        req.hse_freq == Some(f),
        !req.hse_bypass,
    ensures
        !(HSE_CRYSTAL_MIN <= f <= HSE_CRYSTAL_MAX) ==> req.check() == Err::<(), ConfigError>(
            ConfigError::HseOutOfRange,
        ) && req.writes() == Seq::<RegOp>::empty(),
        HSE_CRYSTAL_MIN <= f <= HSE_CRYSTAL_MAX ==> (req.check() is Ok <==> req.sysclk_check() is Ok
            && req.bus_requests_ok() && req.rtc_check() is Ok),
        (ClockRequest {
            sysclk_source: Some(Sysclk::Hse),
            hse_freq: Some(f),
            ..ClockRequest::unset()
        }).check() is Ok <==> HSE_CRYSTAL_MIN <= f <= HSE_CRYSTAL_MAX,
{
}

/// A request that names a bypassed external clock of frequency `f` is
/// rejected for the oscillator exactly when `f` is above 25 MHz, whatever
/// else it asks for, and then hands out nothing to write; up to there the
/// verdict is that of the rest of the request. Asked for alone, such a
/// clock is accepted exactly up to 25 MHz.
pub proof fn lemma_bypass_range(req: ClockRequest, f: u32)
    requires
        req.hse_freq == Some(f),
        req.hse_bypass,
    ensures
        f > HSE_BYPASS_MAX ==> req.check() == Err::<(), ConfigError>(ConfigError::HseOutOfRange)
            && req.writes() == Seq::<RegOp>::empty(),
        f <= HSE_BYPASS_MAX ==> (req.check() is Ok <==> req.sysclk_check() is Ok
            && req.bus_requests_ok() && req.rtc_check() is Ok),
        (ClockRequest {
            sysclk_source: Some(Sysclk::Hse),
            hse_freq: Some(f),
            hse_bypass: true,
            ..ClockRequest::unset()
        }).check() is Ok <==> f <= HSE_BYPASS_MAX,
{
}

/// Where the PLL feeds the system clock with a target `t` of at most
/// 72 MHz from an input `s`, and nothing else is wrong with the request:
/// if `t / s` is a whole number above one the request is accepted and the
/// system clock is `s * (t / s)`, which is `t`; otherwise it is rejected
/// for the ratio.
pub proof fn lemma_pll_output(req: ClockRequest, s: int, t: u32)
    requires
        req.sysclk_source == Some(Sysclk::Pll),
        req.pll_freq == Some(t),
        req.pll_input() == Some(s),
        t <= PLL_MAX,
        req.hse_in_range(),
        req.bus_requests_ok(),
        req.rtc_check() is Ok,
    ensures
        pll_ratio_ok(t as int, s) ==> req.check() is Ok && req.snapshot().sysclk == s * (t as int
            / s) && req.snapshot().sysclk == t,
        !pll_ratio_ok(t as int, s) ==> req.check() == Err::<(), ConfigError>(ConfigError::PllRatio),
{
    if pll_ratio_ok(t as int, s) {
        crate::rcc_model::lemma_whole_ratio(t as int, s);
    }
}

/// A request that feeds the system clock from the PLL is rejected,
/// whatever else it asks for, where the target is not a whole multiple, at
/// least twice, of the PLL's input; it then hands out nothing to write, so
/// that neither the PLL is switched on nor the system clock switched to
/// it.
pub proof fn lemma_pll_ratio_rejected(req: ClockRequest, s: int, t: u32)
    requires
        req.sysclk_source == Some(Sysclk::Pll),
        req.pll_freq == Some(t),
        req.pll_input() == Some(s),
        !pll_ratio_ok(t as int, s),
    ensures
        req.check() is Err,
        req.writes() == Seq::<RegOp>::empty(),
        forall|reg: Reg, word: u32| #[trigger] run(req.writes(), reg, word) == word,
{
}

/// An accepted request that feeds the system clock from the PLL runs the
/// system clock at exactly the PLL's target, which is the input times the
/// whole ratio of the two and at most 72 MHz.
pub proof fn lemma_pll_exact(req: ClockRequest)
    requires
        req.sysclk_source == Some(Sysclk::Pll),
        req.check() is Ok,
    ensures
        req.pll_freq is Some,
        req.pll_input() is Some,
        pll_ratio_ok(req.pll_freq->0 as int, req.pll_input()->0),
        req.snapshot().sysclk == req.pll_freq->0,
        req.snapshot().sysclk == req.pll_input()->0 * (req.pll_freq->0 as int / req.pll_input()->0),
        req.snapshot().sysclk <= PLL_MAX,
{
    crate::rcc_model::lemma_whole_ratio(req.pll_freq->0 as int, req.pll_input()->0);
}

/// A rejected request hands out nothing to write: whatever a register
/// held, it still holds.
pub proof fn lemma_rejected_writes_nothing(req: ClockRequest)
    requires
        req.check() is Err,
    ensures
        req.writes() == Seq::<RegOp>::empty(),
        forall|reg: Reg, word: u32| #[trigger] run(req.writes(), reg, word) == word,
{
}

/// Asked for alone, a PLL target `t` of at most 72 MHz from the internal
/// oscillator, whole or halved, is accepted exactly when `t` is a whole
/// multiple, at least twice, of that input `s`; the system clock is then
/// `s * (t / s)`.
pub proof fn lemma_pll_alone(t: u32, halved: bool)
    requires
        t <= PLL_MAX,
    ensures
        ({
            let req = ClockRequest {
                sysclk_source: Some(Sysclk::Pll),
                pll_source: Some(
                    if halved {
                        PllClkSrc::HsiDiv2
                    } else {
                        PllClkSrc::Hsi
                    },
                ),
                pll_freq: Some(t),
                ..ClockRequest::unset()
            };
            let s: int = if halved {
                4_000_000
            } else {
                8_000_000
            };
            &&& req.pll_input() == Some(s)
            &&& req.check() is Ok <==> pll_ratio_ok(t as int, s)
            &&& !pll_ratio_ok(t as int, s) ==> req.check() == Err::<(), ConfigError>(
                ConfigError::PllRatio,
            )
            &&& pll_ratio_ok(t as int, s) ==> req.snapshot().sysclk == s * (t as int / s)
        }),
{
}

/// The multiplier field holds the multiplier less two as long as that fits
/// in its four bits, which is up to 17; of a larger one it keeps the low
/// four bits only.
pub proof fn lemma_pll_field(multiplier: int)
    requires
        2 <= multiplier,
    ensures
        crate::rcc_program::pll_field(multiplier) <= 15,
        multiplier <= 17 ==> crate::rcc_program::pll_field(multiplier) == multiplier - 2,
        multiplier > 17 ==> crate::rcc_program::pll_field(multiplier) != multiplier - 2,
{
}

/// The divisor of the core bus is a rung of its ladder; it brings the
/// source down to the request wherever the largest rung does, and is the
/// largest rung where none does; and no smaller rung brings the source
/// down to the request.
pub proof fn lemma_ahb_divisor_least(source: int, request: int)
    ensures
        ahb_rung(ahb_divisor(source, request)),
        reaches(source, 512, request) ==> reaches(source, ahb_divisor(source, request), request),
        0 <= source && !reaches(source, 512, request) ==> ahb_divisor(source, request) == 512,
        forall|smaller: int| #[trigger]
            ahb_rung(smaller) && smaller < ahb_divisor(source, request) ==> !reaches(
                source,
                smaller,
                request,
            ),
{
}

/// A rung that brings the source down to the request, while no smaller
/// rung does, is the divisor of the core bus: there is no other such rung.
pub proof fn lemma_ahb_divisor_unique(source: int, request: int, divisor: int)
    requires
        ahb_rung(divisor),
        reaches(source, divisor, request),
        forall|smaller: int| #[trigger]
            ahb_rung(smaller) && smaller < divisor ==> !reaches(source, smaller, request),
    ensures
        divisor == ahb_divisor(source, request),
{
    lemma_ahb_divisor_least(source, request);
    let chosen = ahb_divisor(source, request);
    if chosen < divisor {
        assert(ahb_rung(chosen));
    } else if divisor < chosen {
        assert(ahb_rung(divisor));
    }
}

/// The divisor of a peripheral bus is a rung of its ladder; it brings the
/// source down to the request wherever the largest rung does, and is the
/// largest rung where none does; and no smaller rung brings the source
/// down to the request.
pub proof fn lemma_apb_divisor_least(source: int, request: int)
    ensures
        apb_rung(apb_divisor(source, request)),
        reaches(source, 16, request) ==> reaches(source, apb_divisor(source, request), request),
        0 <= source && !reaches(source, 16, request) ==> apb_divisor(source, request) == 16,
        forall|smaller: int| #[trigger]
            apb_rung(smaller) && smaller < apb_divisor(source, request) ==> !reaches(
                source,
                smaller,
                request,
            ),
{
}

/// A rung that brings the source down to the request, while no smaller
/// rung does, is the divisor of a peripheral bus.
pub proof fn lemma_apb_divisor_unique(source: int, request: int, divisor: int)
    requires
        apb_rung(divisor),
        reaches(source, divisor, request),
        forall|smaller: int| #[trigger]
            apb_rung(smaller) && smaller < divisor ==> !reaches(source, smaller, request),
    ensures
        divisor == apb_divisor(source, request),
{
    lemma_apb_divisor_least(source, request);
    let chosen = apb_divisor(source, request);
    if chosen < divisor {
        assert(apb_rung(chosen));
    } else if divisor < chosen {
        assert(apb_rung(divisor));
    }
}

/// Down the ladder the result only falls, and never below zero.
pub proof fn lemma_rungs_descend(source: int)
    requires
        0 <= source,
    ensures
        source / 1 == source,
        source / 2 <= source / 1,
        source / 4 <= source / 2,
        source / 8 <= source / 4,
        source / 16 <= source / 8,
        source / 64 <= source / 16,
        source / 128 <= source / 64,
        source / 256 <= source / 128,
        source / 512 <= source / 256,
        0 <= source / 512,
{
}

/// A larger request never selects a larger divisor.
pub proof fn lemma_ahb_divisor_monotonic(source: int, low: int, high: int)
    requires
        low <= high,
    ensures
        ahb_divisor(source, high) <= ahb_divisor(source, low),
{
}

/// A larger request never selects a larger divisor.
pub proof fn lemma_apb_divisor_monotonic(source: int, low: int, high: int)
    requires
        low <= high,
    ensures
        apb_divisor(source, high) <= apb_divisor(source, low),
{
}

/// For a fixed system clock, asking for more never yields less: the core
/// bus frequency for the larger request is at least that for the smaller.
/// Whatever is asked, the result lies between the system clock over 512,
/// the lowest that the ladder goes, and the system clock itself. It is at
/// most the request wherever the ladder reaches that far; and where the
/// clock is divided at all, it is divided no further than the next rung
/// demands, so that four times the result, and two more, cover the
/// request.
pub proof fn lemma_core_bus_monotonic(sysclk: int, low: u32, high: u32)
    requires
        0 <= sysclk,
        low <= high,
    ensures
        ahb_output(sysclk, Some(low)) <= ahb_output(sysclk, Some(high)),
        ahb_output(sysclk, Some(high)) <= sysclk,
        sysclk / 512 <= ahb_output(sysclk, Some(low)),
        reaches(sysclk, 512, low as int) ==> ahb_output(sysclk, Some(low)) <= low,
        ahb_divisor(sysclk, low as int) > 1 ==> low <= 4 * ahb_output(sysclk, Some(low)) + 2,
{
    lemma_rungs_descend(sysclk);
    lemma_ahb_divisor_monotonic(sysclk, low as int, high as int);
    lemma_ahb_divisor_least(sysclk, low as int);
    lemma_ahb_divisor_least(sysclk, high as int);
}

/// For a fixed core clock, asking for more never yields less on a
/// peripheral bus. Whatever is asked, the result lies between the core
/// clock over 16 and the core clock itself. It is at most the request
/// wherever the ladder reaches that far; and where the clock is divided at
/// all, twice the result covers the request.
pub proof fn lemma_peripheral_bus_monotonic(hclk: int, low: u32, high: u32)
    requires
        0 <= hclk,
        low <= high,
    ensures
        apb_output(hclk, Some(low)) <= apb_output(hclk, Some(high)),
        apb_output(hclk, Some(high)) <= hclk,
        hclk / 16 <= apb_output(hclk, Some(low)),
        reaches(hclk, 16, low as int) ==> apb_output(hclk, Some(low)) <= low,
        apb_divisor(hclk, low as int) > 1 ==> low <= 2 * apb_output(hclk, Some(low)),
{
    lemma_rungs_descend(hclk);
    lemma_apb_divisor_monotonic(hclk, low as int, high as int);
    lemma_apb_divisor_least(hclk, low as int);
    lemma_apb_divisor_least(hclk, high as int);
}

/// With no bus frequency asked for, all three buses run at the system
/// clock, and every prescaler field is zero: no division.
pub proof fn lemma_no_bus_requests(req: ClockRequest)
    requires
        req.hclk_freq is None,
        req.pclk1_freq is None,
        req.pclk2_freq is None,
    ensures
        req.hclk() == req.sysclk(),
        req.pclk1() == req.sysclk(),
        req.pclk2() == req.sysclk(),
        req.hpre() == 0,
        req.ppre1() == 0,
        req.ppre2() == 0,
{
}

/// A peripheral bus never runs faster than the core bus, nor the core bus
/// faster than the system clock, which never exceeds 72 MHz. Each bus runs
/// at most at the frequency asked of it, wherever its ladder reaches that
/// far.
pub proof fn lemma_bus_order(req: ClockRequest)
    requires
        req.check() is Ok,
    ensures
        0 <= req.pclk1() <= req.hclk() <= req.sysclk(),
        0 <= req.pclk2() <= req.hclk(),
        req.sysclk() <= PLL_MAX,
        req.hclk_freq is Some && reaches(req.sysclk(), 512, req.hclk_freq->0 as int) ==> req.hclk()
            <= req.hclk_freq->0,
        req.pclk1_freq is Some && reaches(req.hclk(), 16, req.pclk1_freq->0 as int) ==> req.pclk1()
            <= req.pclk1_freq->0,
        req.pclk2_freq is Some && reaches(req.hclk(), 16, req.pclk2_freq->0 as int) ==> req.pclk2()
            <= req.pclk2_freq->0,
{
    if req.sysclk_source == Some(Sysclk::Pll) {
        crate::rcc_model::lemma_whole_ratio(req.pll_freq->0 as int, req.pll_input()->0);
    }
    lemma_rungs_descend(req.sysclk());
    lemma_rungs_descend(req.hclk());
}

} // verus!
