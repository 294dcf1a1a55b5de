//! Fixed clock-tree settings.
use vstd::prelude::*;

verus! {

/// Frequency of the external oscillator, in Hz.
pub const HSE_FREQ: u32 = 8_000_000;

/// Target system clock frequency, in Hz.
pub const SYSCLK: u32 = 168_000_000;

/// AHB prescaler code: the AHB bus runs at the system clock.
pub const HPRE: u32 = 1;

/// APB1 prescaler code: system clock divided by 4 (42 MHz).
pub const PPRE1: u32 = 0b101;

/// APB2 prescaler code: system clock divided by 2 (84 MHz).
pub const PPRE2: u32 = 0b100;

/// Clock-source selector code for the multiplied (PLL) clock.
pub const PLL_SELECTED: u32 = 0b10;

/// Flash wait states: one per started 30 MHz of system clock.
pub const FLASH_LATENCY: u32 = (SYSCLK - 1) / 30_000_000;

/// Input divisor of the multiplier.
pub const PLL_M: u32 = 8;

/// Multiplication factor of the multiplier.
pub const PLL_N: u32 = 336;

/// Output divisor code of the multiplier (code 0 divides by 2).
pub const PLL_P: u32 = 0;

/// Divisor code of the multiplier's secondary (48 MHz domain) output.
pub const PLL_Q: u32 = 7;

/// Number of timer periods that make up one second.
pub const SAMPLE_DIVISOR: u32 = 8;

/// Divisor between the AHB clock and the periodic timer's reference clock,
/// which the timer counts when its clock-source bit is left clear.
pub const TIMER_REF_DIVISOR: u32 = 8;

/// Frequency that the periodic timer counts at, in Hz.
pub const TIMER_CLOCK: u32 = SYSCLK / TIMER_REF_DIVISOR;

/// Timer clock cycles in one timer period.
pub const TICK_PERIOD: u32 = TIMER_CLOCK / SAMPLE_DIVISOR;

/// Largest value that the timer's 24-bit reload field holds.
pub const RELOAD_MAX: u32 = 0x00FF_FFFF;

/// Reload value of the periodic timer. The counter runs from the reload value
/// down to 0, so one period lasts `TICK_RELOAD + 1` timer cycles.
pub const TICK_RELOAD: u32 = TICK_PERIOD - 1;

/// Output divisor selected by a multiplier output-divisor code.
pub open spec fn pllp_divisor(code: u32) -> int {
    2 * (code + 1)
}

/// Divisor of the AHB bus selected by an AHB prescaler code.
pub open spec fn ahb_divisor(code: u32) -> int {
    if code < 8 {
        1
    } else if code == 8 {
        2
    } else if code == 9 {
        4
    } else if code == 10 {
        8
    } else if code == 11 {
        16
    } else if code == 12 {
        64
    } else if code == 13 {
        128
    } else if code == 14 {
        256
    } else {
        512
    }
}

/// Divisor of an APB bus selected by an APB prescaler code.
pub open spec fn apb_divisor(code: u32) -> int {
    if code < 4 {
        1
    } else if code == 4 {
        2
    } else if code == 5 {
        4
    } else if code == 6 {
        8
    } else {
        16
    }
}

/// Frequency of the multiplier's oscillator stage for the given settings.
pub open spec fn pll_vco(hse: int, m: int, n: int) -> int {
    hse / m * n
}

/// Frequency produced by the multiplier from the oscillator for the given settings.
pub open spec fn pll_output(hse: int, m: int, n: int, p_code: u32) -> int {
    pll_vco(hse, m, n) / pllp_divisor(p_code)
}

/// Frequency of the multiplier's secondary (48 MHz domain) output.
pub open spec fn pll48_output(hse: int, m: int, n: int, q: u32) -> int {
    pll_vco(hse, m, n) / (q as int)
}

/// Frequency of the AHB bus.
pub open spec fn hclk() -> int {
    SYSCLK as int / ahb_divisor(HPRE)
}

/// The multiplier settings bring the oscillator frequency to exactly the
/// target system frequency and its secondary output to 48 MHz; the AHB bus
/// runs at the system clock, APB1 at 42 MHz and APB2 at 84 MHz; the flash
/// wait states give one per started 30 MHz of system clock.
pub proof fn lemma_clock_settings()
    ensures
        pll_output(HSE_FREQ as int, PLL_M as int, PLL_N as int, PLL_P) == SYSCLK as int,
        pll48_output(HSE_FREQ as int, PLL_M as int, PLL_N as int, PLL_Q) == 48_000_000,
        hclk() == SYSCLK as int,
        hclk() / apb_divisor(PPRE1) == 42_000_000,
        hclk() / apb_divisor(PPRE2) == 84_000_000,
        FLASH_LATENCY == 5,
        FLASH_LATENCY as int == (SYSCLK as int - 1) / 30_000_000,
{
    assert(HSE_FREQ as int / PLL_M as int == 1_000_000);
    assert(1_000_000int * PLL_N as int == 336_000_000);
    assert(pll_vco(HSE_FREQ as int, PLL_M as int, PLL_N as int) == 336_000_000);
    assert(pllp_divisor(PLL_P) == 2);
}

/// The timer counts the AHB clock divided by 8; its reload value fits the
/// 24-bit reload field; and `SAMPLE_DIVISOR` timer periods last exactly
/// `TIMER_CLOCK` timer cycles, that is one second.
pub proof fn lemma_tick_period()
    ensures
        TIMER_CLOCK as int == hclk() / TIMER_REF_DIVISOR as int,
        TIMER_CLOCK == 21_000_000,
        1 <= TICK_RELOAD <= RELOAD_MAX,
        (TICK_RELOAD as int + 1) * SAMPLE_DIVISOR as int == TIMER_CLOCK as int,
        TICK_RELOAD == 2_624_999,
{
}

} // verus!
