//! The current-indicator LEDs. Each LED sits on an active-low pin: it is dark
//! while its channel carries less than the threshold current, and otherwise
//! blinks with a period of 700 ms, lit for a share of each period that grows
//! with the current.
//!
//! The lit share of a period comes from a floating-point curve of the current
//! (a power of 0.7, see the application); it reaches these functions as
//! `on_ms`, the number of milliseconds of each period during which the LED is
//! lit, i.e. the least integer not below `700 * duty`.
use vstd::prelude::*;

verus! {

/// Blink period of the LEDs.
pub const PERIOD_MS: u32 = 700;

/// Currents below this many milliamps leave the LED dark.
pub const THRESHOLD_CURRENT_MA: u32 = 100;

/// Currents at or above this many milliamps give the longest lit share.
pub const DISPLAY_MAX_MA: u32 = 15_000;

/// Level of an LED pin; the LEDs are active low.
#[derive(Clone, Copy, Debug, PartialEq, Eq, Structural)]
pub enum PinLevel {
    /// The LED is dark.
    High,
    /// The LED is lit.
    Low,
}

/// Position in the blink period of a tick count that the timer hands out in
/// milliseconds; the count is taken modulo 2^32 first, as a 32-bit tick.
pub open spec fn spec_phase(elapsed_ms: u64) -> int {
    (elapsed_ms as int % 0x1_0000_0000) % (PERIOD_MS as int)
}

pub fn duty_phase(elapsed_ms: u64) -> (r: u32)
    ensures
        r == spec_phase(elapsed_ms),
        r < PERIOD_MS,
{
    assert((elapsed_ms as u32) as u64 == elapsed_ms % 0x1_0000_0000) by (bit_vector);
    let low: u32 = #[verifier::truncate] (elapsed_ms as u32);
    low % PERIOD_MS
}

/// Whether the LED is lit at `elapsed_ms` when it is lit `on_ms` of each
/// period: it is lit in the first `on_ms` milliseconds of the period.
pub fn duty_cycle_mode(elapsed_ms: u64, on_ms: u32) -> (r: bool)
    ensures
        r == (spec_phase(elapsed_ms) < on_ms),
{
    duty_phase(elapsed_ms) < on_ms
}

/// The current that sets the lit share: the measured one, capped at
/// `DISPLAY_MAX_MA`. The share grows with `display_current / DISPLAY_MAX_MA`.
pub fn display_current(current_ma: u32) -> (r: u32)
    ensures
        r == (if current_ma < DISPLAY_MAX_MA {
            current_ma
        } else {
            DISPLAY_MAX_MA
        }),
        r <= DISPLAY_MAX_MA,
{
    if current_ma < DISPLAY_MAX_MA {
        current_ma
    } else {
        DISPLAY_MAX_MA
    }
}

/// Whether a current leaves the LED dark whatever the time.
pub fn is_below_threshold(current_ma: u32) -> (r: bool)
    ensures
        r == (current_ma < THRESHOLD_CURRENT_MA),
{
    current_ma < THRESHOLD_CURRENT_MA
}

/// The level an LED is driven to at `elapsed_ms` for a channel current of
/// `current_ma`, when the lit share for that current is `on_ms`.
pub open spec fn spec_led_level(current_ma: u32, elapsed_ms: u64, on_ms: u32) -> PinLevel {
    if current_ma < THRESHOLD_CURRENT_MA {
        PinLevel::High
    } else if spec_phase(elapsed_ms) < on_ms {
        PinLevel::Low
    } else {
        PinLevel::High
    }
}

pub fn led_level(current_ma: u32, elapsed_ms: u64, on_ms: u32) -> (r: PinLevel)
    ensures
        r == spec_led_level(current_ma, elapsed_ms, on_ms),
        current_ma >= THRESHOLD_CURRENT_MA ==> (r == PinLevel::Low <==> spec_phase(elapsed_ms)
            < on_ms),
        current_ma < THRESHOLD_CURRENT_MA ==> r == PinLevel::High,
{
    if is_below_threshold(current_ma) {
        return PinLevel::High;
    }
    if duty_cycle_mode(elapsed_ms, on_ms) {
        PinLevel::Low
    } else {
        PinLevel::High
    }
}

/// The phase within a blink period, written out: below 2^32 ms it is the
/// tick modulo 700, and a tick of 2^32 ms or more has the phase of the tick
/// 2^32 ms earlier (the tick counts in 32 bits).
pub proof fn lemma_phase_law(t: u64)
    ensures
        0 <= spec_phase(t) < 700,
        t < 0x1_0000_0000 ==> spec_phase(t) == t % 700,
        t >= 0x1_0000_0000 ==> spec_phase(t) == spec_phase((t - 0x1_0000_0000) as u64),
{
    if t >= 0x1_0000_0000 {
        let u = (t - 0x1_0000_0000) as u64;
        assert(t as int % 0x1_0000_0000 == u as int % 0x1_0000_0000) by (nonlinear_arith)
            requires
                t == u + 0x1_0000_0000,
        ;
    }
}

/// At or above the threshold current an LED is lit exactly during the first
/// `on_ms` milliseconds of each 700 ms period, and dark for the rest of it;
/// below the threshold it is dark.
pub proof fn lemma_lit_in_first_on_ms(current_ma: u32, t: u64, on_ms: u32)
    ensures
        current_ma >= 100 ==> ((spec_led_level(current_ma, t, on_ms) == PinLevel::Low) <==> (
        spec_phase(t) < on_ms)),
        current_ma < 100 ==> spec_led_level(current_ma, t, on_ms) == PinLevel::High,
        t < 700 && current_ma >= 100 ==> ((spec_led_level(current_ma, t, on_ms) == PinLevel::Low)
            <==> t < on_ms),
{
}

/// The blink repeats every period: as long as the 32-bit tick does not wrap
/// in between, an LED has the same level at `t` and at `t + 700`.
pub proof fn lemma_blink_periodic(current_ma: u32, t: u64, on_ms: u32)
    requires
        t % 0x1_0000_0000 + PERIOD_MS < 0x1_0000_0000,
        t + PERIOD_MS <= u64::MAX,
    ensures
        spec_led_level(current_ma, (t + PERIOD_MS) as u64, on_ms) == spec_led_level(
            current_ma,
            t,
            on_ms,
        ),
{
    let u = (t + PERIOD_MS) as u64;
    assert(u % 0x1_0000_0000 == t % 0x1_0000_0000 + PERIOD_MS) by (nonlinear_arith)
        requires
            u == t + 700,
            t % 0x1_0000_0000 + 700 < 0x1_0000_0000,
    ;
    let m = t % 0x1_0000_0000;
    assert((m + 700) % 700 == m % 700) by (nonlinear_arith)
        requires
            m >= 0,
    ;
}

/// Below the threshold an LED stays dark; at or above it, a share of zero
/// keeps it dark and a full share of 700 keeps it lit.
pub proof fn lemma_led_extremes(current_ma: u32, t: u64)
    ensures
        current_ma < THRESHOLD_CURRENT_MA ==> forall|on: u32| #[trigger]
            spec_led_level(current_ma, t, on) == PinLevel::High,
        spec_led_level(current_ma, t, 0) == PinLevel::High,
        current_ma >= THRESHOLD_CURRENT_MA ==> spec_led_level(current_ma, t, PERIOD_MS)
            == PinLevel::Low,
{
}

} // verus!
