//! Frequency, prescaler and pulse-length arithmetic.
//!
//! The chip divides its 25 MHz internal oscillator by `prescaler + 1` and
//! cuts each PWM cycle into 4096 ticks. With the output frequency `f` in Hz,
//! one period lasts `1_000_000 / f` microseconds and one tick
//! `1_000_000 / (4096 * f)` microseconds. All of it is stated here in exact
//! integer arithmetic.

use vstd::prelude::*;

verus! {

/// Rate of the chip's internal oscillator, in Hz.
pub const OSCILLATOR_HZ: u32 = 25_000_000;

/// Lowest output frequency the chip supports, in Hz.
pub const MIN_FREQUENCY: u16 = 40;

/// Highest output frequency the chip supports, in Hz.
pub const MAX_FREQUENCY: u16 = 1000;

/// Microseconds in one second.
pub const MICROS_PER_SECOND: u32 = 1_000_000;

/// Ticks in one PWM cycle.
pub const TICKS: u32 = 4096;

/// The chip can run at this output frequency.
pub open spec fn frequency_valid(frequency: int) -> bool {
    MIN_FREQUENCY <= frequency <= MAX_FREQUENCY
}

/// `n / d` rounded to the nearest integer, halves rounded up.
pub open spec fn round_div(n: int, d: int) -> int {
    (2 * n + d) / (2 * d)
}

/// The datasheet's prescaler: `round(25_000_000 / 4096 / frequency) - 1`.
pub open spec fn prescale_value(frequency: int) -> int {
    round_div(OSCILLATOR_HZ as int, TICKS * frequency) - 1
}

/// The length of one period in microseconds, rounded up to a whole
/// microsecond: the shortest whole pulse that no longer fits in a period.
pub open spec fn period_us(frequency: int) -> int {
    (MICROS_PER_SECOND + frequency - 1) / frequency
}

/// A pulse of `us` microseconds is shorter than one period:
/// `us < 1_000_000 / frequency`.
pub open spec fn pulse_fits(us: int, frequency: int) -> bool {
    us * frequency < MICROS_PER_SECOND
}

/// Whole ticks in a pulse of `us` microseconds:
/// `floor(us / time_per_tick)` with `time_per_tick = 1_000_000 / 4096 / frequency`.
pub open spec fn pulse_ticks(us: int, frequency: int) -> int {
    us * TICKS * frequency / MICROS_PER_SECOND as int
}

proof fn lemma_round_div_nearest(n: int, d: int)
    requires
        n >= 0,
        d > 0,
    ensures
        2 * (round_div(n, d) * d - n) <= d,
        2 * (n - round_div(n, d) * d) < d,
{
    let q = round_div(n, d);
    vstd::arithmetic::div_mod::lemma_fundamental_div_mod(2 * n + d, 2 * d);
    let r = (2 * n + d) % (2 * d);
    assert(2 * n + d == 2 * d * q + r);
    assert(0 <= r < 2 * d);
    assert(2 * d * q == 2 * (q * d)) by (nonlinear_arith);
}

/// The prescaler is the nearest integer to `25_000_000 / (4096 * frequency)`,
/// less one, and it fits in the chip's prescale register for every supported
/// frequency.
pub proof fn lemma_prescale_nearest(frequency: int)
    requires
        frequency_valid(frequency),
    ensures
        2 * ((prescale_value(frequency) + 1) * (TICKS * frequency) - OSCILLATOR_HZ) <= TICKS
            * frequency,
        2 * (OSCILLATOR_HZ - (prescale_value(frequency) + 1) * (TICKS * frequency)) < TICKS
            * frequency,
        5 <= prescale_value(frequency) <= 152,
{
    let d = TICKS * frequency;
    lemma_round_div_nearest(OSCILLATOR_HZ as int, d);
    let q = round_div(OSCILLATOR_HZ as int, d);
    if q < 6 {
        assert(q * d <= 5 * d) by (nonlinear_arith)
            requires
                q <= 5,
                d > 0,
        ;
    }
    if q > 153 {
        assert(q * d >= 154 * d) by (nonlinear_arith)
            requires
                q >= 154,
                d > 0,
        ;
    }
}

/// The prescaler for `frequency`.
pub fn prescale(frequency: u16) -> (r: u8)
    requires
        frequency_valid(frequency as int),
    ensures
        r == prescale_value(frequency as int),
{
    proof {
        lemma_prescale_nearest(frequency as int);
    }
    let d: u32 = TICKS * frequency as u32;
    ((2 * OSCILLATOR_HZ + d) / (2 * d) - 1) as u8
}

/// Whole microseconds are shorter than the period exactly when they are
/// below the rounded-up period.
pub proof fn lemma_period_bound(us: int, frequency: int)
    requires
        us >= 0,
        frequency > 0,
    ensures
        pulse_fits(us, frequency) <==> us < period_us(frequency),
{
    let p = period_us(frequency);
    vstd::arithmetic::div_mod::lemma_fundamental_div_mod(MICROS_PER_SECOND + frequency - 1, frequency);
    let r = (MICROS_PER_SECOND + frequency - 1) % frequency;
    assert(MICROS_PER_SECOND + frequency - 1 == frequency * p + r);
    assert(0 <= r < frequency);
    if us < p {
        assert(us * frequency <= (p - 1) * frequency) by (nonlinear_arith)
            requires
                us <= p - 1,
                frequency > 0,
        ;
        assert((p - 1) * frequency == frequency * p - frequency) by (nonlinear_arith);
    } else {
        assert(us * frequency >= p * frequency) by (nonlinear_arith)
            requires
                us >= p,
                frequency > 0,
        ;
        assert(p * frequency == frequency * p) by (nonlinear_arith);
    }
}

/// The tick count of a pulse is `floor(us / time_per_tick)`: whole ticks
/// cover no more than the pulse and one more tick would cover more. A pulse
/// shorter than the period gives a duty cycle the chip accepts.
pub proof fn lemma_pulse_ticks(us: int, frequency: int)
    requires
        us >= 0,
        frequency > 0,
    ensures
        pulse_ticks(us, frequency) * MICROS_PER_SECOND <= us * TICKS * frequency,
        us * TICKS * frequency < (pulse_ticks(us, frequency) + 1) * MICROS_PER_SECOND,
        pulse_fits(us, frequency) ==> 0 <= pulse_ticks(us, frequency) < TICKS,
{
    let n = us * TICKS * frequency;
    let t = pulse_ticks(us, frequency);
    vstd::arithmetic::div_mod::lemma_fundamental_div_mod(n, MICROS_PER_SECOND as int);
    assert(n >= 0) by (nonlinear_arith)
        requires
            n == us * 4096 * frequency,
            us >= 0,
            frequency > 0,
    ;
    if pulse_fits(us, frequency) {
        assert(n < 4096 * 1_000_000) by (nonlinear_arith)
            requires
                n == us * 4096 * frequency,
                us * frequency < 1_000_000,
        ;
    }
}

/// The duty cycle of a pulse of `us` microseconds at `frequency`, for a pulse
/// shorter than the period.
pub fn pulse_to_duty_cycle(us: u32, frequency: u16) -> (r: u16)
    requires
        frequency_valid(frequency as int),
        pulse_fits(us as int, frequency as int),
    ensures
        r == pulse_ticks(us as int, frequency as int),
        r < TICKS,
{
    proof {
        lemma_pulse_ticks(us as int, frequency as int);
    }
    let n: u64 = us as u64 * TICKS as u64 * frequency as u64;
    (n / MICROS_PER_SECOND as u64) as u16
}

} // verus!
