//! Encoding of a 12-bit duty cycle into the chip's low/high register pair.

use vstd::prelude::*;

verus! {

/// Number of ticks in one PWM cycle; a duty cycle is a tick count below it.
pub const TICKS_PER_CYCLE: u16 = 4096;

/// Largest duty cycle the chip accepts.
pub const MAX_DUTY_CYCLE: u16 = 4095;

/// A duty cycle fits in the chip's 12-bit tick counter.
pub open spec fn duty_cycle_valid(duty_cycle: int) -> bool {
    0 <= duty_cycle < TICKS_PER_CYCLE
}

/// Low byte of a duty cycle: its eight lowest bits.
pub open spec fn duty_low(duty_cycle: u16) -> u8 {
    (duty_cycle & 0xFF) as u8
}

/// High byte of a duty cycle: bits 8 to 11, the rest being insignificant.
pub open spec fn duty_high(duty_cycle: u16) -> u8 {
    ((duty_cycle >> 8) & 0xF) as u8
}

/// Splits a duty cycle into the bytes written to its "off" registers,
/// low byte first.
pub fn split_duty_cycle(duty_cycle: u16) -> (r: (u8, u8))
    ensures
        r.0 == duty_low(duty_cycle),
        r.1 == duty_high(duty_cycle),
{
    (((duty_cycle & 0xFF) as u8), (((duty_cycle >> 8) & 0xF) as u8))
}

/// For every duty cycle the chip accepts, the two bytes put back together
/// give the duty cycle again: no significant bit is lost by the split.
pub proof fn lemma_duty_split_round_trip(duty_cycle: u16)
    requires
        duty_cycle_valid(duty_cycle as int),
    ensures
        duty_low(duty_cycle) == duty_cycle & 0xFF,
        duty_high(duty_cycle) == (duty_cycle >> 8) & 0xF,
        (duty_low(duty_cycle) as u16) | ((duty_high(duty_cycle) as u16) << 8) == duty_cycle,
{
    assert((((duty_cycle & 0xFF) as u8) as u16) | (((((duty_cycle >> 8) & 0xF) as u8) as u16) << 8)
        == duty_cycle) by (bit_vector)
        requires
            duty_cycle < 4096,
    ;
    assert(((duty_cycle & 0xFF) as u8) as u16 == duty_cycle & 0xFF) by (bit_vector);
    assert((((duty_cycle >> 8) & 0xF) as u8) as u16 == (duty_cycle >> 8) & 0xF) by (bit_vector);
}

} // verus!
