//! The chip's register map.

use vstd::prelude::*;

verus! {

/// Primary mode register: sleep, restart and auto-increment control.
pub const MODE_1_REG: u8 = 0x00;

/// Secondary mode register: output driver configuration.
pub const MODE_2_REG: u8 = 0x01;

/// Channel 0 "on" tick, low byte; channel `n` is at `+4 * n`.
pub const LED0_ON_L: u8 = 0x06;

/// Channel 0 "on" tick, high byte.
pub const LED0_ON_H: u8 = 0x07;

/// Channel 0 "off" tick, low byte.
pub const LED0_OFF_L: u8 = 0x08;

/// Channel 0 "off" tick, high byte.
pub const LED0_OFF_H: u8 = 0x09;

/// Broadcast "on" tick, low byte.
pub const ALL_ON_L: u8 = 0xFA;

/// Broadcast "on" tick, high byte.
pub const ALL_ON_H: u8 = 0xFB;

/// Broadcast "off" tick, low byte.
pub const ALL_OFF_L: u8 = 0xFC;

/// Broadcast "off" tick, high byte.
pub const ALL_OFF_H: u8 = 0xFD;

/// Oscillator prescaler register.
pub const PRE_SCALE_REG: u8 = 0xFE;

/// Number of PWM channels.
pub const CHANNEL_COUNT: u8 = 16;

/// Address of register `base` of channel `channel`, where `base` is one of
/// the four channel 0 registers.
pub open spec fn channel_register(base: u8, channel: u8) -> int {
    base as int + 4 * channel as int
}

/// The address of a channel register: `base + 4 * channel`.
pub fn channel_reg(base: u8, channel: u8) -> (r: u8)
    requires
        LED0_ON_L <= base <= LED0_OFF_H,
        channel < CHANNEL_COUNT,
    ensures
        r == channel_register(base, channel),
{
    base + 4 * channel
}

} // verus!
