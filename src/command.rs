//! Bus commands and the ordered sequences that each operation issues.

use vstd::prelude::*;
use crate::duty::{duty_high, duty_low};
use crate::registers::{
    channel_register, ALL_OFF_H, ALL_OFF_L, ALL_ON_H, ALL_ON_L, LED0_OFF_H, LED0_OFF_L, LED0_ON_H,
    LED0_ON_L, MODE_1_REG, MODE_2_REG, PRE_SCALE_REG,
};
use crate::timing::prescale_value;

verus! {

/// One step for the transport: a single-byte register write, or a blocking
/// wait.
#[derive(Clone, Copy, Debug, PartialEq, Eq, Structural)]
pub enum Command {
    /// Write `value` to the register at `register`.
    Write { register: u8, value: u8 },
    /// Block for the given number of milliseconds.
    DelayMs(u32),
}

/// Oscillator settling time after a sleep or wake transition, in milliseconds.
pub const SETTLE_MS: u32 = 6;

/// Mode 1 byte written at power-up: its low bit, the sleep bit, set.
pub const MODE_1_POWER_UP: u8 = 0x01;

/// Mode 1 bit that stops the oscillator while the prescaler is written.
pub const MODE_1_SLEEP: u8 = 0x10;

/// Mode 1 bit that restarts the oscillator cleanly.
pub const MODE_1_RESTART: u8 = 0x80;

/// Mode 2 byte that drives the outputs as totem poles.
pub const MODE_2_TOTEM_POLE: u8 = 0x04;

/// The mode byte of an awake chip after power-up: the sleep bit cleared.
pub open spec fn awake_mode() -> u8 {
    MODE_1_POWER_UP & !0x01u8
}

/// A write of `value` to the register at address `register`.
pub open spec fn write(register: int, value: u8) -> Command {
    Command::Write { register: register as u8, value }
}

/// The four writes that set one on/off register block: "on" at tick 0,
/// "off" at `duty_cycle`, low bytes before high bytes.
pub open spec fn duty_cycle_commands(on_l: int, on_h: int, off_l: int, off_h: int, duty_cycle: u16) -> Seq<Command> {
    seq![
        write(on_l, 0),
        write(on_h, 0),
        write(off_l, duty_low(duty_cycle)),
        write(off_h, duty_high(duty_cycle)),
    ]
}

/// The writes that set the duty cycle of one channel.
pub open spec fn channel_commands(channel: u8, duty_cycle: u16) -> Seq<Command> {
    duty_cycle_commands(
        channel_register(LED0_ON_L, channel),
        channel_register(LED0_ON_H, channel),
        channel_register(LED0_OFF_L, channel),
        channel_register(LED0_OFF_H, channel),
        duty_cycle,
    )
}

/// The writes that set the duty cycle of every channel at once.
pub open spec fn all_channel_commands(duty_cycle: u16) -> Seq<Command> {
    duty_cycle_commands(
        ALL_ON_L as int,
        ALL_ON_H as int,
        ALL_OFF_L as int,
        ALL_OFF_H as int,
        duty_cycle,
    )
}

/// The sequence that programs a new frequency for a chip whose awake mode
/// byte is `mode`: sleep, write the prescaler, wake, settle, restart.
pub open spec fn frequency_commands(mode: u8, frequency: u16) -> Seq<Command> {
    seq![
        write(MODE_1_REG as int, (mode & 0x7F) | MODE_1_SLEEP),
        write(PRE_SCALE_REG as int, prescale_value(frequency as int) as u8),
        write(MODE_1_REG as int, mode),
        Command::DelayMs(SETTLE_MS),
        write(MODE_1_REG as int, mode | MODE_1_RESTART),
    ]
}

/// The power-up sequence: all outputs low, output drivers configured, a
/// sleep and a wake each followed by the settling delay, then the frequency.
pub open spec fn init_commands(frequency: u16) -> Seq<Command> {
    all_channel_commands(0) + seq![
        write(MODE_2_REG as int, MODE_2_TOTEM_POLE),
        write(MODE_1_REG as int, MODE_1_POWER_UP),
        Command::DelayMs(SETTLE_MS),
        write(MODE_1_REG as int, awake_mode()),
        Command::DelayMs(SETTLE_MS),
    ] + frequency_commands(awake_mode(), frequency)
}

} // verus!
