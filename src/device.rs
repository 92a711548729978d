//! The controller: the chip's tracked configuration and the operations on it.

use vstd::prelude::*;
use crate::command::{
    all_channel_commands, awake_mode, channel_commands, frequency_commands, init_commands, Command,
    MODE_1_POWER_UP, MODE_1_RESTART, MODE_1_SLEEP, MODE_2_TOTEM_POLE, SETTLE_MS,
};
use crate::duty::{duty_cycle_valid, split_duty_cycle, TICKS_PER_CYCLE};
use crate::error::PCA9685Error;
use crate::registers::{
    channel_reg, ALL_OFF_H, ALL_OFF_L, ALL_ON_H, ALL_ON_L, CHANNEL_COUNT, LED0_OFF_H, LED0_OFF_L,
    LED0_ON_H, LED0_ON_L, MODE_1_REG, MODE_2_REG, PRE_SCALE_REG,
};
use crate::timing::{
    frequency_valid, lemma_period_bound, period_us, prescale, pulse_fits, pulse_ticks,
    pulse_to_duty_cycle, MAX_FREQUENCY, MICROS_PER_SECOND, MIN_FREQUENCY,
};

verus! {

/// The tracked state of one PCA9685.
///
/// `mode` shadows the chip's mode 1 register as last written while awake, so
/// that later writes can combine bits without reading it back; `frequency`
/// is the output frequency last programmed. Period and tick length follow
/// from the frequency. A value exists only once the power-up sequence has
/// been planned, so the frequency is always set.
#[derive(Clone, Copy, Debug, PartialEq, Eq)]
pub struct PCA9685 {
    mode: u8,
    frequency: u16,
}

/// A channel index of the chip.
pub open spec fn channel_valid(channel: int) -> bool {
    0 <= channel < CHANNEL_COUNT
}

impl PCA9685 {
    /// The tracked mode 1 byte.
    pub closed spec fn spec_mode(&self) -> u8 {
        self.mode
    }

    /// The programmed output frequency, in Hz.
    pub closed spec fn spec_frequency(&self) -> u16 {
        self.frequency
    }

    /// The frequency is one the chip supports and the tracked mode is awake.
    pub open spec fn wf(&self) -> bool {
        &&& frequency_valid(self.spec_frequency() as int)
        &&& self.spec_mode() & 0x01 == 0
    }

    /// Plans the power-up of a chip at `frequency` Hz: returns the controller
    /// and the commands to run, in order. A frequency outside 40..=1000 is
    /// refused before any command.
    pub fn new<E>(frequency: u16) -> (r: Result<(PCA9685, Vec<Command>), PCA9685Error<E>>)
        ensures
            r is Ok <==> frequency_valid(frequency as int),
            r matches Ok((dev, cmds)) ==> {
                &&& dev.wf()
                &&& dev.spec_frequency() == frequency
                &&& dev.spec_mode() == awake_mode()
                &&& cmds@ == init_commands(frequency)
            },
            r matches Err(e) ==> e == PCA9685Error::<E>::InvalidFrequency(frequency),
    {
        if frequency < MIN_FREQUENCY || frequency > MAX_FREQUENCY {
            return Err(PCA9685Error::InvalidFrequency(frequency));
        }
        let mut dev = PCA9685 { mode: MODE_1_POWER_UP, frequency: MIN_FREQUENCY };
        let mut cmds = dev.all_duty_cycle_commands(0);
        cmds.push(Command::Write { register: MODE_2_REG, value: MODE_2_TOTEM_POLE });
        cmds.push(Command::Write { register: MODE_1_REG, value: dev.mode });
        cmds.push(Command::DelayMs(SETTLE_MS));
        let awake: u8 = dev.mode & !0x01u8;
        assert(awake & 0x01 == 0) by (bit_vector)
            requires
                awake == 0x01u8 & !0x01u8,
        ;
        dev.mode = awake;
        cmds.push(Command::Write { register: MODE_1_REG, value: dev.mode });
        cmds.push(Command::DelayMs(SETTLE_MS));
        let mut freq_cmds = dev.frequency_commands(frequency);
        cmds.append(&mut freq_cmds);
        dev.frequency = frequency;
        assert(cmds@ =~= init_commands(frequency));
        Ok((dev, cmds))
    }

    fn frequency_commands(&self, frequency: u16) -> (cmds: Vec<Command>)
        requires
            frequency_valid(frequency as int),
        ensures
            cmds@ == frequency_commands(self.mode, frequency),
    {
        let mut cmds: Vec<Command> = Vec::new();
        cmds.push(Command::Write { register: MODE_1_REG, value: (self.mode & 0x7F) | MODE_1_SLEEP });
        cmds.push(Command::Write { register: PRE_SCALE_REG, value: prescale(frequency) });
        cmds.push(Command::Write { register: MODE_1_REG, value: self.mode });
        cmds.push(Command::DelayMs(SETTLE_MS));
        cmds.push(Command::Write { register: MODE_1_REG, value: self.mode | MODE_1_RESTART });
        assert(cmds@ =~= frequency_commands(self.mode, frequency));
        cmds
    }

    fn all_duty_cycle_commands(&self, duty_cycle: u16) -> (cmds: Vec<Command>)
        ensures
            cmds@ == all_channel_commands(duty_cycle),
    {
        let (low, high) = split_duty_cycle(duty_cycle);
        let mut cmds: Vec<Command> = Vec::new();
        cmds.push(Command::Write { register: ALL_ON_L, value: 0 });
        cmds.push(Command::Write { register: ALL_ON_H, value: 0 });
        cmds.push(Command::Write { register: ALL_OFF_L, value: low });
        cmds.push(Command::Write { register: ALL_OFF_H, value: high });
        assert(cmds@ =~= all_channel_commands(duty_cycle));
        cmds
    }

    /// Plans a change of the output frequency to `frequency` Hz: sleep,
    /// prescaler, wake, settle, restart. A frequency outside 40..=1000 is
    /// refused and leaves the controller as it was.
    pub fn set_frequency<E>(&mut self, frequency: u16) -> (r: Result<Vec<Command>, PCA9685Error<E>>)
        requires
            old(self).wf(),
        ensures
            final(self).wf(),
            r is Ok <==> frequency_valid(frequency as int),
            r matches Ok(cmds) ==> {
                &&& cmds@ == frequency_commands(old(self).spec_mode(), frequency)
                &&& final(self).spec_frequency() == frequency
                &&& final(self).spec_mode() == old(self).spec_mode()
            },
            r matches Err(e) ==> {
                &&& e == PCA9685Error::<E>::InvalidFrequency(frequency)
                &&& *final(self) == *old(self)
            },
    {
        if frequency < MIN_FREQUENCY || frequency > MAX_FREQUENCY {
            return Err(PCA9685Error::InvalidFrequency(frequency));
        }
        let cmds = self.frequency_commands(frequency);
        self.frequency = frequency;
        Ok(cmds)
    }

    /// Plans setting one channel's duty cycle: "on" at tick 0, "off" at
    /// `duty_cycle`. A duty cycle above 4095 or a channel above 15 is refused.
    pub fn set_duty_cycle<E>(&self, channel: u8, duty_cycle: u16) -> (r: Result<Vec<Command>, PCA9685Error<E>>)
        ensures
            r is Ok <==> channel_valid(channel as int) && duty_cycle_valid(duty_cycle as int),
            r matches Ok(cmds) ==> cmds@ == channel_commands(channel, duty_cycle),
            r matches Err(e) ==> e == PCA9685Error::<E>::InvalidDutyCycle(duty_cycle),
    {
        if duty_cycle >= TICKS_PER_CYCLE || channel >= CHANNEL_COUNT {
            return Err(PCA9685Error::InvalidDutyCycle(duty_cycle));
        }
        let (low, high) = split_duty_cycle(duty_cycle);
        let mut cmds: Vec<Command> = Vec::new();
        cmds.push(Command::Write { register: channel_reg(LED0_ON_L, channel), value: 0 });
        cmds.push(Command::Write { register: channel_reg(LED0_ON_H, channel), value: 0 });
        cmds.push(Command::Write { register: channel_reg(LED0_OFF_L, channel), value: low });
        cmds.push(Command::Write { register: channel_reg(LED0_OFF_H, channel), value: high });
        assert(cmds@ =~= channel_commands(channel, duty_cycle));
        Ok(cmds)
    }

    /// Plans setting the duty cycle of every channel at once, through the
    /// broadcast registers. A duty cycle above 4095 is refused.
    pub fn set_all_duty_cycle<E>(&self, duty_cycle: u16) -> (r: Result<Vec<Command>, PCA9685Error<E>>)
        ensures
            r is Ok <==> duty_cycle_valid(duty_cycle as int),
            r matches Ok(cmds) ==> cmds@ == all_channel_commands(duty_cycle),
            r matches Err(e) ==> e == PCA9685Error::<E>::InvalidDutyCycle(duty_cycle),
    {
        if duty_cycle >= TICKS_PER_CYCLE {
            return Err(PCA9685Error::InvalidDutyCycle(duty_cycle));
        }
        Ok(self.all_duty_cycle_commands(duty_cycle))
    }

    /// Plans a pulse of `us` microseconds on one channel, as the duty cycle
    /// `floor(us / time_per_tick)`. A pulse not shorter than the period is
    /// refused with the period; a channel above 15 as a duty cycle error.
    pub fn set_pulse_length<E>(&self, channel: u8, us: u32) -> (r: Result<Vec<Command>, PCA9685Error<E>>)
        requires
            self.wf(),
        ensures
            r is Ok <==> pulse_fits(us as int, self.spec_frequency() as int) && channel_valid(channel as int),
            r matches Ok(cmds) ==>
                cmds@ == channel_commands(channel, pulse_ticks(us as int, self.spec_frequency() as int) as u16),
            us >= period_us(self.spec_frequency() as int) ==> r == Err::<Vec<Command>, _>(
                PCA9685Error::<E>::InvalidPulseLength(us, period_us(self.spec_frequency() as int) as u32),
            ),
            pulse_fits(us as int, self.spec_frequency() as int) && !channel_valid(channel as int) ==> r
                == Err::<Vec<Command>, _>(
                PCA9685Error::<E>::InvalidDutyCycle(pulse_ticks(us as int, self.spec_frequency() as int) as u16),
            ),
    {
        proof {
            lemma_period_bound(us as int, self.frequency as int);
        }
        if !self.pulse_fits(us) {
            return Err(PCA9685Error::InvalidPulseLength(us, self.period_us()));
        }
        let duty_cycle = pulse_to_duty_cycle(us, self.frequency);
        self.set_duty_cycle(channel, duty_cycle)
    }

    /// Plans a pulse of `us` microseconds on every channel, as the duty cycle
    /// `floor(us / time_per_tick)`. A pulse not shorter than the period is
    /// refused with the period, before any command.
    pub fn set_all_pulse_length<E>(&self, us: u32) -> (r: Result<Vec<Command>, PCA9685Error<E>>)
        requires
            self.wf(),
        ensures
            r is Ok <==> pulse_fits(us as int, self.spec_frequency() as int),
            r matches Ok(cmds) ==>
                cmds@ == all_channel_commands(pulse_ticks(us as int, self.spec_frequency() as int) as u16),
            us >= period_us(self.spec_frequency() as int) ==> r == Err::<Vec<Command>, _>(
                PCA9685Error::<E>::InvalidPulseLength(us, period_us(self.spec_frequency() as int) as u32),
            ),
    {
        proof {
            lemma_period_bound(us as int, self.frequency as int);
        }
        if !self.pulse_fits(us) {
            return Err(PCA9685Error::InvalidPulseLength(us, self.period_us()));
        }
        let duty_cycle = pulse_to_duty_cycle(us, self.frequency);
        self.set_all_duty_cycle(duty_cycle)
    }

    fn pulse_fits(&self, us: u32) -> (r: bool)
        requires
            self.wf(),
        ensures
            r == pulse_fits(us as int, self.frequency as int),
    {
        assert((us as u64) * (self.frequency as u64) <= 0xFFFF_FFFFu64 * 1000) by (nonlinear_arith)
            requires
                self.frequency <= 1000,
        ;
        (us as u64) * (self.frequency as u64) < MICROS_PER_SECOND as u64
    }

    /// The tracked mode 1 byte.
    pub fn mode(&self) -> (r: u8)
        ensures
            r == self.spec_mode(),
    {
        self.mode
    }

    /// The programmed output frequency, in Hz.
    pub fn frequency(&self) -> (r: u16)
        ensures
            r == self.spec_frequency(),
    {
        self.frequency
    }

    /// The period in microseconds, rounded up to a whole microsecond.
    pub fn period_us(&self) -> (r: u32)
        requires
            self.wf(),
        ensures
            r == period_us(self.spec_frequency() as int),
    {
        (MICROS_PER_SECOND + self.frequency as u32 - 1) / self.frequency as u32
    }
}

} // verus!
