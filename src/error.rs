//! The driver's errors.

use vstd::prelude::*;

verus! {

/// Why an operation failed. `E` is the transport's own error type.
#[derive(Debug, PartialEq, Eq)]
pub enum PCA9685Error<E> {
    /// A write on the bus failed.
    I2C(E),
    /// The frequency lies outside 40..=1000 Hz.
    InvalidFrequency(u16),
    /// The duty cycle lies outside 0..=4095, or the channel outside 0..=15.
    InvalidDutyCycle(u16),
    /// The pulse, in microseconds, does not fit in the period, given in whole
    /// microseconds rounded up.
    InvalidPulseLength(u32, u32),
}

impl<E> From<E> for PCA9685Error<E> {
    fn from(e: E) -> (r: PCA9685Error<E>) {
        PCA9685Error::I2C(e)
    }
}

impl<E> vstd::std_specs::convert::FromSpecImpl<E> for PCA9685Error<E> {
    open spec fn obeys_from_spec() -> bool {
        true
    }

    open spec fn from_spec(e: E) -> PCA9685Error<E> {
        PCA9685Error::I2C(e)
    }
}

} // verus!
