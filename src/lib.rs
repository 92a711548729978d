//! Driver logic for the PCA9685, a 16-channel, 12-bit PWM controller on an
//! I2C bus.
//!
//! The library holds the chip's register protocol: the register map, the
//! prescaler formula, the encoding of duty cycles and the ordered write and
//! delay sequences that the chip needs. Each operation returns the exact list
//! of bus commands to run; a transport runs them in order and stops at the
//! first failed write.

pub mod command;
pub mod device;
pub mod duty;
pub mod error;
pub mod registers;
pub mod timing;

pub use command::Command;
pub use device::PCA9685;
pub use error::PCA9685Error;
