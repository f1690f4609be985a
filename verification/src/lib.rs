//! Driver core for serial multimeters: wire codec, response framing,
//! a simulated instrument and the table of connected sessions.
//!
//! The crate performs no input or output. Whoever owns the serial port runs
//! each exchange with the help of [`framing`], hands the instrument's answer
//! to the session, and gets back decoded values or typed failures.

mod clock;
pub mod codec;
pub mod communication;
pub mod device;
pub mod error;
pub mod fluke;
pub mod framing;
pub mod identifier;
pub mod mock;
pub mod number;
pub mod text;
pub mod tokens;

pub use device::{Device, DeviceType, Measurement, MeasurementState};
pub use error::Error;
