//! Decoder and bus sequencer for DHT-family humidity and temperature sensors.
//!
//! The sensor answers a request on a single wire with 40 pulse-width coded
//! bits. This crate holds everything about that exchange that can be decided
//! without touching hardware: the order of pin operations and pauses of one
//! acquisition ([`bus`]), the recovery of the five frame bytes from the
//! measured pulse widths ([`frame`]), the conversion of a frame into a reading
//! ([`reading`]) and the policy that falls back to the last good reading when
//! the sensor is noisy or silent ([`sensor`]).
//!
//! Values are kept in the sensor's native resolution, tenths of a percent and
//! tenths of a degree Celsius, as integers.
use vstd::prelude::*;

pub mod bus;
pub mod frame;
pub mod reading;
pub mod sensor;

pub use bus::{Acquisition, Action, Event, Level};
pub use reading::{DTHResponse, SensorModel};
pub use sensor::DHTSensor;

verus! {

/// Why a read produced no reading.
#[derive(Debug, Clone, Copy, PartialEq, Eq, Structural)]
pub enum DHTSensorError {
    /// Some data bit never resolved: both of its phases ran into their bound.
    Timeout,
    /// A frame was recovered but its last byte is not the sum of the others.
    ChecksumError,
    /// The humidity is above 100 % and there is no earlier reading to fall
    /// back to.
    InvalidData,
}

/// Bound, in polling cycles, on each half of the sensor's ready handshake.
pub const WAIT_FOR_READINESS_LEVEL_THRESHOLD: u32 = 80;

/// Bound, in polling cycles, on the low phase of a data bit.
pub const LOW_LEVEL_THRESHOLD: u32 = 55;

/// Bound, in polling cycles, on the high phase of a data bit.
pub const HIGH_LEVEL_THRESHOLD: u32 = 75;

/// Number of data bits in one frame.
pub const FRAME_BITS: usize = 40;

/// Number of pulse-width samples in one acquisition: two per data bit.
pub const SAMPLE_COUNT: usize = 80;

} // verus!
