//! Timing and protocol-translation core of a LoRa gateway packet forwarder.
//!
//! The crate converts a free-running 32-bit microsecond hardware counter into
//! absolute wall-clock timestamps and GPS-epoch durations (wraparound-safe),
//! and translates radio packets to and from the wire-protocol message shapes.
//! Hardware access, GPS fix acquisition and network transport are external
//! collaborators: their results enter the library as plain values.

pub mod config;
pub mod packet;
pub mod proto;
pub mod timebase;
pub mod timersync;
pub mod wrapper;

use vstd::prelude::*;

verus! {

/// Time conversion failed: the GPS collaborator reports no fix or lock while
/// the GPS-disciplined clock source is selected. Recoverable per call.
#[derive(Copy, Clone, PartialEq, Eq, Structural, Debug)]
pub enum TimeError {
    TimeUnavailable,
}

/// A single malformed protocol input; rejects only the affected packet.
#[derive(Copy, Clone, PartialEq, Eq, Structural, Debug)]
pub enum ValidationError {
    /// A required descriptor or sub-field is absent.
    MissingField,
    /// The packet's modulation is undefined or cannot be translated.
    UnsupportedModulation,
    /// A LoRa spreading factor outside 7..=12.
    InvalidSpreadingFactor,
    /// An FSK packet whose data-rate descriptor is not an FSK rate.
    InvalidDataRate,
    /// A Delay-mode context that is not exactly 4 bytes.
    InvalidContext,
    /// A payload that does not fit the fixed transmit buffer.
    PayloadTooLarge,
}

} // verus!
