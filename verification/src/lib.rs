//! Verified core of a USB device-side control-endpoint (EP0) enumeration
//! engine: classifying SETUP packets into standard requests, advancing the
//! device state model, building descriptor responses, and driving the EP0 IN
//! data stage, with protocol errors signalled as endpoint stalls.

use vstd::prelude::*;

pub mod buffer;
pub mod descriptor;
pub mod dispatch;
pub mod driver;
pub mod request;
pub mod state;

verus! {

/// The error kinds this core distinguishes. Every one of them is handled
/// locally by stalling the control endpoint; none propagates further.
#[derive(Clone, Copy, Debug, PartialEq, Eq, Structural)]
pub enum Error {
    /// The raw SETUP header fields match no known standard-request layout.
    MalformedHeader,
    /// The request is recognized but not implemented (e.g. an unknown
    /// descriptor index).
    UnsupportedRequest,
    /// The request is legal in general but disallowed in the current
    /// device state.
    InvalidStateTransition,
    /// `start` was issued while a previous transfer was still in flight.
    TransferAlreadyInFlight,
}

} // verus!
