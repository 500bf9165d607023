//! The unified error type of the service bus.
use vstd::prelude::*;

use crate::routing::{BusId, ServiceAddress};

verus! {

/// Errors of the service bus. Failures of the transport, of decoding and of
/// the application handler are carried as their description.
#[derive(Debug, PartialEq, Eq)]
pub enum Error {
    /// A send or identity change named a bus that is not registered.
    UnknownBusId(BusId),
    /// The transport failed to send a frame from `source` to `dest`.
    Send { source: ServiceAddress, dest: ServiceAddress, reason: String },
    /// A transport session could not be set up, polled or read.
    Transport(String),
    /// Received bytes do not decode as the declared request type.
    Decode(String),
    /// An error raised by the application handler.
    Handler(String),
}

} // verus!
