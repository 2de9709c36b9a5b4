//! What a logger provides.
use vstd::prelude::*;

use crate::events::ClientEventType;
use crate::logging::logging::LoggerData;

verus! {

/// A sink for connection events.
pub trait RpotLogger: Sized {
    /// Reports an event of the connection described by `data`.
    fn handler(event_type: ClientEventType, payload: String, data: LoggerData);

    /// A logger for the connection described by `data`.
    fn create(data: LoggerData) -> Self;
}

} // verus!
