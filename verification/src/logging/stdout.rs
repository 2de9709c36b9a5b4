//! The logger that leaves reporting to standard output to the server itself.
use vstd::prelude::*;

use crate::events::ClientEventType;
use crate::logging::logging::LoggerData;
use crate::logging::traits::RpotLogger;

verus! {

/// A logger that adds nothing to what the server prints.
#[derive(Debug, Clone, Copy)]
pub struct StdOutLogger {}

impl RpotLogger for StdOutLogger {
    fn handler(event_type: ClientEventType, payload: String, data: LoggerData) {
    }

    fn create(data: LoggerData) -> Self {
        StdOutLogger {}
    }
}

} // verus!
