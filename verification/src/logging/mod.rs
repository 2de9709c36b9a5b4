//! Reporting connection events to the configured loggers.

pub mod logging;
pub mod stdout;
pub mod traits;
