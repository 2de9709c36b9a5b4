//! A verified model of the RCON wire protocol as spoken by a small honeypot:
//! packet encoding and decoding, the replies it gives, the per-connection
//! session logic and the bookkeeping of the Discord webhook log.

pub mod conventions;
pub mod conversions;
pub mod de_serialize;
pub mod events;
pub mod generator;
pub mod handlers;
pub mod logging;
pub mod model;
pub mod session;
pub mod text;
pub mod webhook;
pub mod webhook_model;
pub mod wire;
