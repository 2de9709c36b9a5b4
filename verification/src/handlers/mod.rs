//! What the server answers to each kind of packet.

pub mod invalid;
pub mod login;
pub mod run_command;
