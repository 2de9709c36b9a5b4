//! The connection events the loggers report.
use vstd::prelude::*;

use crate::model::EventType;

verus! {

/// Something that happened on a client connection.
#[derive(Debug, Clone, Copy, PartialEq, Eq, Structural)]
pub enum ClientEventType {
    Connect,
    Auth,
    RunCommand,
    Disconnect,
}

impl ClientEventType {
    /// The text that describes the event.
    pub open spec fn text(self) -> Seq<char> {
        match self {
            ClientEventType::Connect => "Client connected"@,
            ClientEventType::RunCommand => "Client executed command"@,
            ClientEventType::Disconnect => "Client disconnected"@,
            ClientEventType::Auth => "Client logged in"@,
        }
    }

    /// The text that describes the event.
    pub fn to_string(&self) -> (s: String)
        ensures
            s@ == self.text(),
    {
        match self {
            ClientEventType::Connect => "Client connected".to_owned(),
            ClientEventType::RunCommand => "Client executed command".to_owned(),
            ClientEventType::Disconnect => "Client disconnected".to_owned(),
            ClientEventType::Auth => "Client logged in".to_owned(),
        }
    }
}

/// The webhook event a connection event is logged as.
pub open spec fn logged_as(e: ClientEventType) -> EventType {
    match e {
        ClientEventType::Connect => EventType::ClientConnect,
        ClientEventType::Auth => EventType::Auth,
        ClientEventType::RunCommand => EventType::RunCommand,
        ClientEventType::Disconnect => EventType::ClientDisconnect,
    }
}

impl From<ClientEventType> for EventType {
    fn from(e: ClientEventType) -> (r: Self) {
        match e {
            ClientEventType::Connect => EventType::ClientConnect,
            ClientEventType::Auth => EventType::Auth,
            ClientEventType::RunCommand => EventType::RunCommand,
            ClientEventType::Disconnect => EventType::ClientDisconnect,
        }
    }
}

impl vstd::std_specs::convert::FromSpecImpl<ClientEventType> for EventType {
    open spec fn obeys_from_spec() -> bool {
        true
    }

    open spec fn from_spec(e: ClientEventType) -> EventType {
        logged_as(e)
    }
}

/// A connection event and the webhook event it is logged as are described
/// by the same text.
pub proof fn law_event_texts_agree(e: ClientEventType)
    ensures
        e.text() == logged_as(e).text(),
{
}

} // verus!
