//! The packets the server reads and writes, and the events it reports.
use vstd::prelude::*;

verus! {

/// One RCON packet. `length` is the declared length of the frame (the bytes
/// after the length field); when it is `None` the encoder computes it.
#[derive(Debug)]
pub struct Packet {
    pub length: Option<i32>,
    pub request_id: i32,
    pub packet_type: PacketType,
    pub payload: Option<String>,
}

/// The kind of a packet, as carried by its type field.
#[derive(Debug, Copy, Clone, PartialEq, Eq, Structural)]
pub enum PacketType {
    /// Packet type 3.
    Login,
    /// Packet type 2, sent by the server.
    Auth,
    /// Packet type 2, sent by the client.
    RunCommand,
    /// Packet type 0.
    MultiPacketResponse,
    /// Any other type number.
    Invalid(i32),
}

/// A packet with its payload taken as a sequence of characters.
pub struct PacketView {
    pub length: Option<i32>,
    pub request_id: i32,
    pub packet_type: PacketType,
    pub payload: Option<Seq<char>>,
}

/// The characters of an optional string.
pub open spec fn opt_chars(s: Option<String>) -> Option<Seq<char>> {
    match s {
        Some(t) => Some(t@),
        None => None,
    }
}

impl View for Packet {
    type V = PacketView;

    open spec fn view(&self) -> PacketView {
        PacketView {
            length: self.length,
            request_id: self.request_id,
            packet_type: self.packet_type,
            payload: opt_chars(self.payload),
        }
    }
}

impl PacketType {
    /// The number that stands for this kind in a packet's type field.
    pub open spec fn code(self) -> i32 {
        match self {
            PacketType::Login => 3,
            PacketType::Auth => 2,
            PacketType::RunCommand => 2,
            PacketType::MultiPacketResponse => 0,
            PacketType::Invalid(n) => n,
        }
    }

    /// The kind a received type number is read as.
    pub open spec fn from_code(n: i32) -> PacketType {
        if n == 0 {
            PacketType::MultiPacketResponse
        } else if n == 2 {
            PacketType::RunCommand
        } else if n == 3 {
            PacketType::Login
        } else {
            PacketType::Invalid(n)
        }
    }
}

/// Any type number read from a frame is written back unchanged.
pub proof fn law_type_number_roundtrip(n: i32)
    ensures
        PacketType::from_code(n).code() == n,
{
}

/// A kind is read back as itself from its number, except `Auth`, which
/// shares its number with `RunCommand`, and an `Invalid` kind holding a
/// number that names a served kind.
pub proof fn law_kind_roundtrip(t: PacketType)
    requires
        t != PacketType::Auth,
        t matches PacketType::Invalid(n) ==> n != 0 && n != 2 && n != 3,
    ensures
        PacketType::from_code(t.code()) == t,
{
}

/// What happened on a connection, as the webhook log reports it.
pub enum EventType {
    ClientConnect,
    Auth,
    RunCommand,
    ClientDisconnect,
    Invalid,
}

/// The event a received packet of the given kind stands for.
pub open spec fn event_of(t: PacketType) -> EventType {
    match t {
        PacketType::RunCommand => EventType::RunCommand,
        PacketType::Auth => EventType::Auth,
        PacketType::Login => EventType::Auth,
        _ => EventType::Invalid,
    }
}

impl From<PacketType> for EventType {
    fn from(val: PacketType) -> (r: Self) {
        match val {
            PacketType::RunCommand => EventType::RunCommand,
            PacketType::Auth => EventType::Auth,
            PacketType::Login => EventType::Auth,
            _ => EventType::Invalid,
        }
    }
}

impl vstd::std_specs::convert::FromSpecImpl<PacketType> for EventType {
    open spec fn obeys_from_spec() -> bool {
        true
    }

    open spec fn from_spec(val: PacketType) -> EventType {
        event_of(val)
    }
}

impl EventType {
    /// The text that describes the event.
    pub open spec fn text(self) -> Seq<char> {
        match self {
            EventType::ClientConnect => "Client connected"@,
            EventType::RunCommand => "Client executed command"@,
            EventType::ClientDisconnect => "Client disconnected"@,
            EventType::Auth => "Client logged in"@,
            EventType::Invalid => "Invalid Event Type"@,
        }
    }

    /// The text that describes the event.
    pub fn to_string(&self) -> (s: String)
        ensures
            s@ == self.text(),
    {
        match self {
            EventType::ClientConnect => "Client connected".to_owned(),
            EventType::RunCommand => "Client executed command".to_owned(),
            EventType::ClientDisconnect => "Client disconnected".to_owned(),
            EventType::Auth => "Client logged in".to_owned(),
            EventType::Invalid => "Invalid Event Type".to_owned(),
        }
    }
}

} // verus!
