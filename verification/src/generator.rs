//! The packets the server answers with.
use vstd::prelude::*;

use crate::model::{Packet, PacketType, PacketView};

verus! {

/// The reply to an accepted login: it echoes the request id.
pub open spec fn auth_success_view(request_id: i32) -> PacketView {
    PacketView { length: None, request_id, packet_type: PacketType::Auth, payload: None }
}

/// The reply to a refused login or command: its request id is -1.
pub open spec fn auth_fail_view() -> PacketView {
    PacketView { length: None, request_id: -1i32, packet_type: PacketType::Auth, payload: None }
}

/// A command response carrying the given text.
pub open spec fn response_view(request_id: i32, payload: Seq<char>) -> PacketView {
    PacketView {
        length: None,
        request_id,
        packet_type: PacketType::MultiPacketResponse,
        payload: Some(payload),
    }
}

impl Packet {
    /// The reply to an accepted login.
    pub fn gen_auth_success(request_id: i32) -> (p: Self)
        ensures
            p@ == auth_success_view(request_id),
    {
        Self { length: None, request_id, packet_type: PacketType::Auth, payload: None }
    }

    /// The reply to a refused login or command.
    pub fn gen_auth_fail() -> (p: Self)
        ensures
            p@ == auth_fail_view(),
    {
        Self { length: None, request_id: -1, packet_type: PacketType::Auth, payload: None }
    }

    /// A command response carrying `payload`.
    pub fn gen_response(request_id: i32, payload: String) -> (p: Self)
        ensures
            p@ == response_view(request_id, payload@),
    {
        Self {
            length: None,
            request_id,
            packet_type: PacketType::MultiPacketResponse,
            payload: Some(payload),
        }
    }
}

} // verus!
