//! Logging in.
use vstd::prelude::*;

use crate::generator::{auth_fail_view, auth_success_view};
use crate::model::{Packet, PacketType, PacketView};

verus! {

/// The reply to a login: any password is accepted, a missing one refused.
pub open spec fn login_reply(p: PacketView) -> PacketView {
    match p.payload {
        Some(_) => auth_success_view(p.request_id),
        None => auth_fail_view(),
    }
}

/// Answers a login packet.
pub fn handler_login(packet: Packet) -> (r: Packet)
    ensures
        r@ == login_reply(packet@),
{
    match packet.payload {
        Some(_) => Packet::gen_auth_success(packet.request_id),
        None => Packet::gen_auth_fail(),
    }
}

/// Any password is accepted: a login that carries a payload, whatever it
/// is, is answered with an Auth packet under the request's id and no
/// payload; only a login without payload is refused with id -1.
pub proof fn law_any_password_is_accepted(p: PacketView)
    ensures
        p.payload is Some ==> login_reply(p) == (PacketView {
            length: None,
            request_id: p.request_id,
            packet_type: PacketType::Auth,
            payload: None,
        }),
        p.payload is None ==> login_reply(p) == (PacketView {
            length: None,
            request_id: -1i32,
            packet_type: PacketType::Auth,
            payload: None,
        }),
{
}

/// Two logins with the same id that both carry a password get the same
/// reply, whatever the passwords are.
pub proof fn law_login_reply_ignores_password(p1: PacketView, p2: PacketView)
    requires
        p1.request_id == p2.request_id,
        p1.payload is Some,
        p2.payload is Some,
    ensures
        login_reply(p1) == login_reply(p2),
{
}

} // verus!
