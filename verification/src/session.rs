//! The decisions the server takes on one client connection: which frames it
//! reads, what it answers and when the client counts as logged in.
use vstd::prelude::*;
use vstd::utf8::*;

use crate::de_serialize::{
    decoded, encodable, encoded, law_computed_length_counts_rest, payload_bytes,
};
use crate::generator::auth_fail_view;
use crate::handlers::invalid::{handler_invalid, invalid_reply};
use crate::handlers::login::{handler_login, login_reply};
use crate::handlers::run_command::{
    command_output, command_reply, handler_runcommand, payload_words, HELP_TEXT,
};
use crate::model::{Packet, PacketType, PacketView};
use crate::text::{
    lemma_decoding_len, lemma_encoding_len, lemma_int_decimal_len, lemma_words_len,
};
use crate::wire::{i32_from_le, i32_from_le_bytes};

verus! {

/// The most bytes one read from a client brings.
pub const READ_BUFFER_SIZE: usize = 1024;

/// The size a frame announces: its length field plus the field itself.
pub open spec fn announced_size(b: Seq<u8>) -> int {
    i32_from_le(b.take(4)) + 4
}

/// A frame whose length field matches the bytes read.
pub open spec fn frame_complete(b: Seq<u8>) -> bool {
    announced_size(b) == b.len()
}

/// A read the server can take: nothing (the client left), or a length field
/// that can be checked without overflow, and a whole header when the length
/// matches.
pub open spec fn readable(b: Seq<u8>) -> bool {
    &&& b.len() <= READ_BUFFER_SIZE
    &&& b.len() == 0 || b.len() >= 4
    &&& b.len() >= 4 ==> i32_from_le(b.take(4)) <= i32::MAX - 4
    &&& (b.len() >= 4 && frame_complete(b)) ==> b.len() >= 12
}

/// The reply to a packet, given whether the client has logged in: logins
/// are answered as such, commands only after a login, anything else as an
/// unknown request.
pub open spec fn reply_to(authenticated: bool, p: PacketView) -> PacketView {
    match p.packet_type {
        PacketType::Login => login_reply(p),
        PacketType::RunCommand => if authenticated {
            command_reply(p)
        } else {
            auth_fail_view()
        },
        _ => invalid_reply(p),
    }
}

/// Whether the client counts as logged in after the packet: a login that
/// carries a password logs it in, and nothing logs it out.
pub open spec fn authenticated_after(authenticated: bool, p: PacketView) -> bool {
    authenticated || (p.packet_type == PacketType::Login && p.payload is Some)
}

/// Whether the reply waits a moment first, as a real server would while it
/// runs a command.
pub open spec fn reply_delayed(authenticated: bool, p: PacketView) -> bool {
    authenticated && p.packet_type == PacketType::RunCommand
}

/// What one read from the client comes to.
pub enum Step {
    /// The client closed the connection.
    Closed,
    /// The length field does not match what was read; nothing is answered.
    Skipped,
    /// A packet was read; `reply` is to be written back, after a pause when
    /// `delay` is set.
    Answered { request: Packet, reply: Vec<u8>, delay: bool },
}

/// The state of one client connection.
pub struct Session {
    pub authenticated: bool,
}

/// A command's output is short enough to be framed.
proof fn lemma_command_output_len(p: PacketView)
    requires
        p.payload matches Some(s) ==> s.len() <= READ_BUFFER_SIZE,
    ensures
        command_output(payload_words(p)).len() <= 2 * READ_BUFFER_SIZE,
{
    let ws = payload_words(p);
    reveal_strlit("Seed: [69420]");
    reveal_strlit("Made ");
    reveal_strlit(" a server operator");
    reveal_strlit("Unknown or incomplete command, see below for error\nop<--[HERE]");
    reveal_strlit("Unknown command. Type \"/help\" for help.\n");
    reveal_strlit(
        "§e--------- §fHelp: Index (1/11) §e--------------------
§7Use /help [n] to get page n of help.
§7§6Aliases: §fLists command aliases
§f§6Bukkit: §fAll commands for Bukkit
§f§6Minecraft: §fAll commands for Minecraft
§f§6/advancement: §fA Mojang provided command.
§f§6/attribute: §fA Mojang provided command.
§f§6/ban: §fA Mojang provided command.
§f§6/ban-ip: §fA Mojang provided command.
§f§6/banlist: §fA Mojang provided command.\n",
    );
    assert(HELP_TEXT@.len() < 1000);
    if let Some(s) = p.payload {
        lemma_words_len(s);
        if ws.len() > 1 {
            assert(ws[1].len() <= s.len());
        }
    }
    reveal_strlit("");
}

/// Every reply the server gives to a read it takes can be framed.
pub proof fn lemma_reply_encodable(authenticated: bool, b: Seq<u8>)
    requires
        12 <= b.len() <= READ_BUFFER_SIZE,
    ensures
        encodable(reply_to(authenticated, decoded(b))),
{
    let p = decoded(b);
    let pl = payload_bytes(b);
    if pl.len() > 0 {
        if valid_utf8(pl) {
            lemma_decoding_len(pl);
        } else {
            reveal_strlit("(UTF-8 error)");
        }
        crate::de_serialize::lemma_payload_bytes_len(b);
    }
    let r = reply_to(authenticated, p);
    if let Some(s) = r.payload {
        lemma_encoding_len(s);
        match p.packet_type {
            PacketType::RunCommand => {
                lemma_command_output_len(p);
            },
            PacketType::Login => {},
            _ => {
                reveal_strlit("Unknown request ");
                lemma_int_decimal_len(p.packet_type.code());
            },
        }
    }
}

/// Every reply the server writes announces its own size correctly, so a
/// peer that checks length fields as this server does takes it whole.
pub proof fn law_replies_are_complete_frames(authenticated: bool, b: Seq<u8>)
    requires
        12 <= b.len() <= READ_BUFFER_SIZE,
    ensures
        frame_complete(encoded(reply_to(authenticated, decoded(b)))),
{
    let r = reply_to(authenticated, decoded(b));
    lemma_reply_encodable(authenticated, b);
    law_computed_length_counts_rest(r);
}

/// A command sent before a login is refused with request id -1, and the
/// client stays logged out.
pub proof fn law_command_needs_login(p: PacketView)
    requires
        p.packet_type == PacketType::RunCommand,
    ensures
        reply_to(false, p) == auth_fail_view(),
        reply_to(false, p).request_id == -1,
        !authenticated_after(false, p),
{
}

/// Once logged in, a client stays logged in; a login that carries a
/// password logs it in.
pub proof fn law_login_sticks(authenticated: bool, p: PacketView)
    ensures
        authenticated ==> authenticated_after(authenticated, p),
        (p.packet_type == PacketType::Login && p.payload is Some) ==> authenticated_after(
            authenticated,
            p,
        ),
{
}

/// A reply carries the request's id, except a refusal, which carries -1.
pub proof fn law_reply_echoes_request_id(authenticated: bool, p: PacketView)
    ensures
        reply_to(authenticated, p).request_id == p.request_id || reply_to(authenticated, p)
            == auth_fail_view(),
{
}

/// The text `strip_ansi_escapes::strip_str` leaves of a string: the string
/// without its ANSI escape sequences.
pub uninterp spec fn ansi_stripped(s: Seq<char>) -> Seq<char>;

/// `strip_ansi_escapes::strip_str`. Its result depends on the text alone;
/// what it removes (the ANSI control sequences, as the `vte` parser reads
/// them) is left to the name `ansi_stripped`.
#[verifier::external_body]
fn strip_ansi(s: &str) -> (r: String)
    ensures
        r@ == ansi_stripped(s@),
{
    strip_ansi_escapes::strip_str(s)
}

/// The payload a packet is shown with: its text without ANSI escape
/// sequences, so that it cannot drive the terminal, or `empty`.
pub open spec fn shown_payload(p: PacketView) -> Seq<char> {
    ansi_stripped(
        match p.payload {
            Some(s) => s,
            None => "empty"@,
        },
    )
}

/// The payload of a packet as the server shows it.
pub fn payload_for_display(packet: &Packet) -> (r: String)
    ensures
        r@ == shown_payload(packet@),
{
    match &packet.payload {
        Some(s) => strip_ansi(s.as_str()),
        None => strip_ansi("empty"),
    }
}

/// A login is answered the same whether or not the client is already
/// logged in: with any password by an Auth packet under the request's id,
/// without one by a refusal.
pub proof fn law_login_reply_ignores_login_state(authenticated: bool, p: PacketView)
    requires
        p.packet_type == PacketType::Login,
    ensures
        reply_to(authenticated, p) == reply_to(!authenticated, p),
        reply_to(authenticated, p) == login_reply(p),
        p.payload is Some ==> {
            &&& reply_to(authenticated, p).request_id == p.request_id
            &&& reply_to(authenticated, p).packet_type == PacketType::Auth
            &&& reply_to(authenticated, p).payload is None
        },
{
}

/// A copy of a packet.
fn copy_packet(p: &Packet) -> (r: Packet)
    ensures
        r@ == p@,
{
    let payload = match &p.payload {
        Some(s) => Some(s.clone()),
        None => None,
    };
    Packet { length: p.length, request_id: p.request_id, packet_type: p.packet_type, payload }
}

impl Session {
    /// A connection that has not logged in.
    pub fn new() -> (s: Session)
        ensures
            !s.authenticated,
    {
        Session { authenticated: false }
    }

    /// Whether a read is one the server can take.
    pub fn can_read(data: &[u8]) -> (r: bool)
        ensures
            r == readable(data@),
    {
        if data.len() > READ_BUFFER_SIZE {
            return false;
        }
        if data.len() == 0 {
            return true;
        }
        if data.len() < 4 {
            return false;
        }
        let declared = i32_from_le_bytes(data[0], data[1], data[2], data[3]);
        assert(data@.take(4) =~= seq![data@[0], data@[1], data@[2], data@[3]]);
        if declared > i32::MAX - 4 {
            return false;
        }
        if declared + 4 == data.len() as i32 {
            data.len() >= 12
        } else {
            true
        }
    }

    /// Answers a packet and notes a successful login.
    pub fn respond(&mut self, packet: Packet) -> (r: Packet)
        ensures
            r@ == reply_to(old(self).authenticated, packet@),
            final(self).authenticated == authenticated_after(old(self).authenticated, packet@),
    {
        match packet.packet_type {
            PacketType::Login => {
                if packet.payload.is_some() {
                    self.authenticated = true;
                }
                handler_login(packet)
            },
            PacketType::RunCommand => {
                if self.authenticated {
                    handler_runcommand(packet)
                } else {
                    Packet::gen_auth_fail()
                }
            },
            _ => handler_invalid(packet),
        }
    }

    /// Takes what one read from the client brought.
    pub fn on_read(&mut self, data: Vec<u8>) -> (step: Step)
        requires
            readable(data@),
        ensures
            data@.len() == 0 ==> (step is Closed && final(self).authenticated
                == old(self).authenticated),
            data@.len() > 0 && !frame_complete(data@) ==> (step is Skipped
                && final(self).authenticated == old(self).authenticated),
            data@.len() > 0 && frame_complete(data@) ==> (step matches Step::Answered {
                request,
                reply,
                delay,
            } && request@ == decoded(data@) && reply@ == encoded(
                reply_to(old(self).authenticated, decoded(data@)),
            ) && delay == reply_delayed(old(self).authenticated, decoded(data@))
                && final(self).authenticated == authenticated_after(
                old(self).authenticated,
                decoded(data@),
            )),
    {
        if data.len() == 0 {
            return Step::Closed;
        }
        assert(data@.take(4) =~= seq![data@[0], data@[1], data@[2], data@[3]]);
        let expected_len = i32_from_le_bytes(data[0], data[1], data[2], data[3]) + 4;
        if expected_len != data.len() as i32 {
            return Step::Skipped;
        }
        proof {
            lemma_reply_encodable(self.authenticated, data@);
        }
        let request = match Packet::try_deserialize(data) {
            Ok(p) => p,
            Err(_) => {
                return Step::Skipped;
            },
        };
        let delay = self.authenticated && request.packet_type == PacketType::RunCommand;
        let answer = self.respond(copy_packet(&request));
        let reply = answer.serialize();
        Step::Answered { request, reply, delay }
    }
}

} // verus!
