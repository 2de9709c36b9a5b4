//! Running console commands.
use vstd::prelude::*;

use crate::generator::response_view;
use crate::model::{Packet, PacketType, PacketView};
use crate::text::{
    chars_of, is_white_space, lemma_words_after_space, lemma_words_of_word, split_words,
    string_of_chars, views_of, words,
};

verus! {

/// The text the `help` command prints.
pub const HELP_TEXT: &'static str = "§e--------- §fHelp: Index (1/11) §e--------------------
§7Use /help [n] to get page n of help.
§7§6Aliases: §fLists command aliases
§f§6Bukkit: §fAll commands for Bukkit
§f§6Minecraft: §fAll commands for Minecraft
§f§6/advancement: §fA Mojang provided command.
§f§6/attribute: §fA Mojang provided command.
§f§6/ban: §fA Mojang provided command.
§f§6/ban-ip: §fA Mojang provided command.
§f§6/banlist: §fA Mojang provided command.\n";

/// The words of a packet's payload (none when it has no payload).
pub open spec fn payload_words(p: PacketView) -> Seq<Seq<char>> {
    match p.payload {
        Some(s) => words(s),
        None => seq![],
    }
}

/// What a command prints: the first word names the command, the second is
/// its first argument.
pub open spec fn command_output(ws: Seq<Seq<char>>) -> Seq<char> {
    if ws.len() == 0 {
        Seq::empty()
    } else {
        let cmd = ws[0];
        if cmd == "seed"@ {
            "Seed: [69420]"@
        } else if cmd == "say"@ || cmd == ""@ {
            ""@
        } else if cmd == "help"@ {
            HELP_TEXT@
        } else if cmd == "op"@ {
            if ws.len() > 1 {
                "Made "@ + ws[1] + " a server operator"@
            } else {
                "Unknown or incomplete command, see below for error\nop<--[HERE]"@
            }
        } else {
            "Unknown command. Type \"/help\" for help.\n"@
        }
    }
}

/// The reply to a command: its output, under the request's id.
pub open spec fn command_reply(p: PacketView) -> PacketView {
    response_view(p.request_id, command_output(payload_words(p)))
}

/// Answers a command as a game server would.
pub fn handler_runcommand(packet: Packet) -> (r: Packet)
    ensures
        r@ == command_reply(packet@),
{
    let text: String = match &packet.payload {
        Some(s) => s.clone(),
        None => String::new(),
    };
    let chars = chars_of(text.as_str());
    let split_args = split_words(&chars);
    assert(views_of(split_args@) == payload_words(packet@));
    if split_args.len() == 0 {
        return Packet::gen_response(packet.request_id, String::new());
    }
    let cmd = string_of_chars(&split_args[0]);
    assert(cmd@ == payload_words(packet@)[0]);
    let resp = if cmd == "seed".to_owned() {
        "Seed: [69420]".to_owned()
    } else if cmd == "say".to_owned() || cmd == "".to_owned() {
        "".to_owned()
    } else if cmd == "help".to_owned() {
        HELP_TEXT.to_owned()
    } else if cmd == "op".to_owned() {
        if split_args.len() > 1 {
            let name = string_of_chars(&split_args[1]);
            assert(name@ == payload_words(packet@)[1]);
            let mut s = "Made ".to_owned();
            s.append(name.as_str());
            s.append(" a server operator");
            s
        } else {
            "Unknown or incomplete command, see below for error\nop<--[HERE]".to_owned()
        }
    } else {
        "Unknown command. Type \"/help\" for help.\n".to_owned()
    };
    Packet::gen_response(packet.request_id, resp)
}

/// `help` prints the first help page whatever follows it: a payload made of
/// white space, the word `help`, and then nothing or anything after white
/// space, is answered with the help text under the request's id.
pub proof fn law_help_ignores_arguments(p: PacketView, lead: Seq<char>, rest: Seq<char>)
    requires
        p.payload == Some(lead + "help"@ + rest),
        forall|i: int| 0 <= i < lead.len() ==> is_white_space(#[trigger] lead[i]),
        rest.len() == 0 || is_white_space(rest[0]),
    ensures
        command_reply(p) == (PacketView {
            length: None,
            request_id: p.request_id,
            packet_type: PacketType::MultiPacketResponse,
            payload: Some(HELP_TEXT@),
        }),
{
    reveal_strlit("help");
    reveal_strlit("seed");
    reveal_strlit("say");
    reveal_strlit("");
    let w = "help"@;
    assert(forall|i: int| 0 <= i < w.len() ==> !is_white_space(#[trigger] w[i]));
    lemma_words_of_word(w, rest);
    assert(lead + w + rest =~= lead + (w + rest));
    lemma_words_after_space(lead, w + rest);
    assert(payload_words(p)[0] == w);
    assert(w != "seed"@ && w != "say"@ && w != ""@) by {
        assert(w[0] != "seed"@[0]);
        assert(w.len() != ""@.len());
    }
}

/// A command's reply depends only on its first word, and for `op` on its
/// second: two commands with the same request id whose payloads agree in
/// those words get the same reply.
pub proof fn law_reply_depends_on_leading_words(p1: PacketView, p2: PacketView)
    requires
        p1.request_id == p2.request_id,
        payload_words(p1).len() == 0 <==> payload_words(p2).len() == 0,
        payload_words(p1).len() > 0 ==> payload_words(p1)[0] == payload_words(p2)[0],
        payload_words(p1).len() > 0 && payload_words(p1)[0] == "op"@ ==> {
            &&& (payload_words(p1).len() > 1 <==> payload_words(p2).len() > 1)
            &&& payload_words(p1).len() > 1 ==> payload_words(p1)[1] == payload_words(p2)[1]
        },
    ensures
        command_reply(p1) == command_reply(p2),
{
}

/// Every command is answered with a command response carrying the
/// request's id and some text.
pub proof fn law_command_reply_shape(p: PacketView)
    ensures
        command_reply(p).request_id == p.request_id,
        command_reply(p).packet_type == PacketType::MultiPacketResponse,
        command_reply(p).length is None,
        command_reply(p).payload is Some,
{
}

} // verus!
