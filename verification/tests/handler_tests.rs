use rpot::handlers::invalid::handler_invalid;
use rpot::handlers::login::handler_login;
use rpot::handlers::run_command::{handler_runcommand, HELP_TEXT};
use rpot::model::{Packet, PacketType};

fn command(payload: Option<&str>) -> Packet {
    Packet {
        length: None,
        request_id: 21,
        packet_type: PacketType::RunCommand,
        payload: payload.map(|s| s.to_string()),
    }
}

fn output(payload: Option<&str>) -> String {
    let r = handler_runcommand(command(payload));
    assert_eq!(r.request_id, 21);
    assert_eq!(r.packet_type, PacketType::MultiPacketResponse);
    assert_eq!(r.length, None);
    r.payload.expect("a command reply carries a payload")
}

#[test]
fn seed_and_say() {
    assert_eq!(output(Some("seed")), "Seed: [69420]");
    assert_eq!(output(Some("  seed   extra ")), "Seed: [69420]");
    assert_eq!(output(Some("say hello world")), "");
}

#[test]
fn help_prints_the_first_page() {
    let out = output(Some("help"));
    assert_eq!(out, HELP_TEXT);
    assert!(out.starts_with("§e--------- §fHelp: Index (1/11)"));
    assert!(out.ends_with("§fA Mojang provided command.\n"));
}

#[test]
fn op_names_its_argument() {
    assert_eq!(output(Some("op Notch")), "Made Notch a server operator");
    assert_eq!(output(Some("op\tNotch\u{3000}Jeb")), "Made Notch a server operator");
    assert_eq!(output(Some("op")), "Unknown or incomplete command, see below for error\nop<--[HERE]");
}

#[test]
fn unknown_and_empty_commands() {
    assert_eq!(output(Some("stop")), "Unknown command. Type \"/help\" for help.\n");
    assert_eq!(output(Some("SEED")), "Unknown command. Type \"/help\" for help.\n");
    assert_eq!(output(Some("   ")), "");
    assert_eq!(output(None), "");
}

#[test]
fn login_accepts_any_password() {
    let r = handler_login(Packet {
        length: Some(20),
        request_id: 11,
        packet_type: PacketType::Login,
        payload: Some("hunter2".to_string()),
    });
    assert_eq!(r.request_id, 11);
    assert_eq!(r.packet_type, PacketType::Auth);
    assert_eq!(r.payload, None);
    assert_eq!(r.length, None);
    let r = handler_login(Packet { length: None, request_id: 11, packet_type: PacketType::Login, payload: None });
    assert_eq!(r.request_id, -1);
    assert_eq!(r.packet_type, PacketType::Auth);
}

#[test]
fn invalid_names_the_type_number() {
    let r = handler_invalid(Packet {
        length: None,
        request_id: 4,
        packet_type: PacketType::Invalid(-2147483648),
        payload: None,
    });
    assert_eq!(r.request_id, 4);
    assert_eq!(r.payload, Some("Unknown request -2147483648".to_string()));
    let r = handler_invalid(Packet {
        length: None,
        request_id: 4,
        packet_type: PacketType::MultiPacketResponse,
        payload: None,
    });
    assert_eq!(r.payload, Some("Unknown request 0".to_string()));
}

#[test]
fn generated_packets() {
    let p = Packet::gen_auth_success(99);
    assert_eq!((p.length, p.request_id, p.packet_type, p.payload), (None, 99, PacketType::Auth, None));
    let p = Packet::gen_auth_fail();
    assert_eq!((p.length, p.request_id, p.packet_type, p.payload), (None, -1, PacketType::Auth, None));
    let p = Packet::gen_response(3, "x".to_string());
    assert_eq!(
        (p.length, p.request_id, p.packet_type, p.payload),
        (None, 3, PacketType::MultiPacketResponse, Some("x".to_string()))
    );
}
