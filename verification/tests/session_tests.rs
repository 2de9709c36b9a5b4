use rpot::model::{Packet, PacketType};
use rpot::session::{Session, Step};

fn exchange(session: &mut Session, packet: &Packet) -> Option<Vec<u8>> {
    let bytes = packet.serialize();
    assert!(Session::can_read(&bytes));
    match session.on_read(bytes) {
        Step::Answered { reply, .. } => Some(reply),
        Step::Skipped => None,
        Step::Closed => panic!("a frame was taken for a closed connection"),
    }
}

#[test]
fn test_basic() {
    let mut session = Session::new();

    // TEST LOGIN
    let packet = Packet {
        length: None,
        request_id: 1337,
        packet_type: PacketType::Login,
        payload: Some("minecraft".into()),
    };
    let read = exchange(&mut session, &packet).expect("Failed to read from stream");
    let read_bytes = read.len();
    let packet = Packet::try_deserialize(read).expect("Failed to deserialize packet");

    assert_eq!(packet.length, Some(read_bytes as i32 - 4), "Length is not correct");
    assert_eq!(packet.request_id, 1337, "Request IDs are not the same");
    assert_eq!(*packet.packet_type.as_i32(), 2, "Packet type is not Auth");
    assert_eq!(packet.payload, None, "Payload is not empty");

    // TEST SEED COMMAND
    let packet = Packet {
        length: None,
        request_id: 1337,
        packet_type: PacketType::RunCommand,
        payload: Some(String::from("seed")),
    };
    let read = exchange(&mut session, &packet).expect("Failed to read from stream");
    let read_bytes = read.len();
    let packet = Packet::try_deserialize(read).expect("Failed to deserialize packet");

    assert_eq!(packet.length, Some(read_bytes as i32 - 4), "Length is not correct");
    assert_eq!(packet.request_id, 1337, "Request IDs are not the same");
    assert_eq!(
        packet.packet_type,
        PacketType::MultiPacketResponse,
        "Packet type is not MultiPacketResponse"
    );
    let paylad = packet.payload.expect("Payload is empty");
    assert!(paylad.starts_with("Seed: [") && paylad.ends_with("]"), "Command response is not correct");
}

#[test]
fn test_wrong_length() {
    // TEST LENGTH TOO HIGH
    let mut session = Session::new();
    let packet = Packet {
        length: Some(20),
        request_id: 1337,
        packet_type: PacketType::Login,
        payload: Some(String::from("minecraft")),
    };
    assert!(exchange(&mut session, &packet).is_none(), "Read did not time out");

    // TEST LENGTH TOO LOW
    let mut session = Session::new();
    let packet = Packet {
        length: Some(2),
        request_id: 1337,
        packet_type: PacketType::Login,
        payload: Some(String::from("minecraft")),
    };
    assert!(exchange(&mut session, &packet).is_none(), "Read did not time out");

    // TEST LENGTH NEGATIVE
    let packet = Packet {
        length: Some(-99),
        request_id: 1337,
        packet_type: PacketType::Login,
        payload: Some(String::from("minecraft")),
    };
    assert!(exchange(&mut session, &packet).is_none(), "Read did not time out");
    assert!(!session.authenticated);
}

#[test]
fn test_pre_auth_run_command() {
    let mut session = Session::new();
    let packet = Packet {
        length: None,
        request_id: 1337,
        packet_type: PacketType::RunCommand,
        payload: Some(String::from("seed")),
    };
    let read = exchange(&mut session, &packet).expect("Failed to read from stream");
    let packet = Packet::try_deserialize(read).expect("Failed to deserialize packet");

    assert_eq!(packet.request_id, -1, "Request ID is not -1");
}

#[test]
fn empty_read_closes_the_connection() {
    let mut session = Session::new();
    assert!(Session::can_read(&[]));
    assert!(matches!(session.on_read(Vec::new()), Step::Closed));
}

#[test]
fn reads_the_server_cannot_take() {
    // too short for a length field
    assert!(!Session::can_read(&[1, 2]));
    // a length field that overflows when the field itself is added
    assert!(!Session::can_read(&[0xff, 0xff, 0xff, 0x7f, 0, 0]));
    // a complete frame without a whole header
    assert!(!Session::can_read(&[4, 0, 0, 0, 1, 2, 3, 4]));
    // more than one read brings
    assert!(!Session::can_read(&vec![0u8; 1025]));
    // a mismatched length is fine to look at
    assert!(Session::can_read(&[9, 0, 0, 0, 1, 2, 3, 4]));
}

#[test]
fn login_without_password_is_refused() {
    let mut session = Session::new();
    let packet = Packet { length: None, request_id: 5, packet_type: PacketType::Login, payload: None };
    let reply = exchange(&mut session, &packet).unwrap();
    let reply = Packet::try_deserialize(reply).unwrap();
    assert_eq!(reply.request_id, -1);
    assert!(!session.authenticated);
}

#[test]
fn commands_after_login_are_delayed_and_answered() {
    let mut session = Session::new();
    let login = Packet {
        length: None,
        request_id: 1,
        packet_type: PacketType::Login,
        payload: Some("pw".to_string()),
    };
    match session.on_read(login.serialize()) {
        Step::Answered { delay, request, .. } => {
            assert!(!delay);
            assert_eq!(request.payload, Some("pw".to_string()));
            assert_eq!(request.length, Some(12));
        }
        _ => panic!("login was not answered"),
    }
    assert!(session.authenticated);
    let cmd = Packet {
        length: None,
        request_id: 2,
        packet_type: PacketType::RunCommand,
        payload: Some("op Steve".to_string()),
    };
    match session.on_read(cmd.serialize()) {
        Step::Answered { delay, reply, .. } => {
            assert!(delay);
            let reply = Packet::try_deserialize(reply).unwrap();
            assert_eq!(reply.request_id, 2);
            assert_eq!(reply.payload, Some("Made Steve a server operator".to_string()));
        }
        _ => panic!("command was not answered"),
    }
}

#[test]
fn unknown_packet_types_are_named_in_the_reply() {
    let mut session = Session::new();
    let packet = Packet {
        length: None,
        request_id: 9,
        packet_type: PacketType::Invalid(7),
        payload: None,
    };
    let reply = Packet::try_deserialize(exchange(&mut session, &packet).unwrap()).unwrap();
    assert_eq!(reply.request_id, 9);
    assert_eq!(reply.packet_type, PacketType::MultiPacketResponse);
    assert_eq!(reply.payload, Some("Unknown request 7".to_string()));
    // an Auth packet is read as a command (both are type 2)
    let packet = Packet { length: None, request_id: 3, packet_type: PacketType::Auth, payload: None };
    let reply = Packet::try_deserialize(exchange(&mut session, &packet).unwrap()).unwrap();
    assert_eq!(reply.request_id, -1);
}

#[test]
fn payloads_are_shown_without_ansi_escapes() {
    let p = Packet {
        length: None,
        request_id: 1,
        packet_type: PacketType::RunCommand,
        payload: Some("\x1b[31mred\x1b[0m text".to_string()),
    };
    assert_eq!(rpot::session::payload_for_display(&p), "red text");
    let p = Packet { length: None, request_id: 1, packet_type: PacketType::Login, payload: None };
    assert_eq!(rpot::session::payload_for_display(&p), "empty");
}
