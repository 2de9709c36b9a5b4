use rpot::model::{EventType, Packet, PacketType};

#[test]
fn serialize_writes_the_documented_layout() {
    let p = Packet {
        length: None,
        request_id: 1337,
        packet_type: PacketType::Login,
        payload: Some("minecraft".to_string()),
    };
    let bytes = p.serialize();
    let mut expected = vec![19, 0, 0, 0, 0x39, 0x05, 0, 0, 3, 0, 0, 0];
    expected.extend_from_slice(b"minecraft");
    expected.extend_from_slice(&[0, 0]);
    assert_eq!(bytes, expected);
}

#[test]
fn serialize_keeps_a_given_length_and_negative_ids() {
    let p = Packet {
        length: Some(-99),
        request_id: -1,
        packet_type: PacketType::Auth,
        payload: None,
    };
    assert_eq!(
        p.serialize(),
        vec![0x9d, 0xff, 0xff, 0xff, 0xff, 0xff, 0xff, 0xff, 2, 0, 0, 0, 0, 0]
    );
}

#[test]
fn into_vec_and_to_u8_arr_agree_with_serialize() {
    let make = || Packet {
        length: None,
        request_id: 7,
        packet_type: PacketType::RunCommand,
        payload: Some("héllo".to_string()),
    };
    let expected = make().serialize();
    assert_eq!(expected.len(), 12 + 6 + 2);
    assert_eq!(expected[0], 16);
    assert_eq!(make().into_vec(), expected);
    assert_eq!(make().to_u8_arr(), expected);
}

#[test]
fn try_deserialize_reads_fields_little_endian() {
    let mut frame = vec![0x10, 0, 0, 0, 0xff, 0xff, 0xff, 0x7f, 0, 0, 0, 0];
    frame.extend_from_slice(b"hi\0rest");
    let p = Packet::try_deserialize(frame).unwrap();
    assert_eq!(p.length, Some(16));
    assert_eq!(p.request_id, i32::MAX);
    assert_eq!(p.packet_type, PacketType::MultiPacketResponse);
    assert_eq!(p.payload, Some("hi".to_string()));
}

#[test]
fn try_deserialize_reads_types_and_empty_payloads() {
    let frame = vec![10, 0, 0, 0, 1, 0, 0, 0, 0xfe, 0xff, 0xff, 0xff, 0, 0];
    let p = Packet::try_deserialize(frame).unwrap();
    assert_eq!(p.packet_type, PacketType::Invalid(-2));
    assert_eq!(p.payload, None);
    let frame = vec![10, 0, 0, 0, 1, 0, 0, 0, 2, 0, 0, 0];
    let p = Packet::try_deserialize(frame).unwrap();
    assert_eq!(p.packet_type, PacketType::RunCommand);
    assert_eq!(p.payload, None);
}

#[test]
fn try_deserialize_marks_invalid_utf8() {
    let frame = vec![10, 0, 0, 0, 1, 0, 0, 0, 3, 0, 0, 0, 0xff, 0xfe, 0];
    let p = Packet::try_deserialize(frame).unwrap();
    assert_eq!(p.packet_type, PacketType::Login);
    assert_eq!(p.payload, Some("(UTF-8 error)".to_string()));
}

#[test]
fn from_u8_arr_reads_utf8_payloads() {
    let mut frame = vec![14, 0, 0, 0, 42, 0, 0, 0, 2, 0, 0, 0];
    frame.extend_from_slice("§e".as_bytes());
    frame.push(0);
    let p = Packet::from_u8_arr(&frame).unwrap();
    assert_eq!(p.length, Some(14));
    assert_eq!(p.request_id, 42);
    assert_eq!(p.packet_type, PacketType::RunCommand);
    assert_eq!(p.payload, Some("§e".to_string()));
}

#[test]
fn decode_after_encode_gives_the_canonical_packet() {
    let p = Packet {
        length: None,
        request_id: 77,
        packet_type: PacketType::Auth,
        payload: Some(String::new()),
    };
    let back = Packet::try_deserialize(p.serialize()).unwrap();
    assert_eq!(back.length, Some(10));
    assert_eq!(back.request_id, 77);
    assert_eq!(back.packet_type, PacketType::RunCommand);
    assert_eq!(back.payload, None);
}

#[test]
fn encode_after_decode_gives_back_the_frame() {
    let mut frame = vec![20, 0, 0, 0, 5, 0, 0, 0, 9, 0, 0, 0];
    frame.extend_from_slice(b"abc\0\0junk");
    let p = Packet::try_deserialize(frame.clone()).unwrap();
    let mut expected = frame[..15].to_vec();
    expected.extend_from_slice(&[0, 0]);
    assert_eq!(p.serialize(), expected);
}

#[test]
fn type_numbers() {
    assert_eq!(*PacketType::Login.as_i32(), 3);
    assert_eq!(*PacketType::Auth.as_i32(), 2);
    assert_eq!(*PacketType::RunCommand.as_i32(), 2);
    assert_eq!(*PacketType::MultiPacketResponse.as_i32(), 0);
    assert_eq!(*PacketType::Invalid(-5).as_i32(), -5);
    assert_eq!(PacketType::Login.to_i32(), 3);
    assert_eq!(PacketType::Auth.to_i32(), 2);
    assert_eq!(PacketType::RunCommand.to_i32(), 2);
    assert_eq!(PacketType::MultiPacketResponse.to_i32(), 0);
    assert_eq!(PacketType::Invalid(12).to_i32(), 12);
}

#[test]
fn event_types_of_packets() {
    assert!(matches!(EventType::from(PacketType::RunCommand), EventType::RunCommand));
    assert!(matches!(EventType::from(PacketType::Auth), EventType::Auth));
    assert!(matches!(EventType::from(PacketType::Login), EventType::Auth));
    assert!(matches!(EventType::from(PacketType::MultiPacketResponse), EventType::Invalid));
    assert!(matches!(EventType::from(PacketType::Invalid(4)), EventType::Invalid));
    assert_eq!(EventType::ClientConnect.to_string(), "Client connected");
    assert_eq!(EventType::RunCommand.to_string(), "Client executed command");
    assert_eq!(EventType::ClientDisconnect.to_string(), "Client disconnected");
    assert_eq!(EventType::Auth.to_string(), "Client logged in");
    assert_eq!(EventType::Invalid.to_string(), "Invalid Event Type");
}
