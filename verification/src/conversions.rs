//! Packets from byte slices whose payload is known to be UTF-8, and packets
//! consumed into frames.
use vstd::prelude::*;
use vstd::utf8::valid_utf8;

use crate::de_serialize::{collect_payload, decoded, encodable, encoded, payload_bytes, DecodeError};
use crate::model::Packet;
use crate::text::string_from_utf8;

verus! {

impl Packet {
    /// Reads a frame whose payload is valid UTF-8 as a packet.
    pub fn from_u8_arr(buffer: &[u8]) -> (r: Result<Packet, DecodeError>)
        requires
            buffer@.len() >= 12,
            valid_utf8(payload_bytes(buffer@)),
        ensures
            r matches Ok(p) && p@ == decoded(buffer@),
    {
        let length_slice: [u8; 4] = [buffer[0], buffer[1], buffer[2], buffer[3]];
        let request_id_slice: [u8; 4] = [buffer[4], buffer[5], buffer[6], buffer[7]];
        let packet_type_slice: [u8; 4] = [buffer[8], buffer[9], buffer[10], buffer[11]];
        assert(length_slice@ =~= buffer@.subrange(0, 4));
        assert(request_id_slice@ =~= buffer@.subrange(4, 8));
        assert(packet_type_slice@ =~= buffer@.subrange(8, 12));
        let payload_vec = collect_payload(buffer);
        Ok(
            Packet {
                length: Some(Self::parse_length(length_slice)),
                request_id: Self::parse_request_id(request_id_slice),
                packet_type: Self::parse_packet_type(packet_type_slice),
                payload: Self::parse_utf8_payload(payload_vec),
            },
        )
    }

    fn parse_utf8_payload(buffer: Vec<u8>) -> (r: Option<String>)
        requires
            valid_utf8(buffer@),
        ensures
            buffer@.len() == 0 ==> r is None,
            buffer@.len() > 0 ==> (r matches Some(s) && s@ == vstd::utf8::decode_utf8(buffer@)),
    {
        if buffer.len() == 0 {
            return None;
        }
        Some(string_from_utf8(buffer).unwrap())
    }

    /// Consumes the packet and writes it as a frame.
    pub fn into_vec(self) -> (r: Vec<u8>)
        requires
            encodable(self@),
        ensures
            r@ == encoded(self@),
    {
        self.serialize()
    }
}

} // verus!
