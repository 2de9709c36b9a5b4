//! Reading packets from received frames and writing them out.
use vstd::prelude::*;
use vstd::utf8::*;

use crate::model::{Packet, PacketType, PacketView};
use crate::text::{lemma_encoding_decodes, string_from_utf8};
use crate::wire::{
    i32_from_le, i32_from_le_bytes, i32_to_le, lemma_i32_le_roundtrip, lemma_le_i32_roundtrip,
    push_i32_le,
};

verus! {

/// The bytes before the first zero byte (all of them if there is none).
pub open spec fn until_nul(s: Seq<u8>) -> Seq<u8>
    decreases s.len(),
{
    if s.len() == 0 {
        s
    } else if s[0] == 0 {
        Seq::empty()
    } else {
        seq![s[0]] + until_nul(s.drop_first())
    }
}

/// The payload bytes of a frame: those after the 12-byte header, up to the
/// first zero byte.
pub open spec fn payload_bytes(b: Seq<u8>) -> Seq<u8> {
    until_nul(b.skip(12))
}

/// The text a payload is read as; bytes that are not UTF-8 read as a
/// fixed marker.
pub open spec fn lenient_text(bytes: Seq<u8>) -> Seq<char> {
    if valid_utf8(bytes) {
        decode_utf8(bytes)
    } else {
        "(UTF-8 error)"@
    }
}

/// The packet a frame of at least 12 bytes is read as.
pub open spec fn decoded(b: Seq<u8>) -> PacketView {
    let pl = payload_bytes(b);
    PacketView {
        length: Some(i32_from_le(b.subrange(0, 4))),
        request_id: i32_from_le(b.subrange(4, 8)),
        packet_type: PacketType::from_code(i32_from_le(b.subrange(8, 12))),
        payload: if pl.len() == 0 {
            None
        } else {
            Some(lenient_text(pl))
        },
    }
}

/// The UTF-8 bytes of a packet's payload (none when it has no payload).
pub open spec fn payload_encoding(p: PacketView) -> Seq<u8> {
    match p.payload {
        Some(s) => encode_utf8(s),
        None => Seq::empty(),
    }
}

/// The value of the length field: the given one, or else the size of
/// what follows it (two integers, the payload and two zero bytes).
pub open spec fn declared_length(p: PacketView) -> int {
    match p.length {
        Some(l) => l as int,
        None => 4 + 4 + payload_encoding(p).len() as int + 1 + 1,
    }
}

/// A packet whose length field can be computed without overflow.
pub open spec fn encodable(p: PacketView) -> bool {
    p.length is None ==> payload_encoding(p).len() + 10 <= i32::MAX
}

/// The frame a packet is written as: length, request id and type (each
/// four bytes, little-endian), the payload, and two zero bytes.
pub open spec fn encoded(p: PacketView) -> Seq<u8> {
    i32_to_le(declared_length(p) as i32) + i32_to_le(p.request_id) + i32_to_le(
        p.packet_type.code(),
    ) + payload_encoding(p) + seq![0u8, 0u8]
}

/// Why a frame could not be read: its 12-byte header is not all there.
/// The decoders require the header, so they never return it.
#[derive(Debug)]
pub enum DecodeError {
    ShortHeader,
}

/// Collects the payload bytes: those from offset 12 up to the first zero.
pub(crate) fn collect_payload(buffer: &[u8]) -> (r: Vec<u8>)
    requires
        buffer@.len() >= 12,
    ensures
        r@ == payload_bytes(buffer@),
{
    let mut payload_vec: Vec<u8> = Vec::new();
    let mut i: usize = 12;
    assert(buffer@.skip(12) == buffer@.skip(i as int));
    while i < buffer.len() && buffer[i] != 0
        invariant
            12 <= i <= buffer@.len(),
            payload_bytes(buffer@) == payload_vec@ + until_nul(buffer@.skip(i as int)),
        decreases buffer@.len() - i,
    {
        let ghost rest = buffer@.skip(i as int);
        assert(rest.drop_first() =~= buffer@.skip(i + 1));
        payload_vec.push(buffer[i]);
        i = i + 1;
        assert(payload_bytes(buffer@) =~= payload_vec@ + until_nul(buffer@.skip(i as int)));
    }
    assert(until_nul(buffer@.skip(i as int)) =~= Seq::empty());
    assert(payload_bytes(buffer@) =~= payload_vec@);
    payload_vec
}

impl Packet {
    /// Reads a received frame (at least the 12-byte header) as a packet.
    pub fn try_deserialize(buffer: Vec<u8>) -> (r: Result<Packet, DecodeError>)
        requires
            buffer@.len() >= 12,
        ensures
            r matches Ok(p) && p@ == decoded(buffer@),
    {
        let length_slice: [u8; 4] = [buffer[0], buffer[1], buffer[2], buffer[3]];
        let request_id_slice: [u8; 4] = [buffer[4], buffer[5], buffer[6], buffer[7]];
        let packet_type_slice: [u8; 4] = [buffer[8], buffer[9], buffer[10], buffer[11]];
        assert(length_slice@ =~= buffer@.subrange(0, 4));
        assert(request_id_slice@ =~= buffer@.subrange(4, 8));
        assert(packet_type_slice@ =~= buffer@.subrange(8, 12));
        let payload_vec = collect_payload(buffer.as_slice());
        let p = Packet {
            length: Some(Self::parse_length(length_slice)),
            request_id: Self::parse_request_id(request_id_slice),
            packet_type: Self::parse_packet_type(packet_type_slice),
            payload: Self::parse_payload(payload_vec),
        };
        Ok(p)
    }

    pub(crate) fn parse_length(buffer: [u8; 4]) -> (n: i32)
        ensures
            n == i32_from_le(buffer@),
    {
        let n = i32_from_le_bytes(buffer[0], buffer[1], buffer[2], buffer[3]);
        assert(buffer@ =~= seq![buffer[0], buffer[1], buffer[2], buffer[3]]);
        n
    }

    pub(crate) fn parse_request_id(buffer: [u8; 4]) -> (n: i32)
        ensures
            n == i32_from_le(buffer@),
    {
        let n = i32_from_le_bytes(buffer[0], buffer[1], buffer[2], buffer[3]);
        assert(buffer@ =~= seq![buffer[0], buffer[1], buffer[2], buffer[3]]);
        n
    }

    pub(crate) fn parse_packet_type(buffer: [u8; 4]) -> (t: PacketType)
        ensures
            t == PacketType::from_code(i32_from_le(buffer@)),
    {
        let request_type = i32_from_le_bytes(buffer[0], buffer[1], buffer[2], buffer[3]);
        assert(buffer@ =~= seq![buffer[0], buffer[1], buffer[2], buffer[3]]);
        match request_type {
            0 => PacketType::MultiPacketResponse,
            2 => PacketType::RunCommand,
            3 => PacketType::Login,
            _ => PacketType::Invalid(request_type),
        }
    }

    pub(crate) fn parse_payload(buffer: Vec<u8>) -> (r: Option<String>)
        ensures
            buffer@.len() == 0 ==> r is None,
            buffer@.len() > 0 ==> (r matches Some(s) && s@ == lenient_text(buffer@)),
    {
        if buffer.len() == 0 {
            return None;
        }
        match string_from_utf8(buffer) {
            Some(s) => Some(s),
            None => Some("(UTF-8 error)".to_owned()),
        }
    }
}

impl Packet {
    /// Writes the packet as a frame.
    pub fn serialize(&self) -> (r: Vec<u8>)
        requires
            encodable(self@),
        ensures
            r@ == encoded(self@),
    {
        let mut buffer: Vec<u8> = Vec::new();
        let len: i32 = match self.length {
            Some(l) => l,
            None => {
                let pl_len: usize = match &self.payload {
                    Some(s) => s.as_str().len(),
                    None => 0,
                };
                let mut len: i32 = 0;
                len += 4;
                len += 4;
                len += pl_len as i32 + 1;
                len + 1
            },
        };
        push_i32_le(&mut buffer, len);
        push_i32_le(&mut buffer, self.request_id);
        push_i32_le(&mut buffer, *self.packet_type.as_i32());
        let ghost header = buffer@;
        if let Some(pl) = &self.payload {
            buffer.extend_from_slice(pl.as_str().as_bytes());
        }
        assert(buffer@ =~= header + payload_encoding(self@));
        buffer.push(0);
        buffer.push(0);
        assert(buffer@ =~= encoded(self@));
        buffer
    }
}

impl PacketType {
    /// The number that stands for this kind in a packet's type field.
    pub fn as_i32(&self) -> (r: &i32)
        ensures
            *r == self.code(),
    {
        match self {
            PacketType::Login => &3,
            PacketType::Auth | PacketType::RunCommand => &2,
            PacketType::MultiPacketResponse => &0,
            PacketType::Invalid(n) => n,
        }
    }
}

/// The packet a written packet is read back as: the length field is filled
/// in, the type is read from its number, and an empty payload reads as none.
pub open spec fn canonical(p: PacketView) -> PacketView {
    PacketView {
        length: Some(declared_length(p) as i32),
        request_id: p.request_id,
        packet_type: PacketType::from_code(p.packet_type.code()),
        payload: match p.payload {
            Some(s) => if s.len() == 0 {
                None
            } else {
                Some(s)
            },
            None => None,
        },
    }
}

/// A payload that a zero byte would not cut short.
pub open spec fn nul_free(p: PacketView) -> bool {
    p.payload matches Some(s) ==> !s.contains('\0')
}

proof fn lemma_until_nul_append(e: Seq<u8>, t: Seq<u8>)
    requires
        forall|i: int| 0 <= i < e.len() ==> e[i] != 0,
        t.len() == 0 || t[0] == 0,
    ensures
        until_nul(e + t) == e,
    decreases e.len(),
{
    if e.len() == 0 {
        assert(e + t =~= t);
        assert(until_nul(t) =~= e);
    } else {
        assert((e + t).drop_first() =~= e.drop_first() + t);
        lemma_until_nul_append(e.drop_first(), t);
        assert(e =~= seq![e[0]] + e.drop_first());
    }
}

proof fn lemma_until_nul_is_prefix(s: Seq<u8>)
    ensures
        until_nul(s).len() <= s.len(),
        until_nul(s) == s.take(until_nul(s).len() as int),
    decreases s.len(),
{
    if s.len() == 0 {
        assert(s.take(0) =~= s);
    } else if s[0] == 0 {
        assert(s.take(0) =~= Seq::<u8>::empty());
    } else {
        lemma_until_nul_is_prefix(s.drop_first());
        let n = until_nul(s.drop_first()).len() as int;
        assert(s.take(n + 1) =~= seq![s[0]] + s.drop_first().take(n));
    }
}

/// The payload of a frame lies within it, after the header.
pub proof fn lemma_payload_bytes_len(b: Seq<u8>)
    requires
        b.len() >= 12,
    ensures
        payload_bytes(b).len() <= b.len() - 12,
{
    lemma_until_nul_is_prefix(b.skip(12));
}

proof fn lemma_scalar_bytes_nonzero(v: u32)
    requires
        is_scalar(v),
        v != 0,
    ensures
        encode_scalar(v).len() > 0,
        forall|i: int| 0 <= i < encode_scalar(v).len() ==> encode_scalar(v)[i] != 0,
{
    assert(1 <= v <= 0x7F ==> (v & 0x7F) as u8 != 0) by (bit_vector);
    assert(forall|x: u8| (0xC0u8 | x) != 0) by (bit_vector);
    assert(forall|x: u8| (0xE0u8 | x) != 0) by (bit_vector);
    assert(forall|x: u8| (0xF0u8 | x) != 0) by (bit_vector);
    assert(forall|x: u8| (0x80u8 | x) != 0) by (bit_vector);
}

proof fn lemma_encoding_nonzero(s: Seq<char>)
    requires
        !s.contains('\0'),
    ensures
        forall|i: int| 0 <= i < encode_utf8(s).len() ==> encode_utf8(s)[i] != 0,
        encode_utf8(s).len() == 0 <==> s.len() == 0,
    decreases s.len(),
{
    if s.len() > 0 {
        let c = s[0];
        assert(c != '\0') by {
            assert(s.contains(c) || s[0] != c);
        }
        char_is_scalar(c);
        assert(c as u32 != 0) by {
            char_u32_cast(c, c as u32);
            assert(('\0' as u32) == 0u32);
        }
        lemma_scalar_bytes_nonzero(c as u32);
        assert(!s.drop_first().contains('\0')) by {
            if s.drop_first().contains('\0') {
                let k = choose|k: int| 0 <= k < s.drop_first().len() && s.drop_first()[k] == '\0';
                assert(s[k + 1] == '\0');
            }
        }
        lemma_encoding_nonzero(s.drop_first());
        let a = encode_scalar(c as u32);
        let b = encode_utf8(s.drop_first());
        assert(encode_utf8(s) == a + b);
        assert forall|i: int| 0 <= i < encode_utf8(s).len() implies encode_utf8(s)[i] != 0 by {
            if i < a.len() {
                assert(encode_utf8(s)[i] == a[i]);
            } else {
                assert(encode_utf8(s)[i] == b[i - a.len()]);
            }
        }
    }
}

/// Reading back a written packet gives the packet, with its length field
/// filled in, its type read from its number and an empty payload read as
/// none; provided no NUL character cuts the payload short.
pub proof fn law_decode_after_encode(p: PacketView)
    requires
        encodable(p),
        nul_free(p),
    ensures
        encoded(p).len() >= 12,
        decoded(encoded(p)) == canonical(p),
{
    let e = payload_encoding(p);
    let b = encoded(p);
    lemma_i32_le_roundtrip(declared_length(p) as i32);
    lemma_i32_le_roundtrip(p.request_id);
    lemma_i32_le_roundtrip(p.packet_type.code());
    if let Some(s) = p.payload {
        lemma_encoding_nonzero(s);
        lemma_encoding_decodes(s);
    }
    assert(b.subrange(0, 4) =~= i32_to_le(declared_length(p) as i32));
    assert(b.subrange(4, 8) =~= i32_to_le(p.request_id));
    assert(b.subrange(8, 12) =~= i32_to_le(p.packet_type.code()));
    assert(b.skip(12) =~= e + seq![0u8, 0u8]);
    lemma_until_nul_append(e, seq![0u8, 0u8]);
    assert(payload_bytes(b) == e);
    assert(decoded(b) =~= canonical(p));
}

/// Writing out a received packet gives back the frame it was read from, up
/// to the end of its payload, followed by two zero bytes; provided the
/// payload was valid UTF-8.
pub proof fn law_encode_after_decode(b: Seq<u8>)
    requires
        b.len() >= 12,
        valid_utf8(payload_bytes(b)),
    ensures
        encodable(decoded(b)),
        encoded(decoded(b)) == b.take(12 + payload_bytes(b).len() as int) + seq![0u8, 0u8],
{
    let p = decoded(b);
    let pl = payload_bytes(b);
    lemma_le_i32_roundtrip(b.subrange(0, 4));
    lemma_le_i32_roundtrip(b.subrange(4, 8));
    lemma_le_i32_roundtrip(b.subrange(8, 12));
    lemma_until_nul_is_prefix(b.skip(12));
    if pl.len() > 0 {
        decode_utf8_encode_utf8(pl);
    }
    assert(payload_encoding(p) =~= pl);
    assert(p.packet_type.code() == i32_from_le(b.subrange(8, 12)));
    assert(encoded(p) =~= b.take(12 + pl.len() as int) + seq![0u8, 0u8]);
}

/// The length field of a frame written with no length given counts exactly
/// the bytes that follow it.
pub proof fn law_computed_length_counts_rest(p: PacketView)
    requires
        p.length is None,
        encodable(p),
    ensures
        i32_from_le(encoded(p).take(4)) + 4 == encoded(p).len(),
{
    lemma_i32_le_roundtrip(declared_length(p) as i32);
    assert(encoded(p).take(4) =~= i32_to_le(declared_length(p) as i32));
}

} // verus!
