//! Packets of a kind the server does not serve.
use vstd::prelude::*;

use crate::generator::response_view;
use crate::model::{Packet, PacketView};
use crate::model::PacketType;
use crate::text::{
    all_digits, digits_value, i32_to_decimal, int_decimal, law_decimal_numeral_stands_for_number,
};

verus! {

/// The reply to a packet of an unserved kind: it names the type number.
pub open spec fn invalid_reply(p: PacketView) -> PacketView {
    response_view(p.request_id, "Unknown request "@ + int_decimal(p.packet_type.code() as int))
}

/// Answers a packet of a kind the server does not serve.
pub fn handler_invalid(packet: Packet) -> (r: Packet)
    ensures
        r@ == invalid_reply(packet@),
{
    let packet_id = packet.packet_type.as_i32();
    let mut text = "Unknown request ".to_owned();
    let number = i32_to_decimal(*packet_id);
    text.append(number.as_str());
    Packet::gen_response(packet.request_id, text)
}

/// The reply to a packet of an unserved kind does not depend on its
/// payload or length field: two such packets of the same id and kind get
/// the same reply.
pub proof fn law_invalid_reply_ignores_payload(p1: PacketView, p2: PacketView)
    requires
        p1.request_id == p2.request_id,
        p1.packet_type == p2.packet_type,
    ensures
        invalid_reply(p1) == invalid_reply(p2),
{
}

/// The numeral `num` names the integer `n` in decimal: a minus sign for a
/// negative number, then digits that stand for its magnitude.
pub open spec fn names_number(num: Seq<char>, n: int) -> bool {
    &&& (n >= 0 ==> {
        &&& num.len() > 0
        &&& all_digits(num)
        &&& digits_value(num) == n
    })
    &&& (n < 0 ==> {
        &&& num.len() > 1
        &&& num[0] == '-'
        &&& all_digits(num.drop_first())
        &&& digits_value(num.drop_first()) == -n
    })
}

/// The reply to a packet of an unserved kind is a command response under
/// the request's id whose text is `Unknown request ` followed by a numeral
/// that names the type number.
pub proof fn law_invalid_reply_names_type_number(p: PacketView)
    ensures
        invalid_reply(p).request_id == p.request_id,
        invalid_reply(p).packet_type == PacketType::MultiPacketResponse,
        invalid_reply(p).payload is Some,
        exists|num: Seq<char>|
            invalid_reply(p).payload == Some("Unknown request "@ + num) && #[trigger] names_number(
                num,
                p.packet_type.code() as int,
            ),
{
    let n = p.packet_type.code() as int;
    law_decimal_numeral_stands_for_number(n);
    if n < 0 {
        law_decimal_numeral_stands_for_number(-n);
        assert(int_decimal(n).drop_first() =~= int_decimal(-n));
    }
    assert(names_number(int_decimal(n), n));
}

} // verus!
