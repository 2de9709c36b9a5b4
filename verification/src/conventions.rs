//! Consuming conversions of packets into frames, and type numbers by value.
use vstd::prelude::*;

use crate::de_serialize::{encodable, encoded};
use crate::model::{Packet, PacketType};

verus! {

impl Packet {
    /// Consumes the packet and writes it as a frame.
    pub fn to_u8_arr(self) -> (r: Vec<u8>)
        requires
            encodable(self@),
        ensures
            r@ == encoded(self@),
    {
        self.serialize()
    }
}

impl PacketType {
    /// The number that stands for this kind in a packet's type field.
    pub fn to_i32(&self) -> (n: i32)
        ensures
            n == self.code(),
    {
        match self {
            PacketType::Login => 3,
            PacketType::Auth => 2,
            PacketType::MultiPacketResponse => 0,
            PacketType::RunCommand => 2,
            PacketType::Invalid(n) => *n,
        }
    }
}

} // verus!
