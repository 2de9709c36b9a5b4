//! Little-endian encoding of 32-bit signed integers, as RCON frames them.
use vstd::prelude::*;

verus! {

/// The unsigned value of four bytes read little-endian.
pub open spec fn le_u32_value(b: Seq<u8>) -> int {
    b[0] + 256 * b[1] + 65536 * b[2] + 16777216 * b[3]
}

/// The two's complement reading of four little-endian bytes.
pub open spec fn i32_from_le(b: Seq<u8>) -> i32 {
    let u = le_u32_value(b);
    if u < 0x8000_0000 {
        u as i32
    } else {
        (u - 0x1_0000_0000) as i32
    }
}

/// The unsigned 32-bit pattern of a signed integer.
pub open spec fn i32_bits(n: i32) -> int {
    if n >= 0 {
        n as int
    } else {
        n + 0x1_0000_0000
    }
}

/// The four little-endian bytes of a signed integer.
pub open spec fn i32_to_le(n: i32) -> Seq<u8> {
    let u = i32_bits(n);
    seq![
        (u % 256) as u8,
        (u / 256 % 256) as u8,
        (u / 65536 % 256) as u8,
        (u / 16777216 % 256) as u8,
    ]
}

/// Decodes four bytes, least significant first, into an `i32`.
pub fn i32_from_le_bytes(b0: u8, b1: u8, b2: u8, b3: u8) -> (n: i32)
    ensures
        n == i32_from_le(seq![b0, b1, b2, b3]),
{
    let u: u32 = b0 as u32 + (b1 as u32) * 256 + (b2 as u32) * 65536 + (b3 as u32) * 16777216;
    if u < 0x8000_0000 {
        u as i32
    } else {
        ((u - 0x8000_0000) as i32) + i32::MIN
    }
}

/// Appends the four little-endian bytes of `n` to `buf`.
pub fn push_i32_le(buf: &mut Vec<u8>, n: i32)
    ensures
        final(buf)@ == old(buf)@ + i32_to_le(n),
{
    let u: u32 = if n >= 0 {
        n as u32
    } else {
        ((n - i32::MIN) as u32) + 0x8000_0000
    };
    assert(u == i32_bits(n));
    buf.push((u % 256) as u8);
    buf.push((u / 256 % 256) as u8);
    buf.push((u / 65536 % 256) as u8);
    buf.push((u / 16777216 % 256) as u8);
    assert(final(buf)@ =~= old(buf)@ + i32_to_le(n));
}

/// Decoding the encoding of an integer gives the integer back.
pub proof fn lemma_i32_le_roundtrip(n: i32)
    ensures
        i32_to_le(n).len() == 4,
        i32_from_le(i32_to_le(n)) == n,
{
    let u = i32_bits(n);
    let b = i32_to_le(n);
    assert(0 <= u < 0x1_0000_0000);
    assert(le_u32_value(b) == u) by (nonlinear_arith)
        requires
            0 <= u < 0x1_0000_0000,
            b[0] == u % 256,
            b[1] == u / 256 % 256,
            b[2] == u / 65536 % 256,
            b[3] == u / 16777216 % 256,
    ;
}

/// Encoding the reading of four bytes gives the same four bytes back.
pub proof fn lemma_le_i32_roundtrip(b: Seq<u8>)
    requires
        b.len() == 4,
    ensures
        i32_to_le(i32_from_le(b)) == b,
{
    let u = le_u32_value(b);
    assert(0 <= u < 0x1_0000_0000);
    assert(i32_bits(i32_from_le(b)) == u);
    let (b0, b1, b2, b3) = (b[0] as int, b[1] as int, b[2] as int, b[3] as int);
    assert(u % 256 == b0 && u / 256 % 256 == b1 && u / 65536 % 256 == b2 && u / 16777216 % 256
        == b3) by (nonlinear_arith)
        requires
            u == b0 + 256 * b1 + 65536 * b2 + 16777216 * b3,
            0 <= b0 < 256,
            0 <= b1 < 256,
            0 <= b2 < 256,
            0 <= b3 < 256,
    ;
    assert(i32_to_le(i32_from_le(b)) =~= b);
}

} // verus!
