//! Little-endian byte layout of the 32-bit ping reply.

use vstd::prelude::*;

verus! {

/// The four bytes of `v`, least significant first.
pub open spec fn le_bytes(v: u32) -> Seq<u8> {
    seq![
        (v % 0x100) as u8,
        ((v / 0x100) % 0x100) as u8,
        ((v / 0x1_0000) % 0x100) as u8,
        ((v / 0x100_0000) % 0x100) as u8,
    ]
}

/// The value of four bytes read least significant first.
pub open spec fn le_value(b: Seq<u8>) -> int
    recommends
        b.len() == 4,
{
    b[0] + b[1] * 0x100 + b[2] * 0x1_0000 + b[3] * 0x100_0000
}

/// Reading back the little-endian bytes of a value gives the value.
pub proof fn lemma_le_roundtrip(v: u32)
    ensures
        le_value(le_bytes(v)) == v,
{
    let b0 = v % 0x100;
    let q0 = v / 0x100;
    let b1 = q0 % 0x100;
    let q1 = q0 / 0x100;
    let b2 = q1 % 0x100;
    let b3 = q1 / 0x100;
    assert(v == b0 + 0x100 * q0);
    assert(q0 == b1 + 0x100 * q1);
    assert(q1 == b2 + 0x100 * b3);
    assert(v / 0x1_0000 == q1);
    assert(v / 0x100_0000 == b3);
    assert(b3 < 0x100);
}

/// The bytes come least significant first: byte `i` holds bits `8i..8i+8` of the
/// value, and reading four bytes weighs byte `i` by `256^i`.
pub proof fn lemma_le_byte_order(v: u32, b: Seq<u8>)
    requires
        b.len() == 4,
    ensures
        le_bytes(v).len() == 4,
        le_bytes(v)[0] as int == v % 256,
        le_bytes(v)[1] as int == (v / 256) % 256,
        le_bytes(v)[2] as int == (v / 65536) % 256,
        le_bytes(v)[3] as int == v / 16777216,
        le_value(b) == b[0] + 256 * b[1] + 65536 * b[2] + 16777216 * b[3],
{
}

/// `u32::from_le_bytes`.
pub fn u32_from_le_bytes(b: [u8; 4]) -> (v: u32)
    ensures
        v as int == le_value(b@),
{
    (b[0] as u32) + (b[1] as u32) * 0x100 + (b[2] as u32) * 0x1_0000 + (b[3] as u32) * 0x100_0000
}

} // verus!
