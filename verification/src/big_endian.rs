//! Unsigned integers in network byte order: most significant byte first.
//!
//! The wire image of an integer is defined by positional arithmetic, so that
//! it means the same on every host; the executable conversions use shifts and
//! are proved to agree with it.

use vstd::prelude::*;

verus! {

/// The two bytes of `x`, most significant first.
pub open spec fn u16_be_bytes(x: u16) -> Seq<u8> {
    seq![(x / 0x100) as u8, (x % 0x100) as u8]
}

/// The number that the first two bytes of `b` denote, read most significant
/// first.
pub open spec fn u16_be_value(b: Seq<u8>) -> u16 {
    (b[0] * 0x100 + b[1]) as u16
}

/// The four bytes of `x`, most significant first.
pub open spec fn u32_be_bytes(x: u32) -> Seq<u8> {
    seq![
        (x / 0x100_0000) as u8,
        (x / 0x1_0000 % 0x100) as u8,
        (x / 0x100 % 0x100) as u8,
        (x % 0x100) as u8,
    ]
}

/// The number that the first four bytes of `b` denote, read most significant
/// first.
pub open spec fn u32_be_value(b: Seq<u8>) -> u32 {
    (b[0] * 0x100_0000 + b[1] * 0x1_0000 + b[2] * 0x100 + b[3]) as u32
}

/// Reading back the bytes of a 16-bit number gives the number.
pub proof fn lemma_u16_value_of_bytes(x: u16)
    ensures
        u16_be_bytes(x).len() == 2,
        u16_be_value(u16_be_bytes(x)) == x,
{
}

/// Two bytes are the bytes of the number they denote: no two distinct byte
/// pairs denote the same number.
pub proof fn lemma_u16_bytes_of_value(b: Seq<u8>)
    requires
        b.len() == 2,
    ensures
        u16_be_value(b) == b[0] * 0x100 + b[1],
        u16_be_bytes(u16_be_value(b)) == b,
{
    assert(u16_be_bytes(u16_be_value(b)) =~= b);
}

/// Reading back the bytes of a 32-bit number gives the number.
pub proof fn lemma_u32_value_of_bytes(x: u32)
    ensures
        u32_be_bytes(x).len() == 4,
        u32_be_value(u32_be_bytes(x)) == x,
{
}

/// Four bytes are the bytes of the number they denote: no two distinct byte
/// quadruples denote the same number.
pub proof fn lemma_u32_bytes_of_value(b: Seq<u8>)
    requires
        b.len() == 4,
    ensures
        u32_be_value(b) == b[0] * 0x100_0000 + b[1] * 0x1_0000 + b[2] * 0x100 + b[3],
        u32_be_bytes(u32_be_value(b)) == b,
{
    assert(u32_be_bytes(u32_be_value(b)) =~= b);
}

/// Splits a 16-bit number into its network-order bytes.
pub fn u16_to_be_bytes(x: u16) -> (b: [u8; 2])
    ensures
        b@ == u16_be_bytes(x),
{
    assert(x >> 8 == x / 0x100 && x & 0xff == x % 0x100) by (bit_vector);
    let b: [u8; 2] = [(x >> 8) as u8, (x & 0xff) as u8];
    assert(b@ =~= u16_be_bytes(x));
    b
}

/// Joins two network-order bytes into the 16-bit number they denote.
pub fn u16_from_be_bytes(b: &[u8; 2]) -> (x: u16)
    ensures
        x == u16_be_value(b@),
{
    let hi: u16 = b[0] as u16;
    let lo: u16 = b[1] as u16;
    assert((hi << 8) | lo == hi * 0x100 + lo) by (bit_vector)
        requires
            hi < 0x100,
            lo < 0x100,
    ;
    (hi << 8) | lo
}

/// Splits a 32-bit number into its network-order bytes.
pub fn u32_to_be_bytes(x: u32) -> (b: [u8; 4])
    ensures
        b@ == u32_be_bytes(x),
{
    assert(x >> 24 == x / 0x100_0000 && (x >> 16) & 0xff == x / 0x1_0000 % 0x100 && (x >> 8) & 0xff
        == x / 0x100 % 0x100 && x & 0xff == x % 0x100) by (bit_vector);
    let b: [u8; 4] = [
        (x >> 24) as u8,
        ((x >> 16) & 0xff) as u8,
        ((x >> 8) & 0xff) as u8,
        (x & 0xff) as u8,
    ];
    assert(b@ =~= u32_be_bytes(x));
    b
}

/// Joins four network-order bytes into the 32-bit number they denote.
pub fn u32_from_be_bytes(b: &[u8; 4]) -> (x: u32)
    ensures
        x == u32_be_value(b@),
{
    let b0: u32 = b[0] as u32;
    let b1: u32 = b[1] as u32;
    let b2: u32 = b[2] as u32;
    let b3: u32 = b[3] as u32;
    assert((b0 << 24) | (b1 << 16) | (b2 << 8) | b3 == b0 * 0x100_0000 + b1 * 0x1_0000 + b2 * 0x100
        + b3) by (bit_vector)
        requires
            b0 < 0x100,
            b1 < 0x100,
            b2 < 0x100,
            b3 < 0x100,
    ;
    (b0 << 24) | (b1 << 16) | (b2 << 8) | b3
}

} // verus!
