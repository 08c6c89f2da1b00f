//! Little-endian numbers as they stand in headers.
use vstd::arithmetic::div_mod::lemma_fundamental_div_mod_converse;
use vstd::prelude::*;

verus! {

/// The number that the two bytes at `at` spell, low byte first.
pub open spec fn le_u16(bytes: Seq<u8>, at: int) -> u16 {
    (bytes[at] + bytes[at + 1] * 0x100) as u16
}

/// The number that the four bytes at `at` spell, low byte first.
pub open spec fn le_u32(bytes: Seq<u8>, at: int) -> u32 {
    (bytes[at] + bytes[at + 1] * 0x100 + bytes[at + 2] * 0x1_0000 + bytes[at + 3] * 0x100_0000) as u32
}

/// The two bytes that spell a number, low byte first.
pub open spec fn u16_le(x: u16) -> Seq<u8> {
    seq![(x % 0x100) as u8, (x / 0x100) as u8]
}

/// The four bytes that spell a number, low byte first.
pub open spec fn u32_le(x: u32) -> Seq<u8> {
    seq![
        (x % 0x100) as u8,
        (x / 0x100 % 0x100) as u8,
        (x / 0x1_0000 % 0x100) as u8,
        (x / 0x100_0000) as u8,
    ]
}

/// Reads the number that the two bytes at `at` spell.
pub fn u16_from_le(bytes: &[u8], at: usize) -> (x: u16)
    requires
        at + 2 <= bytes@.len(),
    ensures
        x == le_u16(bytes@, at as int),
{
    bytes[at] as u16 + (bytes[at + 1] as u16) * 0x100
}

/// Reads the number that the four bytes at `at` spell.
pub fn u32_from_le(bytes: &[u8], at: usize) -> (x: u32)
    requires
        at + 4 <= bytes@.len(),
    ensures
        x == le_u32(bytes@, at as int),
{
    bytes[at] as u32 + (bytes[at + 1] as u32) * 0x100 + (bytes[at + 2] as u32) * 0x1_0000 + (bytes[at
        + 3] as u32) * 0x100_0000
}

/// Spells a number as two bytes.
pub fn u16_to_le(x: u16) -> (bytes: [u8; 2])
    ensures
        bytes@ == u16_le(x),
{
    let bytes: [u8; 2] = [(x % 0x100) as u8, (x / 0x100) as u8];
    assert(bytes@ =~= u16_le(x));
    bytes
}

/// Spells a number as four bytes.
pub fn u32_to_le(x: u32) -> (bytes: [u8; 4])
    ensures
        bytes@ == u32_le(x),
{
    let bytes: [u8; 4] = [
        (x % 0x100) as u8,
        (x / 0x100 % 0x100) as u8,
        (x / 0x1_0000 % 0x100) as u8,
        (x / 0x100_0000) as u8,
    ];
    assert(bytes@ =~= u32_le(x));
    bytes
}

/// A number is read back from the bytes that spell it, wherever they stand.
pub proof fn lemma_u16_le_round_trip(x: u16, bytes: Seq<u8>, at: int)
    requires
        0 <= at,
        at + 2 <= bytes.len(),
        bytes.subrange(at, at + 2) == u16_le(x),
    ensures
        le_u16(bytes, at) == x,
{
    let part = bytes.subrange(at, at + 2);
    assert(bytes[at] == part[0]);
    assert(bytes[at + 1] == part[1]);
}

/// A number is read back from the bytes that spell it, wherever they stand.
pub proof fn lemma_u32_le_round_trip(x: u32, bytes: Seq<u8>, at: int)
    requires
        0 <= at,
        at + 4 <= bytes.len(),
        bytes.subrange(at, at + 4) == u32_le(x),
    ensures
        le_u32(bytes, at) == x,
{
    let part = bytes.subrange(at, at + 4);
    assert(bytes[at] == part[0]);
    assert(bytes[at + 1] == part[1]);
    assert(bytes[at + 2] == part[2]);
    assert(bytes[at + 3] == part[3]);
}

/// The bytes at `at` are those that spell the number they are read as.
pub proof fn lemma_u16_le_bytes(bytes: Seq<u8>, at: int)
    requires
        0 <= at,
        at + 2 <= bytes.len(),
    ensures
        bytes.subrange(at, at + 2) == u16_le(le_u16(bytes, at)),
{
    assert(bytes.subrange(at, at + 2) =~= u16_le(le_u16(bytes, at)));
}

/// The bytes at `at` are those that spell the number they are read as.
pub proof fn lemma_u32_le_bytes(bytes: Seq<u8>, at: int)
    requires
        0 <= at,
        at + 4 <= bytes.len(),
    ensures
        bytes.subrange(at, at + 4) == u32_le(le_u32(bytes, at)),
{
    let x = le_u32(bytes, at) as int;
    let high = bytes[at + 1] + bytes[at + 2] * 0x100 + bytes[at + 3] * 0x1_0000;
    let higher = bytes[at + 2] + bytes[at + 3] * 0x100;
    lemma_fundamental_div_mod_converse(x, 0x100, high, bytes[at] as int);
    lemma_fundamental_div_mod_converse(high, 0x100, higher, bytes[at + 1] as int);
    lemma_fundamental_div_mod_converse(higher, 0x100, bytes[at + 3] as int, bytes[at + 2] as int);
    lemma_fundamental_div_mod_converse(x, 0x1_0000, higher, bytes[at] + bytes[at + 1] * 0x100);
    lemma_fundamental_div_mod_converse(
        x,
        0x100_0000,
        bytes[at + 3] as int,
        bytes[at] + bytes[at + 1] * 0x100 + bytes[at + 2] * 0x1_0000,
    );
    assert(bytes.subrange(at, at + 4) =~= u32_le(le_u32(bytes, at)));
}

} // verus!
