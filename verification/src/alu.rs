//! The arithmetic behind the instructions: results wrapped to the width of
//! their destination, the carries out of bit 3 and bit 11, and the sign
//! extension of offsets. Each function computes on bits what its contract
//! states on integers.

use vstd::prelude::*;

verus! {

/// `value` modulo 256: what an 8-bit destination keeps of a result.
#[verifier::opaque]
pub open spec fn wrap8(value: int) -> u8 {
    (value % 256) as u8
}

/// `value` modulo 65536: what a 16-bit destination keeps of a result.
#[verifier::opaque]
pub open spec fn wrap16(value: int) -> u16 {
    (value % 65536) as u16
}

/// The number that a byte stands for in two's complement.
pub open spec fn signed8(byte: u8) -> int {
    if byte < 128 {
        byte as int
    } else {
        byte - 256
    }
}

/// Whether adding the low nibbles of two numbers carries out of bit 3.
pub open spec fn nibble_carries(left: int, right: int) -> bool {
    left % 16 + right % 16 >= 16
}

/// Whether adding the low 12 bits of two numbers carries out of bit 11.
pub open spec fn crumb_carries(left: int, right: int) -> bool {
    left % 4096 + right % 4096 >= 4096
}

/// Whether taking the low nibble of `right` from that of `left` borrows.
pub open spec fn nibble_borrows(left: int, right: int) -> bool {
    right % 16 > left % 16
}

/// A number that fits its destination is kept as it is; one that passes
/// the top by less than the destination's range comes round to the bottom,
/// and one below zero to the top.
pub proof fn lemma_wrap(value: int)
    ensures
        0 <= value < 0x100 ==> wrap8(value) == value,
        0x100 <= value < 0x200 ==> wrap8(value) == value - 0x100,
        -0x100 <= value < 0 ==> wrap8(value) == value + 0x100,
        0 <= value < 0x10000 ==> wrap16(value) == value,
        0x10000 <= value < 0x20000 ==> wrap16(value) == value - 0x10000,
        -0x10000 <= value < 0 ==> wrap16(value) == value + 0x10000,
{
    reveal(wrap8);
    reveal(wrap16);
}

/// Keeps the low 8 bits of a result.
pub fn truncate8(value: i32) -> (byte: u8)
    ensures
        byte == wrap8(value as int),
{
    reveal(wrap8);
    let byte: u8 = #[verifier::truncate] (value as u8);
    assert(byte == value % 256) by (bit_vector)
        requires
            byte == value as u8,
    ;
    byte
}

/// Keeps the low 16 bits of a result.
pub fn truncate16(value: i32) -> (word: u16)
    ensures
        word == wrap16(value as int),
{
    reveal(wrap16);
    let word: u16 = #[verifier::truncate] (value as u16);
    assert(word == value % 65536) by (bit_vector)
        requires
            word == value as u16,
    ;
    word
}

/// Reads a byte as a signed offset and widens it.
pub fn sign_extend(byte: u8) -> (value: i32)
    ensures
        value == signed8(byte),
{
    let narrow: i8 = #[verifier::truncate] (byte as i8);
    assert(narrow == if byte < 128 {
        byte as int
    } else {
        byte - 256
    }) by (bit_vector)
        requires
            narrow == byte as i8,
    ;
    narrow as i32
}

/// Half-carry of an 8-bit addition.
pub fn half_carry_add8(left: u8, right: i32) -> (carry: bool)
    ensures
        carry == nibble_carries(left as int, right as int),
{
    let low: u8 = #[verifier::truncate] (right as u8);
    assert((left & 0xF) + (low & 0xF) < 256 && (((left & 0xF) + (low & 0xF)) as u8 & 0x10 == 0x10
        <==> left % 16 + right % 16 >= 16)) by (bit_vector)
        requires
            low == right as u8,
    ;
    let sum: u8 = (left & 0xF) + (low & 0xF);
    sum & 0x10 == 0x10
}

/// Half-carry of a 16-bit addition.
pub fn half_carry_add16(left: u16, right: i32) -> (carry: bool)
    ensures
        carry == crumb_carries(left as int, right as int),
{
    let low: u16 = #[verifier::truncate] (right as u16);
    assert((left & 0xFFF) + (low & 0xFFF) < 65536 && (((left & 0xFFF) + (low & 0xFFF)) as u16
        & 0x1000 == 0x1000 <==> left % 4096 + right % 4096 >= 4096)) by (bit_vector)
        requires
            low == right as u16,
    ;
    let sum: u16 = (left & 0xFFF) + (low & 0xFFF);
    sum & 0x1000 == 0x1000
}

/// Half-carry of an 8-bit subtraction.
pub fn half_borrow8(left: u8, right: i32) -> (borrow: bool)
    ensures
        borrow == nibble_borrows(left as int, right as int),
{
    let low: u8 = #[verifier::truncate] (right as u8);
    assert((low & 0xF > left & 0xF) <==> right % 16 > left % 16) by (bit_vector)
        requires
            low == right as u8,
    ;
    low & 0xF > left & 0xF
}

/// Whether incrementing a byte carries out of its low nibble.
pub fn low_nibble_full(byte: u8) -> (full: bool)
    ensures
        full == (byte % 16 == 15),
{
    assert((byte & 0x0F) + 1 < 256 && (((byte & 0x0F) + 1) as u8 & 0x10 == 0x10 <==> byte % 16
        == 15)) by (bit_vector);
    let sum: u8 = (byte & 0x0F) + 1;
    sum & 0x10 == 0x10
}

/// Whether decrementing an 8-bit value borrows into its low nibble.
pub fn low_nibble_clear(value: i32) -> (clear: bool)
    ensures
        clear == (value % 16 == 0),
{
    let low: u8 = #[verifier::truncate] (value as u8);
    assert((low & 0x0F < 1) <==> value % 16 == 0) by (bit_vector)
        requires
            low == value as u8,
    ;
    low & 0x0F < 1
}

} // verus!
