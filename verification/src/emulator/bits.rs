//! Arithmetic readings of the bit operations the interpreter performs.
//!
//! The machine model speaks of bytes and words as numbers (`% 256`, `/ 256`,
//! sums of weighted bytes); the executable code masks and shifts. The lemmas
//! here connect the two, each proved by bit blasting.
use vstd::prelude::*;

verus! {

/// The value of `x` reduced into the 32-bit range, as the processor keeps it.
pub open spec fn wrap32(x: int) -> u32 {
    (x % 0x1_0000_0000) as u32
}

/// The two's-complement value of a byte.
pub open spec fn signed8(b: u8) -> int {
    if b < 0x80 {
        b as int
    } else {
        b - 0x100
    }
}

/// The two's-complement value of a 32-bit word.
pub open spec fn signed32(v: u32) -> int {
    if v < 0x8000_0000 {
        v as int
    } else {
        v - 0x1_0000_0000
    }
}

/// The word whose little-endian bytes are `b0` (least significant) to `b3`.
pub open spec fn le32(b0: u8, b1: u8, b2: u8, b3: u8) -> u32 {
    (b0 + 0x100 * b1 + 0x1_0000 * b2 + 0x100_0000 * b3) as u32
}

/// Byte `i` of `v`, counted from the least significant one.
pub open spec fn byte_of(v: u32, i: int) -> u8 {
    if i == 0 {
        (v % 0x100) as u8
    } else if i == 1 {
        (v / 0x100 % 0x100) as u8
    } else if i == 2 {
        (v / 0x1_0000 % 0x100) as u8
    } else {
        (v / 0x100_0000 % 0x100) as u8
    }
}

/// `r` with its lowest byte replaced by `v`.
pub open spec fn with_low_byte(r: u32, v: u8) -> u32 {
    (r - r % 0x100 + v) as u32
}

/// `r` with its second-lowest byte replaced by `v`.
pub open spec fn with_high_byte(r: u32, v: u8) -> u32 {
    (r - (r / 0x100 % 0x100) * 0x100 + v * 0x100) as u32
}

/// A byte as a word of the same value.
pub open spec fn zero_extend8(b: u8) -> u32 {
    b as u32
}

/// A byte as the word of the same two's-complement value.
pub open spec fn sign_extend8(b: u8) -> u32 {
    wrap32(signed8(b))
}

/// The register that a one-byte opcode names in its low three bits: the
/// opcode minus the first opcode of its group of eight.
pub open spec fn opcode_register(code: u8) -> int {
    (code % 8) as int
}

/// The bytes of a word, read by shift and mask.
pub proof fn lemma_bytes_of_word(v: u32)
    by (bit_vector)
    ensures
        (v & 0xFF) == v % 0x100,
        ((v >> 8) & 0xFF) == v / 0x100 % 0x100,
        ((v >> 16) & 0xFF) == v / 0x1_0000 % 0x100,
        ((v >> 24) & 0xFF) == v / 0x100_0000 % 0x100,
        (v & 0xFF) < 0x100,
        ((v >> 8) & 0xFF) < 0x100,
        ((v >> 16) & 0xFF) < 0x100,
        ((v >> 24) & 0xFF) < 0x100,
{
}

/// A word put together from its bytes by shift and or.
pub proof fn lemma_word_of_bytes(b0: u8, b1: u8, b2: u8, b3: u8)
    by (bit_vector)
    ensures
        ((b0 as u32) | ((b1 as u32) << 8) | ((b2 as u32) << 16) | ((b3 as u32) << 24)) == b0
            + 0x100 * b1 + 0x1_0000 * b2 + 0x100_0000 * b3,
{
}

/// The lowest byte of a word replaced by mask and or.
pub proof fn lemma_low_byte(r: u32, v: u8)
    by (bit_vector)
    ensures
        ((r & 0xFFFF_FF00) | (v as u32)) == r - r % 0x100 + v,
{
}

/// The second-lowest byte of a word replaced by mask and or.
pub proof fn lemma_high_byte(r: u32, v: u8)
    by (bit_vector)
    ensures
        ((r & 0xFFFF_00FF) | ((v as u32) << 8)) == r - (r / 0x100 % 0x100) * 0x100 + v * 0x100,
{
}

/// A byte cast to a signed byte and on to a word keeps its two's-complement
/// value.
pub proof fn lemma_sign_extend8(b: u8)
    by (bit_vector)
    ensures
        b < 0x80 ==> (b as i8) as u32 == b,
        b >= 0x80 ==> (b as i8) as u32 == b + 0xFFFF_FF00,
        b < 0x80 ==> (b as i8) == b,
        b >= 0x80 ==> (b as i8) == b - 0x100,
{
}

/// A word cast to a signed word keeps its two's-complement value.
pub proof fn lemma_signed32(v: u32)
    by (bit_vector)
    ensures
        v < 0x8000_0000 ==> (v as i32) == v,
        v >= 0x8000_0000 ==> (v as i32) == v - 0x1_0000_0000,
{
}

/// The low 16 bits of a word, read by mask.
pub proof fn lemma_low_word(v: u32)
    by (bit_vector)
    ensures
        (v & 0xFFFF) == v % 0x1_0000,
        (v & 0xFFFF) < 0x1_0000,
{
}

/// The low three bits of a byte, read by mask.
pub proof fn lemma_low_bits(code: u8)
    by (bit_vector)
    ensures
        (code & 0x07) == code % 8,
{
}

/// Widens a byte to a word.
pub fn widen8(b: u8) -> (r: u32)
    ensures
        r == zero_extend8(b),
{
    b as u32
}

/// Widens a signed byte to a word, keeping its two's-complement value.
pub fn extend8(b: i8) -> (r: u32)
    ensures
        b >= 0 ==> r == b,
        b < 0 ==> r == b + 0x1_0000_0000,
{
    0u32.wrapping_add_signed(b as i32)
}

/// The address `len` bytes and a signed displacement away from `eip`, within
/// 32 bits.
pub fn displaced(eip: u32, diff: i32, len: u32) -> (r: u32)
    requires
        len <= 16,
    ensures
        r == wrap32(eip + diff + len),
{
    eip.wrapping_add_signed(diff).wrapping_add(len)
}

/// The 64-bit difference of two words, wrapping below zero.
pub fn wide_difference(v1: u32, v2: u32) -> (r: u64)
    ensures
        v1 >= v2 ==> r == v1 - v2,
        v1 < v2 ==> r == v1 - v2 + 0x1_0000_0000_0000_0000,
{
    (v1 as u64).wrapping_sub(v2 as u64)
}

} // verus!
