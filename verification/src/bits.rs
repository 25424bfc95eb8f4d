//! Facts about bit operations on bytes and 16-bit words, proved once by
//! bit blasting and used wherever the code masks, shifts or splits.
use vstd::prelude::*;

verus! {

/// Masks, shifts and complements of a byte in arithmetic terms.
pub proof fn lemma_byte(v: u8)
    by (bit_vector)
    ensures
        (v & 0x80 == 0x80) == (v >= 128),
        (v & 0x80 != 0) == (v >= 128),
        (v & 0x01 != 0) == (v % 2 == 1),
        v < 128 ==> v << 1u8 == v * 2,
        v >= 128 ==> v << 1u8 == v * 2 - 256,
        v >> 1u8 == v / 2,
        v & 0x3F < 64,
        v & 0x07 <= 7,
        v & 0x07 == v % 8,
        v & 0x1E <= 0x1E,
        v & 0x0F <= 0x0F,
        v ^ 0xFF == 255 - v,
        (v | 0x80) & 0x80 != 0,
        v >> 0u8 == v,
{
}

/// Masks, shifts and byte splits of a 16-bit word in arithmetic terms.
pub proof fn lemma_word16(a: u16)
    by (bit_vector)
    ensures
        a & 0x07FF == a % 2048,
        a & 0x001F == a % 32,
        a & 0x3FFF == a % 0x4000,
        a & 0x0FFF == a % 0x1000,
        ((a & 0x00FF) == 0x00FF) == (a % 256 == 0xFF),
        a % 256 == 0xFF ==> a & 0xFF00 == a - 0xFF,
        a & 0x001F != 31 ==> a < 0xFFFF,
        a & 0x7000 != 0x7000 ==> a + 0x1000 <= 0xFFFF,
        (((a >> 4u16) & 0x04) | (a & 0x02)) <= 6,
        (a >> 12u16) & 0x07 <= 7,
        (a & 0x03E0) >> 5u16 <= 31,
        0x2000 <= a <= 0x3EFF ==> a & 0x2FFF >= 0x2000,
        0x2000 <= a <= 0x2FFF ==> a & 0x3FFF == a && a & 0x2FFF == a,
        0x3F00 <= a <= 0x3FFF ==> a & 0x3FFF == a,
        (a >> 8u16) as u8 == a / 256,
        a as u8 == a % 256,
        a <= 0xFF ==> (a << 4u16 == a * 16 && a * 16 <= 0xFF0),
{
}

/// One bit of a word is 0 or 1.
pub proof fn lemma_bit_of(x: u16, s: u16)
    by (bit_vector)
    ensures
        (x >> s) & 1 <= 1,
{
}

/// Two bits make a number below 4.
pub proof fn lemma_two_bits(b0: u8, b1: u8)
    by (bit_vector)
    requires
        b0 <= 1,
        b1 <= 1,
    ensures
        ((b1 << 1u8) | b0) <= 3,
{
}

/// Rotations through the carry in arithmetic terms.
pub proof fn lemma_rotate(v: u8, c: u8)
    by (bit_vector)
    requires
        c <= 1,
    ensures
        v < 128 ==> ((v << 1u8) | c) == v * 2 + c,
        v >= 128 ==> ((v << 1u8) | c) == v * 2 + c - 256,
        ((v >> 1u8) | (c << 7u8)) == v / 2 + c * 128,
{
}

/// Shifting one more bit into a register that holds only its low `c`
/// bits leaves it holding only its low `c + 1` bits.
pub proof fn lemma_shift_in(sr: u8, c: u8, b: u8)
    by (bit_vector)
    requires
        c < 5,
        sr >> c == 0,
    ensures
        ((sr | ((b & 1) << c)) >> ((c + 1) as u8)) == 0,
{
}

/// A left rotation through the carry as arithmetic modulo 256, with the bit
/// that leaves.
pub proof fn lemma_rotate_left(v: u8, c: u8)
    requires
        c <= 1,
    ensures
        ((v & 0x80) != 0) == (v >= 128),
        ((v << 1u8) | c) == (v as int * 2 + c) % 256,
        v << 1u8 == (v as int * 2) % 256,
{
    lemma_byte(v);
    lemma_rotate(v, c);
}

} // verus!
