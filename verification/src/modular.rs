use vstd::prelude::*;

verus! {

/// `a + b` in 8-bit two's complement (what `u8::wrapping_add` computes).
pub open spec fn wadd8(a: u8, b: u8) -> u8 {
    if a + b > 0xFF {
        (a + b - 0x100) as u8
    } else {
        (a + b) as u8
    }
}

/// `a - b` in 8-bit two's complement (what `u8::wrapping_sub` computes).
pub open spec fn wsub8(a: u8, b: u8) -> u8 {
    if a - b < 0 {
        (a - b + 0x100) as u8
    } else {
        (a - b) as u8
    }
}

/// `a + b` modulo 2^16 (what `u16::wrapping_add` computes).
pub open spec fn wadd16(a: u16, b: u16) -> u16 {
    if a + b > 0xFFFF {
        (a + b - 0x10000) as u16
    } else {
        (a + b) as u16
    }
}

/// `a - b` modulo 2^16 (what `u16::wrapping_sub` computes).
pub open spec fn wsub16(a: u16, b: u16) -> u16 {
    if a - b < 0 {
        (a - b + 0x10000) as u16
    } else {
        (a - b) as u16
    }
}

/// The 16-bit word with high byte `hi` and low byte `lo`.
pub open spec fn word(lo: u8, hi: u8) -> u16 {
    (hi as int * 256 + lo as int) as u16
}

/// `(hi << 8) | lo` is the little-endian word of the two bytes.
pub proof fn lemma_word(lo: u8, hi: u8)
    ensures
        ((hi as u16) << 8u16) | (lo as u16) == word(lo, hi),
{
    let w = ((hi as u16) << 8u16) | (lo as u16);
    assert(w == hi as u16 * 256 + lo as u16) by (bit_vector)
        requires
            w == ((hi as u16) << 8u16) | (lo as u16),
    ;
}

} // verus!
