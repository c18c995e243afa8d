//! Bit-level facts that tie the engine's shifts, masks and casts to
//! arithmetic.

use vstd::prelude::*;
use crate::state::{high_byte, low_byte, signed, word, wrap16, wrap8};

verus! {

/// Joining two bytes with a shift and an OR gives the word they spell, and
/// masking and shifting a word gives its two bytes back.
pub proof fn lemma_word_bits(lo: u8, hi: u8, w: u16)
    by (bit_vector)
    ensures
        (lo as u16) | ((hi as u16) << 8) == word(lo, hi),
        (w & 0xff) as u8 == low_byte(w),
        (w >> 8) as u8 == high_byte(w),
{
}

/// Wrapping byte arithmetic is arithmetic modulo 256.
pub proof fn lemma_wrapping_u8(a: u8, b: u8)
    ensures
        a.wrapping_add(b) == wrap8(a + b),
        a.wrapping_sub(b) == wrap8(a - b),
{
}

/// Wrapping address arithmetic is arithmetic modulo 65536.
pub proof fn lemma_wrapping_u16(a: u16, b: u16)
    ensures
        a.wrapping_add(b) == wrap16(a + b),
        a.wrapping_sub(b) == wrap16(a - b),
{
}

/// Testing a bit of a byte with a mask, in arithmetic terms.
pub proof fn lemma_bit_tests(v: u8)
    by (bit_vector)
    ensures
        (v & 0x80 != 0) <==> v >= 0x80,
        (v & 0x40 != 0) <==> v / 0x40 % 2 == 1,
        (v & 0x01 != 0) <==> v % 2 == 1,
        !v == 0xFF - v,
{
}

/// Shifting and rotating a byte by one bit, in arithmetic terms; `c` is the
/// carry that a rotate brings in.
pub proof fn lemma_shift_bits(v: u8, c: u8)
    by (bit_vector)
    requires
        c <= 1,
    ensures
        v << 1 == wrap8(2 * v),
        v >> 1 == v / 2,
        (v << 1) | c == wrap8(2 * v + c),
        (v >> 1) | (c << 7) == v / 2 + 0x80 * c,
{
}

/// Adding two bytes and a carry in a wider register: the low byte is the sum
/// modulo 256, and the exclusive-OR test on the sign bits finds exactly the
/// sums that leave the signed range.
pub proof fn lemma_add_bits(a: u8, m: u8, c: u8)
    by (bit_vector)
    requires
        c <= 1,
    ensures
        (a as u16 + m as u16 + c as u16) as u8 == wrap8(a + m + c),
        ({
            let r = (a as u16 + m as u16 + c as u16) as u8;
            let s = signed(a) + signed(m) + c;
            ((r ^ m) & (r ^ a) & 0x80 != 0) <==> (s < -0x80 || s > 0x7F)
        }),
{
}

/// Reading a byte as a signed displacement and adding it to an address.
pub proof fn lemma_displacement_bits(pc: u16, offset: u8)
    by (bit_vector)
    ensures
        pc.wrapping_add(offset as i8 as u16) == wrap16(pc + signed(offset)),
{
}

} // verus!
