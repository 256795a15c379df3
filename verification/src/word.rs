//! Bytes and words: how a sixteen-bit word splits into two bytes, and the
//! bitwise identities that the register file and the memory rest on.

use vstd::prelude::*;

verus! {

/// The low byte of a word.
pub open spec fn low_byte(w: u16) -> u8 {
    (w % 256) as u8
}

/// The high byte of a word.
pub open spec fn high_byte(w: u16) -> u8 {
    (w / 256) as u8
}

/// The word with the given low and high bytes.
pub open spec fn make_word(low: u8, high: u8) -> u16 {
    (high * 256 + low) as u16
}

/// A word with its low byte replaced by the low byte of `v`.
pub open spec fn with_low_byte(w: u16, v: u16) -> u16 {
    make_word(low_byte(v), high_byte(w))
}

/// A word with its high byte replaced by the low byte of `v`.
pub open spec fn with_high_byte(w: u16, v: u16) -> u16 {
    make_word(low_byte(w), low_byte(v))
}

/// Masking and shifting a word select its bytes.
pub proof fn lemma_split_word(w: u16)
    ensures
        w & 0x00FF == low_byte(w),
        (w & 0xFF00) >> 8 == high_byte(w),
        w >> 8 == high_byte(w),
        w == make_word(low_byte(w), high_byte(w)),
{
    assert(w & 0x00FF == w % 256 && (w & 0xFF00) >> 8 == w / 256 && w >> 8 == w / 256)
        by (bit_vector);
}

/// Shifting the high byte up and or-ing the low byte in joins two bytes
/// into their word.
pub proof fn lemma_join_bytes(low: u8, high: u8)
    ensures
        ((high as u16) << 8) | (low as u16) == make_word(low, high),
        (low as u16) | ((high as u16) << 8) == make_word(low, high),
        low_byte(make_word(low, high)) == low,
        high_byte(make_word(low, high)) == high,
{
    assert(((high as u16) << 8) | (low as u16) == high * 256 + low && (low as u16) | ((high as u16)
        << 8) == high * 256 + low) by (bit_vector);
}

/// The mask-and-merge that writes one byte of a word keeps the other.
pub proof fn lemma_merge_byte(w: u16, v: u16)
    ensures
        (w & 0xFF00) | (v & 0x00FF) == with_low_byte(w, v),
        (w & 0x00FF) | ((v & 0x00FF) << 8) == with_high_byte(w, v),
{
    assert((w & 0xFF00) | (v & 0x00FF) == (w / 256) * 256 + v % 256 && (w & 0x00FF) | ((v
        & 0x00FF) << 8) == (v % 256) * 256 + w % 256) by (bit_vector);
}

/// The bit fields of a byte, read by mask and shift, are its quotients and
/// remainders by powers of two.
pub proof fn lemma_byte_fields(b: u8)
    ensures
        b >> 6 == b / 64,
        (b & 0b0011_1000) >> 3 == (b / 8) % 8,
        b & 0b0000_0111 == b % 8,
        (b & 0b0000_0001 == 0) == (b % 2 == 0),
        (b & 0b0000_0010 == 0) == ((b / 2) % 2 == 0),
        (b & 0b0000_1000 == 0) == ((b / 8) % 2 == 0),
        (b & 0b0011_1000 == 0b0011_0000) == ((b / 8) % 8 == 6),
{
    assert(b >> 6 == b / 64 && (b & 0b0011_1000) >> 3 == (b / 8) % 8 && b & 0b0000_0111 == b % 8
        && (b & 0b0000_0001 == 0) == (b % 2 == 0) && (b & 0b0000_0010 == 0) == ((b / 2) % 2 == 0)
        && (b & 0b0000_1000 == 0) == ((b / 8) % 2 == 0) && (b & 0b0011_1000 == 0b0011_0000) == ((b
        / 8) % 8 == 6)) by (bit_vector);
}

/// A byte read as a signed eight-bit number, in two's complement.
pub open spec fn signed_byte(b: u8) -> i8 {
    if b < 128 {
        b as i8
    } else {
        (b - 256) as i8
    }
}

/// A word read as a signed sixteen-bit number, in two's complement.
pub open spec fn signed_word(w: u16) -> i16 {
    if w < 32768 {
        w as i16
    } else {
        (w - 65536) as i16
    }
}

/// The sum of a word and a signed offset, modulo 2^16.
pub open spec fn wrapping_offset(w: u16, offset: int) -> u16 {
    ((w + offset) % 65536) as u16
}

/// Casting to the signed type of the same width reads the bits in two's
/// complement.
pub proof fn lemma_signed_casts(b: u8, w: u16)
    ensures
        b as i8 == signed_byte(b),
        w as i16 == signed_word(w),
{
    assert(b as i8 == (if b < 128 {
        b as int
    } else {
        b - 256
    })) by (bit_vector);
    assert(w as i16 == (if w < 32768 {
        w as int
    } else {
        w - 65536
    })) by (bit_vector);
}

} // verus!
