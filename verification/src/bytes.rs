//! Packing two bytes into a little 16-bit word and back.
use vstd::prelude::*;

verus! {

/// The 16-bit word whose high byte is `hi` and low byte is `lo`.
#[verifier::opaque]
pub open spec fn word(hi: u8, lo: u8) -> u16 {
    (hi as int * 256 + lo as int) as u16
}

/// The high byte of a 16-bit word.
#[verifier::opaque]
pub open spec fn high_byte(w: u16) -> u8 {
    (w as int / 256) as u8
}

/// The low byte of a 16-bit word.
#[verifier::opaque]
pub open spec fn low_byte(w: u16) -> u8 {
    (w as int % 256) as u8
}

/// Bit-level facts about packing and unpacking bytes.
pub proof fn lemma_pack_unpack(hi: u8, lo: u8, w: u16)
    by (bit_vector)
    ensures
        ((hi as u16) << 8) | (lo as u16) == (hi as u16) * 256 + (lo as u16),
        (lo as u16) | ((hi as u16) << 8) == (hi as u16) * 256 + (lo as u16),
        ((w & 0xFF00) >> 8) as u8 == w / 256,
        (w & 0x00FF) as u8 == w % 256,
        (w >> 8) as u8 == w / 256,
        (w & 0xFF) as u8 == w % 256,
{
}

/// Splitting a word into bytes and joining them gives the word back.
pub proof fn lemma_word_roundtrip(w: u16)
    ensures
        word(high_byte(w), low_byte(w)) == w,
        high_byte(word(high_byte(w), low_byte(w))) == high_byte(w),
{
    reveal(word);
    reveal(high_byte);
    reveal(low_byte);
}

/// Joining two bytes and splitting the word gives the bytes back.
pub proof fn lemma_bytes_roundtrip(hi: u8, lo: u8)
    ensures
        high_byte(word(hi, lo)) == hi,
        low_byte(word(hi, lo)) == lo,
{
    reveal(word);
    reveal(high_byte);
    reveal(low_byte);
}

/// Bit-level facts about the shifts, masks and complement of a byte.
pub proof fn lemma_byte_ops(v: u8)
    by (bit_vector)
    ensures
        (v >> 1u8) | (v << 7u8) == (v / 2 + (v % 2) * 128) as u8,
        v << 1u8 == ((v * 2) % 256) as u8,
        v >> 1u8 == (v / 2) as u8,
        (v >> 1u8) | 0u8 == (v / 2) as u8,
        (v >> 1u8) | (v & 0x80u8) == (v / 2 + (v / 128) * 128) as u8,
        ((v & 0xF0u8) >> 4u8) | ((v & 0x0Fu8) << 4u8) == (v / 16 + (v % 16) * 16) as u8,
        v & 0x0Fu8 == (v % 16) as u8,
        (v & 0x80u8 == 0x80u8) == (v >= 128),
        (v & 0x1u8 == 0x1u8) == (v % 2 == 1),
        !v == (255 - v) as u8,
{
}

/// Bit-level facts about shifting a byte left.
pub proof fn lemma_rotate_left_ops(v: u8)
    by (bit_vector)
    ensures
        (v << 1u8) | (v >> 7u8) == ((v * 2) % 256 + v / 128) as u8,
        (v << 1u8) | 1u8 == ((v * 2) % 256 + 1) as u8,
{
}

/// Bit-level facts about filling shifted bytes.
pub proof fn lemma_shift_fill_ops(v: u8)
    by (bit_vector)
    ensures
        (v << 1u8) | 0u8 == ((v * 2) % 256) as u8,
        (v >> 1u8) | 0x80u8 == (v / 2 + 128) as u8,
{
}

/// The low nibble of a byte.
pub proof fn lemma_low_nibble(v: u8)
    ensures
        v & 0x0F == v % 16,
{
    lemma_byte_ops(v);
}

/// The top and bottom bits of a byte.
pub proof fn lemma_end_bits(v: u8)
    ensures
        (v & 0x80 == 0x80) == (v >= 128),
        (v & 0x1 == 0x1) == (v % 2 == 1),
{
    lemma_byte_ops(v);
}

/// XOR and OR with zero leave a byte unchanged.
pub proof fn lemma_zero_identities(v: u8)
    by (bit_vector)
    ensures
        v ^ 0u8 == v,
        v | 0u8 == v,
{
}

/// The address of a high-page access: 0xFF00 plus a byte offset.
pub proof fn lemma_high_page(v: u8)
    by (bit_vector)
    ensures
        0xFF00u16 | (v as u16) == (0xFF00 + v) as u16,
{
}

/// Sign extension of a byte to 16 bits, and its low bits.
pub proof fn lemma_sign_extend(v: u8)
    by (bit_vector)
    ensures
        v < 128 ==> (v as i8 as i16 as u16) == v as u16,
        v >= 128 ==> (v as i8 as i16 as u16) == (v as u16 + 0xFF00) as u16,
{
}

/// Bit-level facts about masks of 16-bit words.
pub proof fn lemma_word_masks(w: u16)
    by (bit_vector)
    ensures
        w & 0x07FF == w % 2048,
        w & 0x00FF == w % 256,
        w & 0x000F == w % 16,
{
}

/// The target of a relative jump: the program counter plus a signed byte, wrapped.
pub proof fn lemma_relative_jump(pc: u16, b: u8)
    by (bit_vector)
    ensures
        b < 128 ==> ((pc as u32) as i32 + (b as i8) as i32) as u16 == ((pc as u32 + b as u32)
            % 65536) as u16,
        b >= 128 ==> ((pc as u32) as i32 + (b as i8) as i32) as u16 == ((pc as u32 + b as u32
            + 0xFF00) % 65536) as u16,
{
}

} // verus!
