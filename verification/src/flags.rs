//! The layout of the flag register F of the Gameboy CPU.
//!
//! Bit 7 is the zero flag Z, bit 6 the subtract flag N, bit 5 the
//! half-carry flag H and bit 4 the carry flag C. Bits 3..0 are not flags.
use vstd::prelude::*;

verus! {

/// The zero flag (bit 7) of a flag byte.
pub open spec fn flag_z(f: u8) -> bool {
    f & 0x80 != 0
}

/// The subtract flag (bit 6) of a flag byte.
pub open spec fn flag_n(f: u8) -> bool {
    f & 0x40 != 0
}

/// The half-carry flag (bit 5) of a flag byte.
pub open spec fn flag_h(f: u8) -> bool {
    f & 0x20 != 0
}

/// The carry flag (bit 4) of a flag byte.
pub open spec fn flag_c(f: u8) -> bool {
    f & 0x10 != 0
}

/// The flag byte that keeps the low nibble of `f` and holds the given four flags.
pub open spec fn with_flags(f: u8, z: bool, n: bool, h: bool, c: bool) -> u8 {
    ((f & 0x0F) | (if z { 0x80u8 } else { 0u8 }) | (if n { 0x40u8 } else { 0u8 }) | (if h {
        0x20u8
    } else {
        0u8
    }) | (if c { 0x10u8 } else { 0u8 })) as u8
}

/// A flag byte is determined by its four flags and its low nibble.
pub proof fn lemma_flags_determine_byte(x: u8, f: u8, z: bool, n: bool, h: bool, c: bool)
    by (bit_vector)
    requires
        flag_z(x) == z,
        flag_n(x) == n,
        flag_h(x) == h,
        flag_c(x) == c,
        x & 0x0F == f & 0x0F,
    ensures
        x == with_flags(f, z, n, h, c),
{
}

/// Reading the flags back from a byte built with `with_flags`.
pub proof fn lemma_with_flags_reads(f: u8, z: bool, n: bool, h: bool, c: bool)
    by (bit_vector)
    ensures
        flag_z(with_flags(f, z, n, h, c)) == z,
        flag_n(with_flags(f, z, n, h, c)) == n,
        flag_h(with_flags(f, z, n, h, c)) == h,
        flag_c(with_flags(f, z, n, h, c)) == c,
        with_flags(f, z, n, h, c) & 0x0F == f & 0x0F,
{
}

/// Setting or clearing one flag bit leaves the other flags and the low nibble alone.
pub proof fn lemma_flag_updates(f: u8)
    by (bit_vector)
    ensures
        flag_z(f | 0x80),
        !flag_z(f & 0x7F),
        flag_n(f | 0x80) == flag_n(f) && flag_h(f | 0x80) == flag_h(f) && flag_c(f | 0x80) == flag_c(f)
            && (f | 0x80) & 0x0F == f & 0x0F,
        flag_n(f & 0x7F) == flag_n(f) && flag_h(f & 0x7F) == flag_h(f) && flag_c(f & 0x7F) == flag_c(f)
            && (f & 0x7F) & 0x0F == f & 0x0F,
        flag_n(f | 0x40),
        !flag_n(f & 0xBF),
        flag_z(f | 0x40) == flag_z(f) && flag_h(f | 0x40) == flag_h(f) && flag_c(f | 0x40) == flag_c(f)
            && (f | 0x40) & 0x0F == f & 0x0F,
        flag_z(f & 0xBF) == flag_z(f) && flag_h(f & 0xBF) == flag_h(f) && flag_c(f & 0xBF) == flag_c(f)
            && (f & 0xBF) & 0x0F == f & 0x0F,
        flag_h(f | 0x20),
        !flag_h(f & 0xDF),
        flag_z(f | 0x20) == flag_z(f) && flag_n(f | 0x20) == flag_n(f) && flag_c(f | 0x20) == flag_c(f)
            && (f | 0x20) & 0x0F == f & 0x0F,
        flag_z(f & 0xDF) == flag_z(f) && flag_n(f & 0xDF) == flag_n(f) && flag_c(f & 0xDF) == flag_c(f)
            && (f & 0xDF) & 0x0F == f & 0x0F,
        flag_c(f | 0x10),
        !flag_c(f & 0xEF),
        flag_z(f | 0x10) == flag_z(f) && flag_n(f | 0x10) == flag_n(f) && flag_h(f | 0x10) == flag_h(f)
            && (f | 0x10) & 0x0F == f & 0x0F,
        flag_z(f & 0xEF) == flag_z(f) && flag_n(f & 0xEF) == flag_n(f) && flag_h(f & 0xEF) == flag_h(f)
            && (f & 0xEF) & 0x0F == f & 0x0F,
{
}

/// Clearing the zero flag keeps the other flags and the low nibble.
pub proof fn lemma_clear_zero(f: u8)
    ensures
        f & 0x7F == with_flags(f, false, flag_n(f), flag_h(f), flag_c(f)),
{
    lemma_flag_updates(f);
    lemma_flags_determine_byte(f & 0x7F, f, false, flag_n(f), flag_h(f), flag_c(f));
}

} // verus!
