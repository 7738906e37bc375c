//! The registers of the Gameboy CPU: eight 8-bit registers, which can also be
//! used in pairs as 16-bit registers (AF, BC, DE, HL), the program counter and
//! the stack pointer.
use vstd::prelude::*;
use crate::bytes::{word, high_byte, low_byte, lemma_pack_unpack};
use crate::flags::{flag_z, flag_n, flag_h, flag_c, with_flags, lemma_flag_updates, lemma_flags_determine_byte};

verus! {

/// The register file of the CPU.
pub struct Registers {
    pub a: u8,
    pub b: u8,
    pub c: u8,
    pub d: u8,
    pub e: u8,
    pub h: u8,
    pub l: u8,
    /// Flags register
    pub f: u8,
    /// Program counter
    pub pc: u16,
    /// Stack pointer
    pub sp: u16,
}

impl Registers {
    /// All registers zero, the stack pointer at the top of high RAM.
    pub fn new() -> (r: Registers)
        ensures
            r == (Registers { a: 0, b: 0, c: 0, d: 0, e: 0, h: 0, l: 0, f: 0, pc: 0, sp: 0xFFFE }),
    {
        Registers { a: 0, b: 0, c: 0, d: 0, e: 0, h: 0, l: 0, f: 0, pc: 0, sp: 0xFFFE }
    }

    /// AF with A in the high byte and all of F in the low byte.
    pub fn get_af(&self) -> (r: u16)
        ensures
            r == word(self.a, self.f),
    {
        proof {
            reveal(word);
            reveal(high_byte);
            reveal(low_byte);
        }
        proof {
            lemma_pack_unpack(self.a, self.f, 0);
        }
        (self.a as u16) << 8 | (self.f as u16)
    }

    pub fn set_af(&mut self, af: u16)
        ensures
            *final(self) == (Registers { a: high_byte(af), f: low_byte(af), ..*old(self) }),
    {
        proof {
            reveal(word);
            reveal(high_byte);
            reveal(low_byte);
        }
        proof {
            lemma_pack_unpack(0, 0, af);
        }
        self.a = ((af & 0xFF00) >> 8) as u8;
        self.f = (af & 0x00FF) as u8;
    }

    pub fn get_bc(&self) -> (r: u16)
        ensures
            r == word(self.b, self.c),
    {
        proof {
            reveal(word);
            reveal(high_byte);
            reveal(low_byte);
        }
        proof {
            lemma_pack_unpack(self.b, self.c, 0);
        }
        (self.b as u16) << 8 | (self.c as u16)
    }

    pub fn set_bc(&mut self, bc: u16)
        ensures
            *final(self) == (Registers { b: high_byte(bc), c: low_byte(bc), ..*old(self) }),
    {
        proof {
            reveal(word);
            reveal(high_byte);
            reveal(low_byte);
        }
        proof {
            lemma_pack_unpack(0, 0, bc);
        }
        self.b = ((bc & 0xFF00) >> 8) as u8;
        self.c = (bc & 0x00FF) as u8;
    }

    pub fn get_de(&self) -> (r: u16)
        ensures
            r == word(self.d, self.e),
    {
        proof {
            reveal(word);
            reveal(high_byte);
            reveal(low_byte);
        }
        proof {
            lemma_pack_unpack(self.d, self.e, 0);
        }
        (self.d as u16) << 8 | (self.e as u16)
    }

    pub fn set_de(&mut self, de: u16)
        ensures
            *final(self) == (Registers { d: high_byte(de), e: low_byte(de), ..*old(self) }),
    {
        proof {
            reveal(word);
            reveal(high_byte);
            reveal(low_byte);
        }
        proof {
            lemma_pack_unpack(0, 0, de);
        }
        self.d = ((de & 0xFF00) >> 8) as u8;
        self.e = (de & 0x00FF) as u8;
    }

    pub fn get_hl(&self) -> (r: u16)
        ensures
            r == word(self.h, self.l),
    {
        proof {
            reveal(word);
            reveal(high_byte);
            reveal(low_byte);
        }
        proof {
            lemma_pack_unpack(self.h, self.l, 0);
        }
        (self.h as u16) << 8 | (self.l as u16)
    }

    pub fn set_hl(&mut self, hl: u16)
        ensures
            *final(self) == (Registers { h: high_byte(hl), l: low_byte(hl), ..*old(self) }),
    {
        proof {
            reveal(word);
            reveal(high_byte);
            reveal(low_byte);
        }
        proof {
            lemma_pack_unpack(0, 0, hl);
        }
        self.h = ((hl & 0xFF00) >> 8) as u8;
        self.l = (hl & 0x00FF) as u8;
    }

    pub fn set_carry_flag(&mut self, value: bool)
        ensures
            *final(self) == (Registers {
                f: if value { old(self).f | 0x10 } else { old(self).f & 0xEF },
                ..*old(self)
            }),
            flag_c(final(self).f) == value,
            flag_z(final(self).f) == flag_z(old(self).f),
            flag_n(final(self).f) == flag_n(old(self).f),
            flag_h(final(self).f) == flag_h(old(self).f),
            final(self).f & 0x0F == old(self).f & 0x0F,
    {
        proof {
            lemma_flag_updates(self.f);
        }
        self.f = if value {
            self.f | 0b00010000
        } else {
            self.f & 0b11101111
        };
    }

    pub fn set_halfcarry_flag(&mut self, value: bool)
        ensures
            *final(self) == (Registers {
                f: if value { old(self).f | 0x20 } else { old(self).f & 0xDF },
                ..*old(self)
            }),
            flag_h(final(self).f) == value,
            flag_z(final(self).f) == flag_z(old(self).f),
            flag_n(final(self).f) == flag_n(old(self).f),
            flag_c(final(self).f) == flag_c(old(self).f),
            final(self).f & 0x0F == old(self).f & 0x0F,
    {
        proof {
            lemma_flag_updates(self.f);
        }
        self.f = if value {
            self.f | 0b00100000
        } else {
            self.f & 0b11011111
        };
    }

    pub fn set_subtract_flag(&mut self, value: bool)
        ensures
            *final(self) == (Registers {
                f: if value { old(self).f | 0x40 } else { old(self).f & 0xBF },
                ..*old(self)
            }),
            flag_n(final(self).f) == value,
            flag_z(final(self).f) == flag_z(old(self).f),
            flag_h(final(self).f) == flag_h(old(self).f),
            flag_c(final(self).f) == flag_c(old(self).f),
            final(self).f & 0x0F == old(self).f & 0x0F,
    {
        proof {
            lemma_flag_updates(self.f);
        }
        self.f = if value {
            self.f | 0b01000000
        } else {
            self.f & 0b10111111
        };
    }

    pub fn set_zero_flag(&mut self, value: bool)
        ensures
            *final(self) == (Registers {
                f: if value { old(self).f | 0x80 } else { old(self).f & 0x7F },
                ..*old(self)
            }),
            flag_z(final(self).f) == value,
            flag_n(final(self).f) == flag_n(old(self).f),
            flag_h(final(self).f) == flag_h(old(self).f),
            flag_c(final(self).f) == flag_c(old(self).f),
            final(self).f & 0x0F == old(self).f & 0x0F,
    {
        proof {
            lemma_flag_updates(self.f);
        }
        self.f = if value {
            self.f | 0b10000000
        } else {
            self.f & 0b01111111
        };
    }

    /// Clear N, H and C, and set Z when `zero_val` is zero.
    pub fn reset_flags_and_set_zero(&mut self, zero_val: u8)
        ensures
            *final(self) == (Registers {
                f: with_flags(old(self).f, zero_val == 0, false, false, false),
                ..*old(self)
            }),
    {
        let ghost f0 = self.f;
        self.set_subtract_flag(false);
        self.set_halfcarry_flag(false);
        self.set_carry_flag(false);
        self.set_zero_flag(zero_val == 0);
        proof {
            lemma_flags_determine_byte(self.f, f0, zero_val == 0, false, false, false);
        }
    }

    pub fn get_carry_flag(&mut self) -> (r: bool)
        ensures
            r == flag_c(old(self).f),
            *final(self) == *old(self),
    {
        (self.f & 0b00010000) != 0
    }

    pub fn get_halfcarry_flag(&mut self) -> (r: bool)
        ensures
            r == flag_h(old(self).f),
            *final(self) == *old(self),
    {
        (self.f & 0b00100000) != 0
    }

    pub fn get_subtract_flag(&mut self) -> (r: bool)
        ensures
            r == flag_n(old(self).f),
            *final(self) == *old(self),
    {
        (self.f & 0b01000000) != 0
    }

    pub fn get_zero_flag(&mut self) -> (r: bool)
        ensures
            r == flag_z(old(self).f),
            *final(self) == *old(self),
    {
        (self.f & 0b10000000) != 0
    }
}

} // verus!
