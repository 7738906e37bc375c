//! The interrupt registers IE (0xFFFF) and IF (0xFF0F), and the interrupt
//! master enable switch IME with its delayed EI/DI requests.
use vstd::prelude::*;
use crate::bytes::lemma_zero_identities;

verus! {

/// The interrupt sources, from highest to lowest priority.
#[derive(Copy, Clone, PartialEq, Eq, Debug, Structural)]
pub enum InterruptTypes {
    VBlank,
    Stat,
    Timer,
    Serial,
    Joypad,
    NoInterrupt,
}

/// The bit of an interrupt source in IF and IE.
pub open spec fn interrupt_bit(t: InterruptTypes) -> u8 {
    match t {
        InterruptTypes::VBlank => 0b0000_0001,
        InterruptTypes::Stat => 0b0000_0010,
        InterruptTypes::Timer => 0b0000_0100,
        InterruptTypes::Serial => 0b0000_1000,
        InterruptTypes::Joypad => 0b0001_0000,
        InterruptTypes::NoInterrupt => 0,
    }
}

/// The interrupt of highest priority among the bits of a combined flag.
pub open spec fn spec_highest_priority(iflag: u8) -> InterruptTypes {
    if iflag & 0b0000_0001 != 0 {
        InterruptTypes::VBlank
    } else if iflag & 0b0000_0010 != 0 {
        InterruptTypes::Stat
    } else if iflag & 0b0000_0100 != 0 {
        InterruptTypes::Timer
    } else if iflag & 0b0000_1000 != 0 {
        InterruptTypes::Serial
    } else if iflag & 0b0001_0000 != 0 {
        InterruptTypes::Joypad
    } else {
        InterruptTypes::NoInterrupt
    }
}

/// The interrupt registers.
pub struct InterruptHandler {
    /// IE, 0xFFFF, user controlled
    pub interrupt_enable: u8,
    /// IF, 0xFF0F, hardware controlled
    pub interrupt_flag: u8,
    /// IME, master toggle
    pub interrupt_master_enable: bool,
    pub ei_requested: bool,
    pub di_requested: bool,
}

impl InterruptHandler {
    pub fn new() -> (h: InterruptHandler)
        ensures
            h == (InterruptHandler {
                interrupt_enable: 0,
                interrupt_flag: 0,
                interrupt_master_enable: false,
                ei_requested: false,
                di_requested: false,
            }),
    {
        InterruptHandler {
            interrupt_enable: 0,
            interrupt_flag: 0,
            interrupt_master_enable: false,
            ei_requested: false,
            di_requested: false,
        }
    }

    /// IF & IE, restricted to the five interrupt bits.
    pub open spec fn spec_combined_flag(&self) -> u8 {
        self.interrupt_enable & self.interrupt_flag & 0b0001_1111
    }

    pub fn is_interrupt_pending(&self) -> (r: bool)
        ensures
            r == (self.interrupt_master_enable && self.spec_combined_flag() > 0),
    {
        return self.interrupt_master_enable && (self.get_combined_interrupt_flag() > 0);
    }

    pub fn get_combined_interrupt_flag(&self) -> (r: u8)
        ensures
            r == self.spec_combined_flag(),
    {
        return self.interrupt_enable & self.interrupt_flag & 0b0001_1111;
    }

    pub fn get_highest_priority_interrupt(&self) -> (r: InterruptTypes)
        ensures
            r == spec_highest_priority(self.spec_combined_flag()),
    {
        let iflag = self.get_combined_interrupt_flag();
        if iflag & 0b0000_0001 != 0 {
            return InterruptTypes::VBlank;
        } else if iflag & 0b0000_0010 != 0 {
            return InterruptTypes::Stat;
        } else if iflag & 0b0000_0100 != 0 {
            return InterruptTypes::Timer;
        } else if iflag & 0b0000_1000 != 0 {
            return InterruptTypes::Serial;
        } else if iflag & 0b0001_0000 != 0 {
            return InterruptTypes::Joypad;
        } else {
            return InterruptTypes::NoInterrupt;
        }
    }

    /// Toggle the IF bit of an interrupt source (it is expected to be set).
    pub fn clear_interrupt(&mut self, interrupt_type: InterruptTypes)
        ensures
            *final(self) == (InterruptHandler {
                interrupt_flag: old(self).interrupt_flag ^ interrupt_bit(interrupt_type),
                ..*old(self)
            }),
    {
        match interrupt_type {
            InterruptTypes::VBlank => { self.interrupt_flag = self.interrupt_flag ^ 0b0000_0001 },
            InterruptTypes::Stat => { self.interrupt_flag = self.interrupt_flag ^ 0b0000_0010 },
            InterruptTypes::Timer => { self.interrupt_flag = self.interrupt_flag ^ 0b0000_0100 },
            InterruptTypes::Serial => { self.interrupt_flag = self.interrupt_flag ^ 0b0000_1000 },
            InterruptTypes::Joypad => { self.interrupt_flag = self.interrupt_flag ^ 0b0001_0000 },
            _ => {
                proof { lemma_zero_identities(self.interrupt_flag); }
            },
        }
    }

    /// Request an interrupt by setting its IF bit.
    pub fn trigger_interrupt(&mut self, interrupt_type: InterruptTypes)
        ensures
            *final(self) == (InterruptHandler {
                interrupt_flag: old(self).interrupt_flag | interrupt_bit(interrupt_type),
                ..*old(self)
            }),
    {
        match interrupt_type {
            InterruptTypes::VBlank => { self.interrupt_flag = self.interrupt_flag | 0b0000_0001 },
            InterruptTypes::Stat => { self.interrupt_flag = self.interrupt_flag | 0b0000_0010 },
            InterruptTypes::Timer => { self.interrupt_flag = self.interrupt_flag | 0b0000_0100 },
            InterruptTypes::Serial => { self.interrupt_flag = self.interrupt_flag | 0b0000_1000 },
            InterruptTypes::Joypad => { self.interrupt_flag = self.interrupt_flag | 0b0001_0000 },
            _ => {
                proof { lemma_zero_identities(self.interrupt_flag); }
            },
        }
    }

    /// Apply a pending EI or DI request to IME. An EI request wins over a DI request.
    pub fn update_ime(&mut self)
        ensures
            *final(self) == (if old(self).ei_requested {
                InterruptHandler {
                    interrupt_master_enable: true,
                    ei_requested: false,
                    ..*old(self)
                }
            } else if old(self).di_requested {
                InterruptHandler {
                    interrupt_master_enable: false,
                    di_requested: false,
                    ..*old(self)
                }
            } else {
                *old(self)
            }),
    {
        if self.ei_requested {
            self.interrupt_master_enable = true;
            self.ei_requested = false;
        } else if self.di_requested {
            self.interrupt_master_enable = false;
            self.di_requested = false;
        }
    }

    pub fn request_ei(&mut self)
        ensures
            *final(self) == (InterruptHandler { ei_requested: true, ..*old(self) }),
    {
        self.ei_requested = true;
    }

    pub fn request_di(&mut self)
        ensures
            *final(self) == (InterruptHandler { di_requested: true, ..*old(self) }),
    {
        self.di_requested = true;
    }
}

/// Requesting an interrupt that was not pending and then clearing it leaves IF
/// as it was.
pub proof fn lemma_trigger_then_clear(h: InterruptHandler, t: InterruptTypes)
    requires
        h.interrupt_flag & interrupt_bit(t) == 0,
    ensures
        (h.interrupt_flag | interrupt_bit(t)) ^ interrupt_bit(t) == h.interrupt_flag,
{
    let f = h.interrupt_flag;
    let b = interrupt_bit(t);
    assert((f | b) ^ b == f) by (bit_vector)
        requires
            f & b == 0,
    ;
}

/// The interrupt picked from a combined flag is the pending one with the
/// lowest bit: it is pending, and no interrupt of a lower bit is; and none is
/// picked exactly when none of the five bits is set.
pub proof fn lemma_highest_priority_is_lowest_bit(f: u8)
    ensures
        (spec_highest_priority(f) == InterruptTypes::NoInterrupt) <==> f & 0x1F == 0,
        spec_highest_priority(f) == InterruptTypes::VBlank ==> f & 0x01 != 0,
        spec_highest_priority(f) == InterruptTypes::Stat ==> f & 0x02 != 0 && f & 0x01 == 0,
        spec_highest_priority(f) == InterruptTypes::Timer ==> f & 0x04 != 0 && f & 0x03 == 0,
        spec_highest_priority(f) == InterruptTypes::Serial ==> f & 0x08 != 0 && f & 0x07 == 0,
        spec_highest_priority(f) == InterruptTypes::Joypad ==> f & 0x10 != 0 && f & 0x0F == 0,
{
    assert((f & 0x01 == 0 && f & 0x02 == 0 ==> f & 0x03 == 0) && (f & 0x03 == 0 && f & 0x04 == 0 ==> f & 0x07
        == 0) && (f & 0x07 == 0 && f & 0x08 == 0 ==> f & 0x0F == 0) && (f & 0x0F == 0 && f & 0x10 == 0 ==> f
        & 0x1F == 0) && (f & 0x1F == 0 ==> f & 0x01 == 0 && f & 0x02 == 0 && f & 0x04 == 0 && f & 0x08 == 0 && f
        & 0x10 == 0)) by (bit_vector);
}

} // verus!
