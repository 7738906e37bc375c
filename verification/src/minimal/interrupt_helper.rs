//! Interrupt bookkeeping for the minimal machine, on the registers IF (0xFF0F)
//! and IE (0xFFFF) in memory.
use vstd::prelude::*;
use crate::bytes::lemma_zero_identities;
use crate::minimal::memory::{Memory, MemoryView};

verus! {

/// The interrupt sources, from highest to lowest priority.
#[derive(Copy, Clone, PartialEq, Eq, Debug, Structural)]
pub enum InterruptTypes {
    VBlank,
    Stat,
    Timer,
    Serial,
    Joypad,
    NoInterrupt,
}

/// The bit of an interrupt source in IF and IE.
pub open spec fn interrupt_bit(t: InterruptTypes) -> u8 {
    match t {
        InterruptTypes::VBlank => 0b0000_0001,
        InterruptTypes::Stat => 0b0000_0010,
        InterruptTypes::Timer => 0b0000_0100,
        InterruptTypes::Serial => 0b0000_1000,
        InterruptTypes::Joypad => 0b0001_0000,
        InterruptTypes::NoInterrupt => 0,
    }
}

/// The requested and enabled interrupt of highest priority in a combined flag.
pub open spec fn spec_highest_priority(iflag: u8) -> InterruptTypes {
    if iflag & 0b0000_0001 != 0 {
        InterruptTypes::VBlank
    } else if iflag & 0b0000_0010 != 0 {
        InterruptTypes::Stat
    } else if iflag & 0b0000_0100 != 0 {
        InterruptTypes::Timer
    } else if iflag & 0b0000_1000 != 0 {
        InterruptTypes::Serial
    } else if iflag & 0b0001_0000 != 0 {
        InterruptTypes::Joypad
    } else {
        InterruptTypes::NoInterrupt
    }
}

/// IF & IE, restricted to the five interrupt bits.
pub open spec fn spec_combined_flag(m: MemoryView) -> u8 {
    m.interrupt_flag & m.read(0xFF0F) & 0b0001_1111
}

/// Stateless helper for the interrupt registers.
pub struct InterruptHelper;

impl InterruptHelper {
    pub fn is_interrupt_pending(memory: &Memory) -> (r: bool)
        ensures
            r == (memory@.interrupt_master_enable && spec_combined_flag(memory@) > 0),
    {
        return memory.interrupt_master_enable && (Self::get_combined_interrupt_flag(memory) > 0);
    }

    pub fn get_combined_interrupt_flag(memory: &Memory) -> (r: u8)
        ensures
            r == spec_combined_flag(memory@),
    {
        return memory.interrupt_flag & Self::get_if(memory) & 0b0001_1111;
    }

    pub fn get_highest_priority_interrupt(memory: &Memory) -> (r: InterruptTypes)
        ensures
            r == spec_highest_priority(spec_combined_flag(memory@)),
    {
        let iflag = Self::get_combined_interrupt_flag(memory);
        if iflag & 0b0000_0001 != 0 {
            return InterruptTypes::VBlank;
        } else if iflag & 0b0000_0010 != 0 {
            return InterruptTypes::Stat;
        } else if iflag & 0b0000_0100 != 0 {
            return InterruptTypes::Timer;
        } else if iflag & 0b0000_1000 != 0 {
            return InterruptTypes::Serial;
        } else if iflag & 0b0001_0000 != 0 {
            return InterruptTypes::Joypad;
        } else {
            return InterruptTypes::NoInterrupt;
        }
    }

    /// Toggle the IF bit of an interrupt source off (it is expected to be set).
    pub fn clear_interrupt(memory: &mut Memory, interrupt_type: InterruptTypes)
        ensures
            final(memory)@ == old(memory)@.write(
                0xFF0F,
                old(memory)@.read(0xFF0F) ^ interrupt_bit(interrupt_type),
            ),
    {
        let mut interrupt_flag = Self::get_if(memory);
        match interrupt_type {
            InterruptTypes::VBlank => { interrupt_flag = interrupt_flag ^ 0b0000_0001 },
            InterruptTypes::Stat => { interrupt_flag = interrupt_flag ^ 0b0000_0010 },
            InterruptTypes::Timer => { interrupt_flag = interrupt_flag ^ 0b0000_0100 },
            InterruptTypes::Serial => { interrupt_flag = interrupt_flag ^ 0b0000_1000 },
            InterruptTypes::Joypad => { interrupt_flag = interrupt_flag ^ 0b0001_0000 },
            _ => {
                proof { lemma_zero_identities(interrupt_flag); }
            },
        }
        Self::set_if(memory, interrupt_flag)
    }

    /// The interrupt flag register IF.
    pub fn get_if(memory: &Memory) -> (r: u8)
        ensures
            r == memory@.read(0xFF0F),
    {
        proof {
            reveal(MemoryView::read_ok);
        }
        return memory.read_byte(0xFF0F);
    }

    pub fn set_if(memory: &mut Memory, val: u8)
        ensures
            final(memory)@ == old(memory)@.write(0xFF0F, val),
    {
        memory.write_byte(0xFF0F, val);
    }

    /// Request an interrupt by setting its IF bit.
    pub fn trigger_interrupt(memory: &mut Memory, interrupt_type: InterruptTypes)
        ensures
            final(memory)@ == old(memory)@.write(
                0xFF0F,
                old(memory)@.read(0xFF0F) | interrupt_bit(interrupt_type),
            ),
    {
        let mut interrupt_flag = Self::get_if(memory);
        match interrupt_type {
            InterruptTypes::VBlank => { interrupt_flag = interrupt_flag | 0b0000_0001 },
            InterruptTypes::Stat => { interrupt_flag = interrupt_flag | 0b0000_0010 },
            InterruptTypes::Timer => { interrupt_flag = interrupt_flag | 0b0000_0100 },
            InterruptTypes::Serial => { interrupt_flag = interrupt_flag | 0b0000_1000 },
            InterruptTypes::Joypad => { interrupt_flag = interrupt_flag | 0b0001_0000 },
            _ => {
                proof { lemma_zero_identities(interrupt_flag); }
            },
        }
        Self::set_if(memory, interrupt_flag)
    }
}

/// The interrupt picked from a combined flag is the pending one with the
/// lowest bit: it is pending, and no interrupt of a lower bit is; and none is
/// picked exactly when none of the five bits is set.
pub proof fn lemma_highest_priority_is_lowest_bit(f: u8)
    ensures
        (spec_highest_priority(f) == InterruptTypes::NoInterrupt) <==> f & 0x1F == 0,
        spec_highest_priority(f) == InterruptTypes::VBlank ==> f & 0x01 != 0,
        spec_highest_priority(f) == InterruptTypes::Stat ==> f & 0x02 != 0 && f & 0x01 == 0,
        spec_highest_priority(f) == InterruptTypes::Timer ==> f & 0x04 != 0 && f & 0x03 == 0,
        spec_highest_priority(f) == InterruptTypes::Serial ==> f & 0x08 != 0 && f & 0x07 == 0,
        spec_highest_priority(f) == InterruptTypes::Joypad ==> f & 0x10 != 0 && f & 0x0F == 0,
{
    assert((f & 0x01 == 0 && f & 0x02 == 0 ==> f & 0x03 == 0) && (f & 0x03 == 0 && f & 0x04 == 0 ==> f & 0x07
        == 0) && (f & 0x07 == 0 && f & 0x08 == 0 ==> f & 0x0F == 0) && (f & 0x0F == 0 && f & 0x10 == 0 ==> f
        & 0x1F == 0) && (f & 0x1F == 0 ==> f & 0x01 == 0 && f & 0x02 == 0 && f & 0x04 == 0 && f & 0x08 == 0 && f
        & 0x10 == 0)) by (bit_vector);
}

} // verus!
