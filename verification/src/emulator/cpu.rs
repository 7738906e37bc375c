//! The processor state of the full machine.
pub mod registers;

use vstd::prelude::*;
use crate::emulator::cpu::registers::Registers;

verus! {

/// The processor: its register file.
pub struct CPU {
    pub regs: Registers,
}

impl CPU {
    /// The registers as the boot ROM leaves them.
    pub fn new() -> (c: CPU)
        ensures
            c.regs == (Registers {
                a: 0x01,
                b: 0x00,
                c: 0x13,
                d: 0x00,
                e: 0xD8,
                h: 0x01,
                l: 0x4D,
                f: 0xB0,
                pc: 0x100,
                sp: 0xFFFE,
            }),
    {
        CPU { regs: Registers::new() }
    }
}

} // verus!
