//! The real-time clock of MBC3 cartridges: five registers (seconds, minutes,
//! hours, and the day counter with its halt and carry bits), read through RAM
//! banks 0x08-0x0C, and the latch that copies the time into them.
use vstd::prelude::*;

verus! {

/// The clock registers and the first half of a latch sequence.
pub struct RealTimeClock {
    /// Seconds, minutes, hours, day counter low byte, day counter high bit
    /// with the halt and day carry flags
    pub mem: [u8; 5],
    /// A 0 was written to the latch register
    pub latch_zero: bool,
}

impl RealTimeClock {
    /// All registers zero, no latch sequence started.
    pub fn new() -> (c: RealTimeClock)
        ensures
            c.mem@ == seq![0u8, 0, 0, 0, 0],
            !c.latch_zero,
    {
        let c = RealTimeClock { mem: [0; 5], latch_zero: false };
        assert(c.mem@ =~= seq![0u8, 0, 0, 0, 0]);
        c
    }

    /// The register that RAM bank `ram_bank` (0x08-0x0C) shows.
    pub fn read_reg(&self, ram_bank: usize) -> (r: u8)
        requires
            8 <= ram_bank < 13,
        ensures
            r == self.mem@[ram_bank - 8],
    {
        self.mem[ram_bank - 8]
    }

    /// A write to the latch register: writing 0 and then 1 latches the current
    /// time into the registers (the clock is not running, so the registers
    /// keep their values) and ends the sequence.
    pub fn write_latch(&mut self, val: u8)
        ensures
            final(self).mem == old(self).mem,
            final(self).latch_zero == if val == 0 {
                true
            } else if old(self).latch_zero && val == 1 {
                false
            } else {
                old(self).latch_zero
            },
    {
        if val == 0 {
            self.latch_zero = true;
        }
        if self.latch_zero && val == 1 {
            self.latch_current_time();
            self.latch_zero = false;
        }
    }

    /// Copy the current time into the registers; the clock does not run, so
    /// nothing changes.
    pub fn latch_current_time(&mut self)
        ensures
            *final(self) == *old(self),
    {
    }
}

} // verus!
