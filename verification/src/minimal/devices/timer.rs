//! The timer registers of the minimal machine.
//!
//! DIV (0xFF04) is a general counter, TIMA (0xFF05) the timer counter, TMA
//! (0xFF06) the value TIMA is reloaded from when it overflows, and TAC (0xFF07)
//! the timer control: bit 2 enables the timer, bits 1 and 0 pick its speed.
use vstd::prelude::*;

verus! {

/// The four timer registers.
pub struct Timer {
    pub div: u8,
    pub tima: u8,
    pub tma: u8,
    pub tac: u8,
}

impl Timer {
    pub fn new() -> (t: Timer)
        ensures
            t == (Timer { div: 0, tima: 0, tma: 0, tac: 0 }),
    {
        Timer { div: 0, tima: 0, tma: 0, tac: 0 }
    }

    /// Store a new timer control value.
    pub fn set_tac(&mut self, tac: u8)
        ensures
            *final(self) == (Timer { tac: tac, ..*old(self) }),
    {
        self.tac = tac;
    }
}

} // verus!
