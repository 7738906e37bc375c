//! The I/O registers at 0xFF00 - 0xFF7F: the timer and plain device RAM.
pub mod timer;

use vstd::prelude::*;
use crate::minimal::devices::timer::Timer;

verus! {

/// The I/O devices.
pub struct Devices {
    pub timer: Timer,
    pub other_device_ram: [u8; 128],
}

/// The state of the I/O devices.
pub struct DevicesView {
    pub timer: Timer,
    pub other_device_ram: Seq<u8>,
}

impl View for Devices {
    type V = DevicesView;

    open spec fn view(&self) -> DevicesView {
        DevicesView { timer: self.timer, other_device_ram: self.other_device_ram@ }
    }
}

impl DevicesView {
    /// The byte a read of `address` gives.
    pub open spec fn read(self, address: usize) -> u8 {
        if address == 0xFF04 {
            self.timer.div
        } else if address == 0xFF05 {
            self.timer.tima
        } else if address == 0xFF06 {
            self.timer.tma
        } else if address == 0xFF07 {
            self.timer.tac
        } else if 0xFF00 <= address <= 0xFF7F {
            self.other_device_ram[address - 0xFF00]
        } else {
            0
        }
    }

    /// The devices after a write of `val` to `address`. Writing DIV resets it.
    pub open spec fn write(self, address: usize, val: u8) -> DevicesView {
        if address == 0xFF04 {
            DevicesView { timer: Timer { div: 0, ..self.timer }, ..self }
        } else if address == 0xFF05 {
            DevicesView { timer: Timer { tima: val, ..self.timer }, ..self }
        } else if address == 0xFF06 {
            DevicesView { timer: Timer { tma: val, ..self.timer }, ..self }
        } else if address == 0xFF07 {
            DevicesView { timer: Timer { tac: val, ..self.timer }, ..self }
        } else if 0xFF00 <= address <= 0xFF7F {
            DevicesView {
                other_device_ram: self.other_device_ram.update(address - 0xFF00, val),
                ..self
            }
        } else {
            self
        }
    }
}

impl Devices {
    pub fn new() -> (d: Devices)
        ensures
            d@ == (DevicesView {
                timer: Timer { div: 0, tima: 0, tma: 0, tac: 0 },
                other_device_ram: Seq::new(128, |i: int| 0u8),
            }),
    {
        let d = Devices { timer: Timer::new(), other_device_ram: [0; 128] };
        assert(d@.other_device_ram =~= Seq::new(128, |i: int| 0u8));
        d
    }

    pub fn read_byte(&self, address: usize) -> (r: u8)
        ensures
            r == self@.read(address),
    {
        if address == 0xFF04 {
            return self.timer.div;
        } else if address == 0xFF05 {
            return self.timer.tima;
        } else if address == 0xFF06 {
            return self.timer.tma;
        } else if address == 0xFF07 {
            return self.timer.tac;
        } else if 0xFF00 <= address && address <= 0xFF7F {
            return self.other_device_ram[address - 0xFF00];
        } else {
            return 0;
        }
    }

    pub fn write_byte(&mut self, address: usize, val: u8)
        ensures
            final(self)@ == old(self)@.write(address, val),
    {
        if address == 0xFF04 {
            self.timer.div = 0;
        } else if address == 0xFF05 {
            self.timer.tima = val;
        } else if address == 0xFF06 {
            self.timer.tma = val;
        } else if address == 0xFF07 {
            self.timer.set_tac(val);
        } else if 0xFF00 <= address && address <= 0xFF7F {
            self.other_device_ram[address - 0xFF00] = val;
        }
    }
}

} // verus!
