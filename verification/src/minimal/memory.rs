//! The 64 KiB address space of the minimal machine.
use vstd::prelude::*;
use crate::bytes::{word, high_byte, low_byte, lemma_pack_unpack};
use crate::minimal::rom::{Rom, RomView};

verus! {

/// Size of working RAM, video RAM and external RAM.
pub const WRAM_SIZE: usize = 8192;

/// The memory map of the machine.
pub struct Memory {
    /// Cartridge ROM, 0x0000 - 0x7FFF
    pub rom: Rom,
    pub video_ram: [u8; 8192],
    pub external_ram: [u8; 8192],
    pub working_ram: [u8; 8192],
    pub oam_ram: [u8; 160],
    pub device_ram: [u8; 128],
    pub high_ram: [u8; 127],
    /// The interrupt enable register at 0xFFFF
    pub interrupt_flag: u8,
    /// The interrupt master enable switch (IME)
    pub interrupt_master_enable: bool,
    /// Bytes sent over the link cable, in order
    pub serial_buffer: Vec<u8>,
}

/// The state of the memory map as sequences of bytes.
pub struct MemoryView {
    pub rom: RomView,
    pub video_ram: Seq<u8>,
    pub external_ram: Seq<u8>,
    pub working_ram: Seq<u8>,
    pub oam_ram: Seq<u8>,
    pub device_ram: Seq<u8>,
    pub high_ram: Seq<u8>,
    pub interrupt_flag: u8,
    pub interrupt_master_enable: bool,
    pub serial: Seq<u8>,
}

impl MemoryView {
    /// Fresh memory: video and working RAM filled with 1, the rest with 0, an empty
    /// cartridge and no serial output.
    pub open spec fn initial() -> MemoryView {
        MemoryView {
            rom: RomView::initial(),
            video_ram: Seq::new(8192, |i: int| 1u8),
            external_ram: Seq::new(8192, |i: int| 0u8),
            working_ram: Seq::new(8192, |i: int| 1u8),
            oam_ram: Seq::new(160, |i: int| 0u8),
            device_ram: Seq::new(128, |i: int| 0u8),
            high_ram: Seq::new(127, |i: int| 0u8),
            interrupt_flag: 0,
            interrupt_master_enable: false,
            serial: Seq::empty(),
        }
    }

    /// The regions have their hardware sizes.
    pub open spec fn wf(self) -> bool {
        &&& self.video_ram.len() == 8192
        &&& self.external_ram.len() == 8192
        &&& self.working_ram.len() == 8192
        &&& self.oam_ram.len() == 160
        &&& self.device_ram.len() == 128
        &&& self.high_ram.len() == 127
    }

    /// Whether a read of `address` can be served. Only cartridge reads can fail,
    /// when a needed bank is missing.
    #[verifier::opaque]
    pub open spec fn read_ok(self, address: u16) -> bool {
        address <= 0x7FFF ==> self.rom.read_ok(address as int)
    }

    /// The byte a read of `address` gives.
    #[verifier::opaque]
    pub open spec fn read(self, address: u16) -> u8 {
        let a = address as int;
        if a <= 0x7FFF {
            self.rom.read(a)
        } else if a <= 0x9FFF {
            self.video_ram[a - 0x8000]
        } else if a <= 0xBFFF {
            self.external_ram[a - 0xA000]
        } else if a <= 0xDFFF {
            self.working_ram[a - 0xC000]
        } else if a <= 0xFDFF {
            self.working_ram[a - 0xE000]
        } else if a <= 0xFE9F {
            self.oam_ram[a - 0xFE00]
        } else if a <= 0xFEFF {
            0
        } else if a <= 0xFF7F {
            self.device_ram[a - 0xFF00]
        } else if a <= 0xFFFE {
            self.high_ram[a - 0xFF80]
        } else {
            self.interrupt_flag
        }
    }

    /// The memory after a write of `value` to `address`. Writing 0x81 to the serial
    /// control register 0xFF02 sends the byte in 0xFF01 over the link cable.
    #[verifier::opaque]
    pub open spec fn write(self, address: u16, value: u8) -> MemoryView {
        let a = address as int;
        if a <= 0x7FFF {
            MemoryView { rom: self.rom.write(a, value), ..self }
        } else if a <= 0x9FFF {
            MemoryView { video_ram: self.video_ram.update(a - 0x8000, value), ..self }
        } else if a <= 0xBFFF {
            MemoryView { external_ram: self.external_ram.update(a - 0xA000, value), ..self }
        } else if a <= 0xDFFF {
            MemoryView { working_ram: self.working_ram.update(a - 0xC000, value), ..self }
        } else if a <= 0xFDFF {
            MemoryView { working_ram: self.working_ram.update(a - 0xE000, value), ..self }
        } else if a <= 0xFE9F {
            MemoryView { oam_ram: self.oam_ram.update(a - 0xFE00, value), ..self }
        } else if a <= 0xFEFF {
            self
        } else if a == 0xFF02 && value == 0x81 {
            MemoryView { serial: self.serial.push(self.device_ram[1]), ..self }
        } else if a <= 0xFF7F {
            MemoryView { device_ram: self.device_ram.update(a - 0xFF00, value), ..self }
        } else if a <= 0xFFFE {
            MemoryView { high_ram: self.high_ram.update(a - 0xFF80, value), ..self }
        } else {
            MemoryView { interrupt_flag: value, ..self }
        }
    }

    /// The 16-bit little-endian word at `address`.
    pub open spec fn read_word(self, address: u16) -> u16 {
        word(self.read((address + 1) as u16), self.read(address))
    }

    /// The memory after a little-endian write of a word.
    pub open spec fn write_word(self, address: u16, value: u16) -> MemoryView {
        self.write(address, low_byte(value)).write((address + 1) as u16, high_byte(value))
    }
}

impl View for Memory {
    type V = MemoryView;

    open spec fn view(&self) -> MemoryView {
        MemoryView {
            rom: self.rom@,
            video_ram: self.video_ram@,
            external_ram: self.external_ram@,
            working_ram: self.working_ram@,
            oam_ram: self.oam_ram@,
            device_ram: self.device_ram@,
            high_ram: self.high_ram@,
            interrupt_flag: self.interrupt_flag,
            interrupt_master_enable: self.interrupt_master_enable,
            serial: self.serial_buffer@,
        }
    }
}

impl Memory {
    /// The regions of a memory map have their hardware sizes.
    pub proof fn lemma_wf(&self)
        ensures
            self@.wf(),
    {
    }

    /// Fresh memory: video and working RAM filled with 1, the rest with 0, an empty
    /// cartridge and no serial output.
    pub fn new() -> (m: Memory)
        ensures
            m@ == MemoryView::initial(),
    {
        let m = Memory {
            rom: Rom::new(),
            video_ram: [1; 8192],
            external_ram: [0; 8192],
            working_ram: [1; 8192],
            oam_ram: [0; 160],
            device_ram: [0; 128],
            high_ram: [0; 127],
            interrupt_flag: 0,
            interrupt_master_enable: false,
            serial_buffer: Vec::new(),
        };
        assert(m@.video_ram =~= Seq::new(8192, |i: int| 1u8));
        assert(m@.external_ram =~= Seq::new(8192, |i: int| 0u8));
        assert(m@.working_ram =~= Seq::new(8192, |i: int| 1u8));
        assert(m@.oam_ram =~= Seq::new(160, |i: int| 0u8));
        assert(m@.device_ram =~= Seq::new(128, |i: int| 0u8));
        assert(m@.high_ram =~= Seq::new(127, |i: int| 0u8));
        assert(m@.serial =~= Seq::<u8>::empty());
        m
    }

    pub fn read_byte(&self, address: u16) -> (r: u8)
        requires
            self@.read_ok(address),
        ensures
            r == self@.read(address),
    {
        proof {
            reveal(MemoryView::read);
            reveal(MemoryView::write);
            reveal(MemoryView::read_ok);
            reveal(word);
            reveal(high_byte);
            reveal(low_byte);
        }
        let address = address as usize;
        if address <= 0x7FFF {
            return self.rom.read_byte(address - 0x0000);
        } else if address <= 0x9FFF {
            return self.video_ram[address - 0x8000];
        } else if address <= 0xBFFF {
            return self.external_ram[address - 0xA000];
        } else if address <= 0xDFFF {
            return self.working_ram[address - 0xC000];
        } else if address <= 0xFDFF {
            return self.working_ram[address - 0xE000];
        } else if address <= 0xFE9F {
            return self.oam_ram[address - 0xFE00];
        } else if address <= 0xFEFF {
        } else if address <= 0xFF7F {
            return self.device_ram[address - 0xFF00];
        } else if address <= 0xFFFE {
            return self.high_ram[address - 0xFF80];
        } else {
            return self.interrupt_flag;
        }
        return 0;
    }

    pub fn read_word(&self, address: u16) -> (r: u16)
        requires
            address < 0xFFFF,
            self@.read_ok(address),
            self@.read_ok((address + 1) as u16),
        ensures
            r == self@.read_word(address),
    {
        proof {
            reveal(MemoryView::read);
            reveal(MemoryView::write);
            reveal(MemoryView::read_ok);
            reveal(word);
            reveal(high_byte);
            reveal(low_byte);
        }
        let lo = self.read_byte(address);
        let hi = self.read_byte(address + 1);
        proof {
            lemma_pack_unpack(hi, lo, 0);
        }
        (lo as u16) | ((hi as u16) << 8)
    }

    pub fn write_byte(&mut self, address: u16, value: u8)
        ensures
            final(self)@ == old(self)@.write(address, value),
    {
        proof {
            reveal(MemoryView::read);
            reveal(MemoryView::write);
            reveal(MemoryView::read_ok);
            reveal(word);
            reveal(high_byte);
            reveal(low_byte);
        }
        let address = address as usize;
        if address <= 0x7FFF {
            self.rom.write_byte(address - 0x0000, value);
        } else if address <= 0x9FFF {
            self.video_ram[address - 0x8000] = value;
        } else if address <= 0xBFFF {
            self.external_ram[address - 0xA000] = value;
        } else if address <= 0xDFFF {
            self.working_ram[address - 0xC000] = value;
        } else if address <= 0xFDFF {
            self.working_ram[address - 0xE000] = value;
        } else if address <= 0xFE9F {
            self.oam_ram[address - 0xFE00] = value;
        } else if address <= 0xFEFF {
        } else if address == 0xFF02 && value == 0x81 {
            let c = self.read_byte(0xFF01);
            self.link_cable_serial(c);
        } else if address <= 0xFF7F {
            self.device_ram[address - 0xFF00] = value;
        } else if address <= 0xFFFE {
            self.high_ram[address - 0xFF80] = value;
        } else {
            self.interrupt_flag = value;
        }
    }

    pub fn write_word(&mut self, address: u16, value: u16)
        requires
            address < 0xFFFF,
        ensures
            final(self)@ == old(self)@.write_word(address, value),
    {
        proof {
            reveal(MemoryView::read);
            reveal(MemoryView::write);
            reveal(MemoryView::read_ok);
            reveal(word);
            reveal(high_byte);
            reveal(low_byte);
        }
        proof {
            lemma_pack_unpack(0, 0, value);
        }
        self.write_byte(address, (value & 0xFF) as u8);
        self.write_byte(address + 1, (value >> 8) as u8);
    }

    /// Send a byte over the link cable, which is used as debug output.
    pub fn link_cable_serial(&mut self, c: u8)
        ensures
            final(self)@ == (MemoryView { serial: old(self)@.serial.push(c), ..old(self)@ }),
    {
        proof {
            reveal(MemoryView::read);
            reveal(MemoryView::write);
            reveal(MemoryView::read_ok);
            reveal(word);
            reveal(high_byte);
            reveal(low_byte);
        }
        self.serial_buffer.push(c);
    }
}

/// A write to work RAM reads back, also through its mirror at 0xE000-0xFDFF,
/// and a write to high RAM reads back.
pub proof fn lemma_ram_write_read(m: MemoryView, a: u16, v: u8)
    requires
        m.wf(),
        0xC000 <= a <= 0xFDFF || 0xFF80 <= a <= 0xFFFE,
    ensures
        m.write(a, v).read(a) == v,
        0xC000 <= a <= 0xDDFF ==> m.write(a, v).read((a + 0x2000) as u16) == v,
        0xE000 <= a <= 0xFDFF ==> m.write(a, v).read((a - 0x2000) as u16) == v,
{
    reveal(MemoryView::read);
    reveal(MemoryView::write);
}

} // verus!
