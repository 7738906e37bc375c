//! The full Gameboy machine: CPU registers, memory map, cartridge, timer,
//! interrupts, joypad, graphics and sound registers.
pub mod cpu;
pub mod interrupts;
pub mod joypad;
pub mod timer;
pub mod audio;
pub mod rom;
pub mod gpu;
pub mod screen;
pub mod memory;

use vstd::prelude::*;
use crate::emulator::cpu::CPU;
use crate::emulator::memory::Memory;
use crate::emulator::screen::Screen;
use crate::emulator::joypad::{key_column, key_mask};
use crate::emulator::rom::{RomView, spec_mbc_type, spec_header_checksum};
use crate::emulator::audio::{AudioDevice, spec_gen_rate};

verus! {

/// A key of the Gameboy.
#[derive(Copy, Clone, PartialEq, Eq, Debug, Structural)]
pub enum KeyPress {
    Down,
    Up,
    Left,
    Right,
    Start,
    Select,
    B,
    A,
}

/// What the machine asks its frontend to do.
#[derive(Copy, Clone, PartialEq, Eq, Debug, Structural)]
pub enum FrontendEvent {
    /// A frame is ready to be shown
    Render,
    /// Sound samples are ready to be queued
    QueueSound,
}

/// The machine: processor, memory map with its devices, and screen.
pub struct Emulator {
    pub cpu: CPU,
    pub memory: Memory,
    pub screen: Screen,
    pub frame_counter: usize,
    pub paused: bool,
    pub prev_sound_frame_cycles: u64,
}

impl Emulator {
    pub open spec fn wf(&self) -> bool {
        self.memory.wf()
    }

    /// A fresh machine; with `use_bootrom` it starts at address 0 in the boot
    /// ROM.
    pub fn new(use_bootrom: bool) -> (em: Emulator)
        ensures
            em.wf(),
            em.cpu.regs.pc == if use_bootrom {
                0u16
            } else {
                0x100u16
            },
            em.cpu.regs == (crate::emulator::cpu::registers::Registers {
                a: 0x01,
                b: 0x00,
                c: 0x13,
                d: 0x00,
                e: 0xD8,
                h: 0x01,
                l: 0x4D,
                f: 0xB0,
                pc: em.cpu.regs.pc,
                sp: 0xFFFE,
            }),
            em.memory.rom@ == (RomView { using_boot_rom: use_bootrom, ..RomView::initial() }),
            em.memory.devices_initial(),
            em.screen.bitmap@ == Seq::new(69120, |i: int| 255u8),
            em.screen.previous_scroll == 0,
            em.frame_counter == 0,
            !em.paused,
            em.prev_sound_frame_cycles == 0,
    {
        let mut em = Emulator {
            cpu: CPU::new(),
            memory: Memory::new(),
            screen: Screen::new(),
            frame_counter: 0,
            paused: false,
            prev_sound_frame_cycles: 0,
        };
        if use_bootrom {
            em.cpu.regs.pc = 0;
            em.memory.rom.using_boot_rom = true;
        }
        em
    }

    /// Start over in the boot ROM.
    pub fn enable_bootrom(&mut self)
        ensures
            final(self).cpu.regs == (crate::emulator::cpu::registers::Registers { pc: 0, ..old(self).cpu.regs }),
            final(self).memory.rom@ == (RomView { using_boot_rom: true, ..old(self).memory.rom@ }),
            final(self).memory.gpu == old(self).memory.gpu,
            final(self).memory.joypad == old(self).memory.joypad,
            final(self).memory.audio_device == old(self).memory.audio_device,
            final(self).memory.timer == old(self).memory.timer,
            final(self).memory.interrupt_handler == old(self).memory.interrupt_handler,
            final(self).memory.working_ram == old(self).memory.working_ram,
            final(self).memory.high_ram == old(self).memory.high_ram,
            final(self).memory.device_ram == old(self).memory.device_ram,
    {
        self.cpu.regs.pc = 0;
        self.memory.rom.using_boot_rom = true;
    }

    /// A key went down.
    pub fn press_key(&mut self, key: KeyPress)
        ensures
            final(self).memory.joypad.key_column_select == old(self).memory.joypad.key_column_select,
            final(self).memory.joypad.key_columns@ == old(self).memory.joypad.key_columns@.update(
                key_column(key),
                old(self).memory.joypad.key_columns@[key_column(key)] & !key_mask(key),
            ),
            *final(self) == (Emulator {
                memory: Memory { joypad: final(self).memory.joypad, ..old(self).memory },
                ..*old(self)
            }),
    {
        self.memory.joypad.press_key(key);
    }

    /// A key went up.
    pub fn clear_key(&mut self, key: KeyPress)
        ensures
            final(self).memory.joypad.key_column_select == old(self).memory.joypad.key_column_select,
            final(self).memory.joypad.key_columns@ == old(self).memory.joypad.key_columns@.update(
                key_column(key),
                old(self).memory.joypad.key_columns@[key_column(key)] | key_mask(key),
            ),
            *final(self) == (Emulator {
                memory: Memory { joypad: final(self).memory.joypad, ..old(self).memory },
                ..*old(self)
            }),
    {
        self.memory.joypad.clear_key(key);
    }

    /// Load a cartridge image (see `Rom::load_from_data`).
    pub fn load_rom_from_data(&mut self, vec: &Vec<u8>)
        requires
            old(self).wf(),
            old(self).memory.rom@.rom_banks.len() > 0 ==> old(self).memory.rom@.rom_banks[0].len() > 0x014D,
            old(self).memory.rom@.rom_banks.len() == 0 ==> vec@.len() > 0x014D,
            ({
                let first = if old(self).memory.rom@.rom_banks.len() > 0 {
                    old(self).memory.rom@.rom_banks[0]
                } else {
                    vec@
                };
                &&& spec_mbc_type(first[0x0147]) is Some
                &&& first[0x014D] == spec_header_checksum(first, 0x014D)
            }),
        ensures
            final(self).wf(),
            final(self).memory.rom@.rom_banks == old(self).memory.rom@.rom_banks + crate::emulator::rom::spec_chunks(
                vec@,
            ),
            final(self).memory.rom@.mbc_type == spec_mbc_type(final(self).memory.rom@.rom_banks[0][0x0147])->0,
            final(self).memory.rom@.ram_banks == old(self).memory.rom@.ram_banks + Seq::new(
                crate::emulator::rom::spec_ram_bank_count(final(self).memory.rom@.rom_banks[0][0x0148]),
                |i: int| Seq::new(crate::emulator::rom::RAM_BANK_SIZE as nat, |j: int| 0u8),
            ),
            final(self).memory.rom@ == (RomView {
                rom_banks: final(self).memory.rom@.rom_banks,
                mbc_type: final(self).memory.rom@.mbc_type,
                ram_banks: final(self).memory.rom@.ram_banks,
                ..old(self).memory.rom@
            }),
            *final(self) == (Emulator { memory: Memory { rom: final(self).memory.rom, ..old(self).memory }, ..*old(self) }),
    {
        self.memory.rom.load_from_data(vec);
    }

    /// Load the 256-byte boot ROM.
    pub fn load_bootrom_from_data(&mut self, vec: &Vec<u8>)
        requires
            old(self).wf(),
            vec@.len() == 256,
        ensures
            final(self).wf(),
            final(self).memory.rom@ == (RomView { boot_rom: vec@, ..old(self).memory.rom@ }),
            *final(self) == (Emulator { memory: Memory { rom: final(self).memory.rom, ..old(self).memory }, ..*old(self) }),
    {
        self.memory.rom.load_bootrom_from_data(vec);
    }

    /// Change the sound output sample rate (see
    /// `AudioDevice::set_output_samplerate`).
    pub fn set_sound_output_sample_rate(&mut self, sample_rate: usize)
        requires
            old(self).wf(),
            sample_rate > 0,
        ensures
            final(self).wf(),
            final(self).memory.audio_device.sample_rate == sample_rate,
            final(self).memory.audio_device.gen_rate == if sample_rate != old(self).memory.audio_device.sample_rate {
                spec_gen_rate(sample_rate)
            } else {
                old(self).memory.audio_device.gen_rate
            },
            sample_rate != old(self).memory.audio_device.sample_rate ==> (AudioDevice {
                sample_rate,
                ..old(self).memory.audio_device
            }).bufs_rated(final(self).memory.audio_device, sample_rate),
            sample_rate == old(self).memory.audio_device.sample_rate ==> final(self).memory.audio_device
                == old(self).memory.audio_device,
            *final(self) == (Emulator {
                memory: Memory { audio_device: final(self).memory.audio_device, ..old(self).memory },
                ..*old(self)
            }),
    {
        self.memory.audio_device.set_output_samplerate(sample_rate);
    }

    /// The name the frontend gave the loaded cartridge.
    pub fn get_rom_name(&self) -> (name: &str)
        ensures
            name@ == self.memory.rom.romname@,
    {
        self.memory.rom.romname.as_str()
    }

    /// Name the loaded cartridge.
    pub fn set_rom_name(&mut self, romname: &str)
        requires
            old(self).wf(),
        ensures
            final(self).wf(),
            final(self).memory.rom@ == (RomView { romname: romname@, ..old(self).memory.rom@ }),
            *final(self) == (Emulator { memory: Memory { rom: final(self).memory.rom, ..old(self).memory }, ..*old(self) }),
    {
        self.memory.rom.romname = romname.to_owned();
    }
}

} // verus!
