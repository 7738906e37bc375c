//! A minimal Gameboy machine: the CPU with its registers, the memory map,
//! the cartridge and the timer devices.
pub mod rom;
pub mod memory;
pub mod devices;
pub mod interrupt_helper;
pub mod instructions;
pub mod cpu;
pub mod emulator;
pub mod step_check;
