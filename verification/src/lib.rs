//! A Gameboy emulator core: CPU, memory map, cartridge banking, timer,
//! interrupts, joypad, graphics and sound helpers.
pub mod bytes;
pub mod flags;
pub mod minimal;
pub mod emulator;
pub mod debug_helper;
pub mod sound;
