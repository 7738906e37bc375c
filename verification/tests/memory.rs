use lib::emulator::interrupts::InterruptTypes;
use lib::emulator::memory::Memory;

#[test]
fn work_ram_and_echo() {
    let mut mem = Memory::new();
    assert_eq!(mem.read_byte(0xC000), 1);
    mem.write_byte(0xC010, 0xAB);
    assert_eq!(mem.read_byte(0xC010), 0xAB);
    assert_eq!(mem.read_byte(0xE010), 0xAB);
    mem.write_byte(0xE020, 0xCD);
    assert_eq!(mem.read_byte(0xC020), 0xCD);
    assert_eq!(mem.read_word(0xC010), 0x01AB);
    mem.write_word(0xD000, 0x1234);
    assert_eq!(mem.read_byte(0xD000), 0x34);
    assert_eq!(mem.read_byte(0xD001), 0x12);
    assert_eq!(mem.read_word(0xD000), 0x1234);
}

#[test]
fn high_ram_and_interrupt_registers() {
    let mut mem = Memory::new();
    mem.write_byte(0xFF80, 7);
    mem.write_byte(0xFFFE, 9);
    assert_eq!(mem.read_byte(0xFF80), 7);
    assert_eq!(mem.read_byte(0xFFFE), 9);
    mem.write_byte(0xFFFF, 0x1F);
    assert_eq!(mem.read_byte(0xFFFF), 0x1F);
    assert_eq!(mem.interrupt_handler.interrupt_enable, 0x1F);
    mem.write_byte(0xFF0F, 0x04);
    assert_eq!(mem.read_byte(0xFF0F), 0x04);
    assert_eq!(mem.interrupt_handler.interrupt_flag, 0x04);
}

#[test]
fn unused_and_device_registers() {
    let mut mem = Memory::new();
    assert_eq!(mem.read_byte(0xFEA0), 0xFF);
    mem.write_byte(0xFEA0, 1);
    assert_eq!(mem.read_byte(0xFEA0), 0xFF);
    // Unused device register reads 0xFF, even after a write
    mem.write_byte(0xFF7F, 3);
    assert_eq!(mem.read_byte(0xFF7F), 0xFF);
    assert_eq!(mem.device_ram[0x7F], 3);
    // Serial data register
    mem.write_byte(0xFF01, 0x41);
    assert_eq!(mem.read_byte(0xFF01), 0x41);
}

#[test]
fn serial_output() {
    let mut mem = Memory::new();
    mem.write_byte(0xFF01, b'O');
    mem.write_byte(0xFF02, 0x81);
    mem.write_byte(0xFF01, b'K');
    mem.write_byte(0xFF02, 0x81);
    assert_eq!(mem.serial_buffer, b"OK".to_vec());
    // Other control values do not send
    mem.write_byte(0xFF02, 0x01);
    assert_eq!(mem.serial_buffer.len(), 2);
}

#[test]
fn joypad_through_memory() {
    let mut mem = Memory::new();
    mem.write_byte(0xFF00, 0x10);
    assert_eq!(mem.read_byte(0xFF00), 0x0F);
    mem.joypad.press_key(lib::emulator::KeyPress::A);
    assert_eq!(mem.read_byte(0xFF00), 0x0E);
}

#[test]
fn timer_through_memory() {
    let mut mem = Memory::new();
    mem.write_byte(0xFF06, 0x20);
    mem.write_byte(0xFF07, 0b101);
    assert_eq!(mem.read_byte(0xFF06), 0x20);
    assert_eq!(mem.read_byte(0xFF07), 0b101);
    assert!(mem.timer.enabled);
    assert_eq!(mem.timer.tima_step, 16);
    mem.cycle_devices(4); // 16 clock cycles: one TIMA step
    assert_eq!(mem.read_byte(0xFF05), 1);
    mem.write_byte(0xFF05, 0xFF);
    mem.cycle_devices(4);
    assert_eq!(mem.read_byte(0xFF05), 0x20);
    assert_eq!(mem.interrupt_handler.interrupt_flag & 0b100, 0b100);
    assert!(!mem.timer.request_interrupt);
}

#[test]
fn oam_dma_from_work_ram() {
    let mut mem = Memory::new();
    for i in 0..160u16 {
        mem.write_byte(0xC100 + i, i as u8);
    }
    mem.write_byte(0xFF46, 0xC1);
    assert_eq!(mem.read_byte(0xFF46), 0xC1);
    for i in 0..160u16 {
        assert_eq!(mem.read_byte(0xFE00 + i), i as u8);
    }
    let sprite = mem.gpu.draw_helper.sprite_data.get_sprite(2);
    assert_eq!(sprite.y, 8);
    assert_eq!(sprite.x, 9);
    assert_eq!(sprite.tile_id, 10);
}

#[test]
fn vblank_interrupt_is_propagated() {
    let mut mem = Memory::new();
    mem.write_byte(0xFF40, 0x80);
    mem.write_byte(0xFF44, 143);
    mem.cycle_devices(51); // 204 clock cycles
    assert_eq!(mem.interrupt_handler.interrupt_flag & 1, 1);
    assert!(!mem.gpu.vblank_interrupt_requested);
    assert_eq!(
        mem.interrupt_handler.get_highest_priority_interrupt(),
        InterruptTypes::NoInterrupt
    );
    mem.write_byte(0xFFFF, 1);
    assert_eq!(mem.interrupt_handler.get_highest_priority_interrupt(), InterruptTypes::VBlank);
}

#[test]
fn sound_registers_through_memory() {
    let mut mem = Memory::new();
    // Without power, writes other than NR52 are ignored
    mem.write_byte(0xFF12, 0xF3);
    assert_eq!(mem.read_byte(0xFF12), 0);
    mem.write_byte(0xFF26, 0x80);
    mem.write_byte(0xFF12, 0xF3);
    assert_eq!(mem.read_byte(0xFF12), 0xF3);
    assert_eq!(mem.read_byte(0xFF26), 0x80);
}

use lib::emulator::{Emulator, KeyPress};

#[test]
fn emulator_setup_and_keys() {
    let mut em = Emulator::new(false);
    assert_eq!(em.cpu.regs.pc, 0x100);
    assert!(!em.memory.rom.using_boot_rom);
    let em2 = Emulator::new(true);
    assert_eq!(em2.cpu.regs.pc, 0);
    assert!(em2.memory.rom.using_boot_rom);

    em.memory.write_byte(0xFF00, 0x20);
    em.press_key(KeyPress::Down);
    assert_eq!(em.memory.read_byte(0xFF00), 0b0111);
    em.clear_key(KeyPress::Down);
    assert_eq!(em.memory.read_byte(0xFF00), 0b1111);

    em.set_rom_name("tetris");
    assert_eq!(em.get_rom_name(), "tetris");
    em.set_sound_output_sample_rate(24000);
    assert_eq!(em.memory.audio_device.gen_rate, 4194304 * 1024 / 24000);
    em.enable_bootrom();
    assert_eq!(em.cpu.regs.pc, 0);
    assert!(em.memory.rom.using_boot_rom);
}

#[test]
fn emulator_loads_cartridge_and_boot_rom() {
    let mut data = vec![0u8; 2 * 16384];
    data[0x4000] = 0x77;
    let mut x: u8 = 0;
    for i in 0x0134..0x014D {
        x = x.wrapping_sub(data[i]).wrapping_sub(1);
    }
    data[0x014D] = x;
    let mut em = Emulator::new(true);
    em.load_rom_from_data(&data);
    em.load_bootrom_from_data(&vec![0x31; 256]);
    assert_eq!(em.memory.read_byte(0x0000), 0x31);
    assert_eq!(em.memory.read_byte(0x4000), 0x77);
    em.memory.rom.using_boot_rom = false;
    assert_eq!(em.memory.read_byte(0x0000), 0x00);
}

#[test]
fn oam_dma_from_echo_ram() {
    let mut m = Memory::new();
    m.write_byte(0xC000, 0x77);
    let slice = m.read_mem_slice(0xE000, 0xE0A0);
    assert_eq!(slice.len(), 160);
    assert_eq!(slice[0], 0x77);
    assert_eq!(slice[1], m.read_byte(0xE001));
}

#[test]
fn fresh_memory_devices() {
    let mut m = Memory::new();
    assert_eq!(m.read_byte(0xFF04), 0);
    assert_eq!(m.read_byte(0xFF41) & 0b11, 0);
    assert_eq!(m.gpu.ly, 0);
    m.cycle_devices(64);
    assert_eq!(m.read_byte(0xFF04), 1);
    assert_eq!(m.interrupt_handler.interrupt_flag, 0);
    assert_eq!(m.gpu.ly, 0);
}
