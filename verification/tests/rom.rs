use lib::emulator::rom::{MBCType, Rom};

/// A cartridge image of `banks` 16 KiB banks with the given controller and RAM
/// size bytes and a valid header checksum; byte 0 of each bank holds its number.
fn cartridge(banks: usize, mbc: u8, ram_size: u8) -> Vec<u8> {
    let mut data = vec![0u8; banks * 16384];
    for b in 0..banks {
        data[b * 16384] = b as u8;
    }
    data[0x0147] = mbc;
    data[0x0148] = ram_size;
    let mut x: u8 = 0;
    for i in 0x0134..0x014D {
        x = x.wrapping_sub(data[i]).wrapping_sub(1);
    }
    data[0x014D] = x;
    data
}

#[test]
fn mbc1() {
    let mut rom = Rom::new();
    rom.load_from_data(&cartridge(4, 0x01, 0x00));

    assert_eq!(rom.mbc_type, MBCType::Mbc1);
    assert_eq!(rom.is_header_checksum_valid(), true);

    // ROM switching
    rom.rom_banks[3][0] = 42; // Read-only, but doing a write for testing
    rom.write_byte(0x2000, 0x3); // Switching to bank 3
    assert_eq!(rom.read_byte(0x4000), 42); // Check if we can find our value
}

#[test]
fn rom_banks_and_ram_banks_from_header() {
    let mut rom = Rom::new();
    rom.load_from_data(&cartridge(8, 0x03, 0x03));
    assert_eq!(rom.rom_banks.len(), 8);
    assert_eq!(rom.ram_banks.len(), 4);
    assert!(rom.ram_banks.iter().all(|b| b.len() == 8192));
    assert_eq!(rom.read_byte(0x0000), 0);
    // Bank 1 is selected at start
    assert_eq!(rom.read_byte(0x4000), 1);
    // Bank number 0 selects bank 1
    rom.write_byte(0x2000, 0);
    assert_eq!(rom.read_byte(0x4000), 1);
    rom.write_byte(0x2000, 7);
    assert_eq!(rom.read_byte(0x4000), 7);
}

#[test]
fn rom_short_last_bank() {
    let mut data = cartridge(2, 0x00, 0x00);
    data.truncate(16384 + 100);
    let mut rom = Rom::new();
    rom.load_from_data(&data);
    assert_eq!(rom.rom_banks.len(), 2);
    assert_eq!(rom.rom_banks[1].len(), 100);
    assert_eq!(rom.mbc_type, MBCType::RomOnly);
    assert_eq!(rom.ram_banks.len(), 1);
}

#[test]
fn mbc1_external_ram() {
    let mut rom = Rom::new();
    rom.load_from_data(&cartridge(4, 0x03, 0x03));
    rom.write_byte(0x0000, 0x0A);
    assert!(rom.external_ram_enabled);
    rom.write_byte(0xA123, 0x99);
    assert_eq!(rom.read_byte(0xA123), 0x99);
    // RAM banking mode, RAM bank 2
    rom.write_byte(0x6000, 1);
    assert!(rom.ram_banking_mode);
    rom.write_byte(0x4000, 2);
    assert_eq!(rom.current_ram_bank, 2);
    assert_eq!(rom.read_byte(0xA123), 0);
    rom.write_byte(0xA123, 0x55);
    rom.write_byte(0x4000, 0);
    assert_eq!(rom.read_byte(0xA123), 0x99);
}

#[test]
fn mbc3_rtc_registers_read_zero() {
    let mut rom = Rom::new();
    rom.load_from_data(&cartridge(4, 0x13, 0x03));
    assert_eq!(rom.mbc_type, MBCType::Mbc3);
    rom.write_byte(0xA000, 0x12);
    assert_eq!(rom.read_byte(0xA000), 0x12);
    // RAM bank select with bit 0 set gives bank 32: the clock registers
    rom.write_byte(0x4000, 0x01);
    assert_eq!(rom.current_ram_bank, 32);
    assert_eq!(rom.read_byte(0xA000), 0);
    rom.write_byte(0xA000, 0x77);
    assert_eq!(rom.read_byte(0xA000), 0);
}

#[test]
fn rom_only_ignores_writes() {
    let mut rom = Rom::new();
    rom.load_from_data(&cartridge(2, 0x00, 0x00));
    rom.write_byte(0x2000, 5);
    assert_eq!(rom.current_rom_bank, 1);
    assert_eq!(rom.read_byte(0x4000), 1);
    rom.write_byte(0xA000, 5);
    assert_eq!(rom.read_byte(0xA000), 0);
}

#[test]
fn checksum_detects_change() {
    let mut rom = Rom::new();
    rom.load_from_data(&cartridge(2, 0x00, 0x00));
    assert!(rom.is_header_checksum_valid());
    rom.rom_banks[0][0x0134] ^= 1;
    assert!(!rom.is_header_checksum_valid());
}

#[test]
fn boot_rom_shadows_first_page() {
    let mut rom = Rom::new();
    rom.load_from_data(&cartridge(2, 0x00, 0x00));
    let boot: Vec<u8> = (0..256).map(|i| (255 - i) as u8).collect();
    rom.load_bootrom_from_data(&boot);
    rom.using_boot_rom = true;
    assert_eq!(rom.read_byte(0x0000), 255);
    assert_eq!(rom.read_byte(0x00FF), 0);
    assert_eq!(rom.read_byte(0x0100), 0);
    rom.using_boot_rom = false;
    assert_eq!(rom.read_byte(0x0000), 0);
}

#[test]
fn mem_slice_for_dma() {
    let mut rom = Rom::new();
    rom.load_from_data(&cartridge(2, 0x00, 0x00));
    assert_eq!(rom.read_mem_slice(0x4000, 0x4002), &[1, 0]);
    assert_eq!(rom.read_mem_slice(0x0147, 0x0149), &[0x00, 0x00]);
    assert_eq!(rom.read_mem_slice(0xA000, 0xA0A0).len(), 160);
}

use lib::emulator::rom::rtc::RealTimeClock;

#[test]
fn rtc_latch_sequence() {
    let mut rtc = RealTimeClock::new();
    assert_eq!(rtc.read_reg(0x08), 0);
    assert_eq!(rtc.read_reg(0x0C), 0);
    rtc.write_latch(1);
    assert!(!rtc.latch_zero);
    rtc.write_latch(0);
    assert!(rtc.latch_zero);
    rtc.write_latch(5);
    assert!(rtc.latch_zero);
    rtc.write_latch(1);
    assert!(!rtc.latch_zero);
}

#[test]
fn mbc1_upper_bank_bits() {
    let mut d = vec![0u8; 0x23 * 0x4000];
    d[0x147] = 0x01;
    d[0x14D] = 0xE6;
    d[0x22 * 0x4000] = 0x99;
    let mut rom = Rom::new();
    rom.load_from_data(&d);
    rom.write_byte(0x2000, 0x02);
    rom.write_byte_mbc1(0x4000, 0x01);
    assert_eq!(rom.current_rom_bank, 0x22);
    assert_eq!(rom.read_byte(0x4000), 0x99);
}

#[test]
fn rom_slice_follows_selected_bank() {
    let mut rom = Rom::new();
    let mut data = cartridge(4, 0x01, 0x00);
    data[3 * 16384] = 42;
    rom.load_from_data(&data);
    rom.write_byte(0x2000, 0x03);
    let slice = rom.read_mem_slice(0x4000, 0x40A0);
    assert_eq!(slice.len(), 160);
    assert_eq!(slice[0], 42);
    assert_eq!(slice[0], rom.read_byte(0x4000));
}
