use lib::emulator::gpu::draw_helper::{Color, Palette, Tile};
use lib::emulator::gpu::{LCDMode, GPU};
use lib::emulator::memory::Memory;

#[test]
fn gpu_mode_switching() {
    let mut mem = Memory::new();
    mem.write_byte(0xFF40, 0b1000_0000); // Enable LCD, bit 7
    assert_eq!(mem.gpu.get_lcd_mode_flag(), LCDMode::HBlankPeriod);
    mem.gpu.cycle(204);
    assert_eq!(mem.gpu.get_lcd_mode_flag(), LCDMode::UsingOAMPeriod);
    assert_eq!(mem.gpu.ly, 1);
    mem.gpu.cycle(81); // One extra to carry over
    assert_eq!(mem.gpu.get_lcd_mode_flag(), LCDMode::UsingVRAMPeriod);
    mem.gpu.cycle(171); // One less to adjust for previous
    assert_eq!(mem.gpu.get_lcd_mode_flag(), LCDMode::HBlankPeriod);
    for _i in 0..8 * 143 {
        mem.gpu.cycle(57); // Should be at VBlank now
    }
    assert_eq!(mem.gpu.get_lcd_mode_flag(), LCDMode::VBlankPeriod);
    assert_eq!(mem.gpu.ly, 144);
}

#[test]
fn gpu_scanline_takes_456_cycles() {
    let mut gpu = GPU::new();
    gpu.write_byte(0xFF40, 0x80);
    gpu.cycle(204); // HBlank of line 0 ends, line 1 starts with OAM search
    assert_eq!(gpu.ly, 1);
    assert_eq!(gpu.get_lcd_mode_flag(), LCDMode::UsingOAMPeriod);
    assert_eq!(gpu.clock_cycles, 0);
    gpu.cycle(80);
    assert_eq!(gpu.get_lcd_mode_flag(), LCDMode::UsingVRAMPeriod);
    assert!(!gpu.scanline_draw_requested);
    gpu.cycle(172);
    assert_eq!(gpu.get_lcd_mode_flag(), LCDMode::HBlankPeriod);
    assert!(gpu.scanline_draw_requested);
    gpu.cycle(204);
    assert_eq!(gpu.get_lcd_mode_flag(), LCDMode::UsingOAMPeriod);
    assert_eq!(gpu.ly, 2);
    assert_eq!(gpu.clock_cycles, 0);
}

#[test]
fn gpu_vblank_requests_frame_and_interrupt() {
    let mut gpu = GPU::new();
    gpu.write_byte(0xFF40, 0x80);
    gpu.write_byte(0xFF44, 143);
    gpu.cycle(204);
    assert_eq!(gpu.ly, 144);
    assert_eq!(gpu.get_lcd_mode_flag(), LCDMode::VBlankPeriod);
    assert!(gpu.screen_draw_requested);
    assert!(gpu.vblank_interrupt_requested);
    // 10 lines of vertical blank, then line 0 again
    for _i in 0..10 {
        gpu.cycle(456);
    }
    assert_eq!(gpu.ly, 0);
    assert_eq!(gpu.get_lcd_mode_flag(), LCDMode::UsingOAMPeriod);
}

#[test]
fn gpu_stat_interrupts() {
    let mut gpu = GPU::new();
    // LYC interrupt enabled (STAT bit 6), LYC = 1
    gpu.write_byte(0xFF41, 0x40);
    gpu.write_byte(0xFF45, 1);
    gpu.write_byte(0xFF40, 0x80);
    gpu.cycle(204);
    assert_eq!(gpu.ly, 1);
    assert!(gpu.stat_interrupt_requested);

    // HBlank interrupt enabled (STAT bit 3)
    let mut gpu = GPU::new();
    gpu.write_byte(0xFF41, 0x08);
    gpu.write_byte(0xFF40, 0x80);
    gpu.write_byte(0xFF41, 0x0B); // mode bits 3: pixel transfer
    gpu.cycle(172);
    assert_eq!(gpu.get_lcd_mode_flag(), LCDMode::HBlankPeriod);
    assert!(gpu.stat_interrupt_requested);
}

#[test]
fn gpu_lcd_off_resets_line() {
    let mut gpu = GPU::new();
    gpu.write_byte(0xFF40, 0x80);
    gpu.cycle(204);
    gpu.cycle(100);
    assert_eq!(gpu.ly, 1);
    gpu.write_byte(0xFF40, 0x00);
    assert_eq!(gpu.ly, 0);
    assert_eq!(gpu.clock_cycles, 0);
    assert_eq!(gpu.get_lcd_mode_flag(), LCDMode::HBlankPeriod);
    // With the LCD off nothing moves
    gpu.cycle(1000);
    assert_eq!(gpu.ly, 0);
    assert_eq!(gpu.clock_cycles, 0);
}

#[test]
fn gpu_registers_read_back() {
    let mut gpu = GPU::new();
    for (i, addr) in (0xFF42usize..=0xFF4B).enumerate() {
        gpu.write_byte(addr, 10 + i as u8);
    }
    for (i, addr) in (0xFF42usize..=0xFF4B).enumerate() {
        assert_eq!(gpu.read_byte(addr), 10 + i as u8);
    }
    gpu.write_byte(0x8123, 0x77);
    assert_eq!(gpu.read_byte(0x8123), 0x77);
    gpu.write_byte(0xFE9F, 0x55);
    assert_eq!(gpu.read_byte(0xFE9F), 0x55);
    assert!(gpu.state_modified);
}

#[test]
fn tile_is_decoded_from_vram() {
    let mut gpu = GPU::new();
    // Row 0 of tile 1: low bits 0x3C, high bits 0x7E
    gpu.write_byte(0x8010, 0x3C);
    gpu.write_byte(0x8011, 0x7E);
    let tile = gpu.draw_helper.tile_data.tiles[1];
    assert_eq!(&tile.pixels[0..8], &[0, 2, 3, 3, 3, 3, 2, 0]);
    // Row 1 untouched
    assert_eq!(&tile.pixels[8..16], &[0; 8]);
    // The tile map is not tile data
    gpu.write_byte(0x9800, 0xFF);
    assert_eq!(gpu.draw_helper.tile_data.tiles[1].pixels[1], 2);
    assert_eq!(gpu.get_tilemap_id(0, 0, false), 0xFF);
    gpu.write_byte(0x9C21, 7);
    assert_eq!(gpu.get_tilemap_id(1, 1, true), 7);
}

#[test]
fn tile_generate_and_pixel_colors() {
    let mut vram = [0u8; 8192];
    for y in 0..8 {
        vram[32 + 2 * y] = 0xFF;
        vram[32 + 2 * y + 1] = 0x00;
    }
    let mut tile = Tile::new();
    tile.generate(32, &vram);
    assert!(tile.pixels.iter().all(|p| *p == 1));
    let palette = Palette::new_bg();
    assert_eq!(tile.get_pixel(3, 4, &palette), Color { r: 170, g: 170, b: 170, a: 255 });
    tile.set_pixel(2, 1, 3);
    assert_eq!(tile.pixels[10], 3);
    assert_eq!(tile.get_pixel(2, 1, &palette), Color { r: 0, g: 0, b: 0, a: 255 });
}

#[test]
fn palettes_follow_registers() {
    let mut gpu = GPU::new();
    // Reversed background palette: color 0 is black, 3 is white
    gpu.write_byte(0xFF47, 0b0001_1011);
    assert_eq!(gpu.draw_helper.background_palette.get_color(0), Color { r: 0, g: 0, b: 0, a: 255 });
    assert_eq!(gpu.draw_helper.background_palette.get_color(3), Color { r: 255, g: 255, b: 255, a: 255 });
    // Sprite palettes keep color 0 transparent
    gpu.write_byte(0xFF48, 0xFF);
    assert_eq!(gpu.draw_helper.sprite_palette_1.get_color(0).a, 0);
    assert_eq!(gpu.draw_helper.sprite_palette_1.get_color(1), Color { r: 0, g: 0, b: 0, a: 255 });
    let mut p = Palette::new_sprite();
    p.update_sprite(0b1110_0100);
    assert_eq!(p.get_color(2), Color { r: 85, g: 85, b: 85, a: 255 });
    assert_eq!(p.get_color_from_bits(1), Color { r: 170, g: 170, b: 170, a: 255 });
}

#[test]
fn sprites_follow_oam() {
    let mut gpu = GPU::new();
    gpu.write_byte(0xFE04, 16);
    gpu.write_byte(0xFE05, 8);
    gpu.write_byte(0xFE06, 5);
    gpu.write_byte(0xFE07, 0b1010_0000);
    let sprite = gpu.draw_helper.sprite_data.get_sprite(1);
    assert_eq!(sprite.y, 16);
    assert_eq!(sprite.x, 8);
    assert_eq!(sprite.tile_id, 5);
    assert!(sprite.below_background);
    assert!(!sprite.flip_y);
    assert!(sprite.flip_x);
    assert!(!sprite.palette_select);
}

#[test]
fn signed_tile_ids() {
    let mut gpu = GPU::new();
    // Tile 256 (0x9000) row 0 color 1 everywhere
    gpu.write_byte(0x9000, 0xFF);
    // Tile 128 (0x8800) row 0 color 2 everywhere
    gpu.write_byte(0x8801, 0xFF);
    let dh = &gpu.draw_helper;
    assert_eq!(dh.tile_data.get_tile(0, false).pixels[0], 1);
    assert_eq!(dh.tile_data.get_tile(0, true).pixels[0], 0);
    assert_eq!(dh.tile_data.get_tile(128, false).pixels[0], 2);
    assert_eq!(dh.tile_data.get_tile(128, true).pixels[0], 2);
}
