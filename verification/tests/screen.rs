use lib::emulator::gpu::GPU;
use lib::emulator::screen::Screen;

fn black_tile_gpu() -> GPU {
    let mut gpu = GPU::new();
    // Tile 0: color 3 everywhere
    for a in 0x8000..0x8010 {
        gpu.write_byte(a, 0xFF);
    }
    gpu.write_byte(0xFF47, 0b1110_0100);
    gpu
}

#[test]
fn screen_starts_white() {
    let screen = Screen::new();
    assert!(screen.bitmap.iter().all(|b| *b == 255));
}

#[test]
fn background_line_is_drawn() {
    let mut gpu = black_tile_gpu();
    // LCD on, background on, tile data at 0x8000
    gpu.write_byte(0xFF40, 0b1001_0001);
    let mut screen = Screen::new();
    screen.draw_line(&gpu);
    assert_eq!(&screen.bitmap[0..3], &[0, 0, 0]);
    assert_eq!(&screen.bitmap[477..480], &[0, 0, 0]);
    // Line 1 untouched
    assert_eq!(screen.bitmap[480], 255);
}

#[test]
fn background_off_leaves_line() {
    let mut gpu = black_tile_gpu();
    gpu.write_byte(0xFF40, 0b1001_0000);
    let mut screen = Screen::new();
    screen.draw_line(&gpu);
    assert!(screen.bitmap.iter().all(|b| *b == 255));
}

#[test]
fn sprite_is_drawn_over_background() {
    let mut gpu = GPU::new();
    // Tile 1: color 1 everywhere
    for y in 0..8 {
        gpu.write_byte(0x8010 + 2 * y, 0xFF);
    }
    gpu.write_byte(0xFF48, 0b1110_0100);
    // Sprite 0 at screen (0, 0): y = 16, x = 8, tile 1
    gpu.write_byte(0xFE00, 16);
    gpu.write_byte(0xFE01, 8);
    gpu.write_byte(0xFE02, 1);
    gpu.write_byte(0xFE03, 0);
    // LCD on, sprites on, background off
    gpu.write_byte(0xFF40, 0b1000_0010);
    let mut screen = Screen::new();
    screen.draw_line(&gpu);
    assert_eq!(&screen.bitmap[0..3], &[170, 170, 170]);
    assert_eq!(&screen.bitmap[21..24], &[170, 170, 170]);
    assert_eq!(&screen.bitmap[24..27], &[255, 255, 255]);
}

#[test]
fn at_most_ten_sprites_per_line() {
    let mut gpu = GPU::new();
    for y in 0..8 {
        gpu.write_byte(0x8010 + 2 * y, 0xFF);
    }
    gpu.write_byte(0xFF48, 0b1110_0100);
    // 12 sprites side by side on line 0
    for i in 0..12usize {
        gpu.write_byte(0xFE00 + 4 * i, 16);
        gpu.write_byte(0xFE01 + 4 * i, (8 + 8 * i) as u8);
        gpu.write_byte(0xFE02 + 4 * i, 1);
        gpu.write_byte(0xFE03 + 4 * i, 0);
    }
    gpu.write_byte(0xFF40, 0b1000_0010);
    let mut screen = Screen::new();
    screen.draw_line(&gpu);
    // Sprite 9 covers columns 72-79, sprite 10 would cover 80-87
    assert_eq!(screen.bitmap[79 * 3], 170);
    assert_eq!(screen.bitmap[80 * 3], 255);
}

#[test]
fn window_line_is_drawn() {
    let mut gpu = black_tile_gpu();
    // Window at screen column 10 (WX = 17), from line 0
    gpu.write_byte(0xFF4B, 17);
    gpu.write_byte(0xFF4A, 0);
    // LCD on, background and window on, tile data 0x8000, background tile map
    // 0x9C00 (tile 0 there too)
    gpu.write_byte(0xFF40, 0b1011_1001);
    let mut screen = Screen::new();
    screen.draw_line(&gpu);
    assert_eq!(&screen.bitmap[30..33], &[0, 0, 0]);
}

#[test]
fn frame_is_drawn_from_window_position() {
    let mut gpu = black_tile_gpu();
    gpu.write_byte(0xFF40, 0b1001_0001);
    let mut screen = Screen::new();
    screen.draw_frame(&gpu);
    assert!(screen.bitmap.iter().all(|b| *b == 0));
}
