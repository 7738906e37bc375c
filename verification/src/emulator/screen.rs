//! The screen: a 160x144 RGB bitmap drawn line by line from the state of the
//! graphics unit.
use vstd::prelude::*;
use crate::emulator::gpu::{GPU, bit};
use crate::emulator::gpu::draw_helper::{Color, DrawHelper, Sprite, sprite_from_oam};

verus! {

pub const SCREEN_WIDTH: usize = 160;

pub const SCREEN_HEIGHT: usize = 144;

/// Bytes in one line of the bitmap (3 per pixel).
pub const LINE_BYTES: usize = 480;

/// Bytes in the bitmap.
pub const BITMAP_BYTES: usize = 69120;

/// Channel `k` (0 red, 1 green, 2 blue) of a color.
pub open spec fn channel(c: Color, k: int) -> u8 {
    if k == 0 {
        c.r
    } else if k == 1 {
        c.g
    } else {
        c.b
    }
}

/// `bm` with pixels `lo..hi` of line `line_y` colored by `f`.
pub open spec fn paint_row(bm: Seq<u8>, line_y: int, lo: int, hi: int, f: spec_fn(int) -> Color) -> Seq<u8> {
    Seq::new(
        bm.len(),
        |i: int|
            if line_y * 480 + lo * 3 <= i < line_y * 480 + hi * 3 {
                channel(f((i - line_y * 480) / 3), (i - line_y * 480) % 3)
            } else {
                bm[i]
            },
    )
}

/// Painting one more pixel of a row sets its three bytes.
proof fn lemma_paint_step(bm: Seq<u8>, line_y: int, lo: int, x: int, f: spec_fn(int) -> Color)
    requires
        0 <= line_y < 144,
        lo <= x < 160,
        0 <= x,
        bm.len() == 69120,
    ensures
        ({
            let b = line_y * 480 + x * 3;
            let c = f(x);
            paint_row(bm, line_y, lo, x + 1, f) == paint_row(bm, line_y, lo, x, f).update(b, c.r).update(
                b + 1,
                c.g,
            ).update(b + 2, c.b)
        }),
{
    let b = line_y * 480 + x * 3;
    let c = f(x);
    let lhs = paint_row(bm, line_y, lo, x + 1, f);
    let rhs = paint_row(bm, line_y, lo, x, f).update(b, c.r).update(b + 1, c.g).update(b + 2, c.b);
    assert forall|i: int| 0 <= i < 69120 implies #[trigger] lhs[i] == rhs[i] by {
        if b <= i < b + 3 {
            assert((i - line_y * 480) / 3 == x);
            assert((i - line_y * 480) % 3 == i - b);
        }
    }
    assert(lhs =~= rhs);
}

/// The tile id at column `tx`, row `ty` of a tile map (0x9C00 when `select`,
/// else 0x9800).
pub open spec fn tilemap_entry(vram: Seq<u8>, tx: int, ty: int, select: bool) -> u8 {
    if select {
        vram[0x1C00 + ty * 32 + tx]
    } else {
        vram[0x1800 + ty * 32 + tx]
    }
}

/// The background color at column `x` of line `line_y`, scrolled by (`cx`,
/// `cy`), both wrapping at 256.
pub open spec fn bg_color(gpu: &GPU, line_y: int, cx: int, cy: int, x: int, select: bool) -> Color {
    let y = (line_y + cy) % 256;
    let mx = (cx + x) % 256;
    gpu.draw_helper.bg_pixel(
        tilemap_entry(gpu.video_ram@, mx / 8, y / 8, select),
        mx % 8,
        y % 8,
        bit(gpu.lcd_control, 4),
    )
}

/// The window color at window column `mx` of line `line_y`, for a window whose
/// top is at `cy`.
pub open spec fn window_color(gpu: &GPU, line_y: int, cy: int, mx: int, select: bool) -> Color {
    let y = line_y - cy;
    gpu.draw_helper.bg_pixel(
        tilemap_entry(gpu.video_ram@, mx / 8, y / 8, select),
        mx % 8,
        y % 8,
        bit(gpu.lcd_control, 4),
    )
}

/// Whether a sprite covers a line; `line_y` is the screen line plus 9 for 8x8
/// sprites or plus 1 for 8x16 sprites.
pub open spec fn within_line(line_y: int, sprite: Sprite, height: int) -> bool {
    sprite.y > 0 && sprite.y >= line_y && sprite.y < line_y + height
}

/// Whether a sprite is drawn on screen line `line_y`.
pub open spec fn sprite_on_line(sprite: Sprite, line_y: int, double: bool) -> bool {
    if double {
        within_line(line_y + 1, sprite, 16)
    } else {
        within_line(line_y + 9, sprite, 8)
    }
}

/// The color of tile column `x` of a sprite on screen line `line_y`.
pub open spec fn sprite_color(dh: DrawHelper, sprite: Sprite, line_y: int, x: int, double: bool) -> Color {
    if double {
        let raw = if !sprite.flip_y {
            15 - (sprite.y - (line_y + 1))
        } else {
            sprite.y - (line_y + 1)
        };
        let tile_id = if raw > 7 {
            ((sprite.tile_id & 0b1111_1110) + 1) as u8
        } else {
            sprite.tile_id & 0b1111_1110
        };
        dh.sprite_pixel(tile_id, x, raw % 8, true, sprite, true)
    } else {
        dh.sprite_pixel(sprite.tile_id, x, 7 - (sprite.y - (line_y + 9)), true, sprite, false)
    }
}

/// The first tile column of a sprite that is on screen.
pub open spec fn sprite_first_col(sprite: Sprite) -> int {
    if sprite.x - 8 < 0 {
        8 - sprite.x
    } else {
        0
    }
}

/// One past the last tile column of a sprite that is on screen.
pub open spec fn sprite_end_col(sprite: Sprite) -> int {
    let w = 160 - (sprite.x - 8);
    if w < 0 {
        0
    } else if w > 8 {
        8
    } else {
        w
    }
}

/// `bm` with tile columns below `upto` of a sprite drawn on line `line_y`.
/// Transparent pixels are skipped, and an 8x8 sprite behind the background
/// only covers pixels whose red channel is 255.
pub open spec fn sprite_row(
    bm: Seq<u8>,
    line_y: int,
    dh: DrawHelper,
    sprite: Sprite,
    double: bool,
    upto: int,
) -> Seq<u8> {
    Seq::new(
        bm.len(),
        |i: int|
            {
                let col = (i - line_y * 480) / 3;
                let x = col - (sprite.x - 8);
                if line_y * 480 <= i < line_y * 480 + 480 && sprite_first_col(sprite) <= x < upto && x
                    < sprite_end_col(sprite) {
                    let c = sprite_color(dh, sprite, line_y, x, double);
                    if c.a > 0 && (double || !sprite.below_background || bm[line_y * 480 + col * 3]
                        == 255) {
                        channel(c, (i - line_y * 480) % 3)
                    } else {
                        bm[i]
                    }
                } else {
                    bm[i]
                }
            },
    )
}

/// The bitmap and the number of sprites drawn after the first `n` sprites of a
/// line; once 10 are drawn, later sprites are skipped.
pub open spec fn sprite_pass(bm: Seq<u8>, line_y: int, dh: DrawHelper, double: bool, n: nat) -> (Seq<u8>, int)
    decreases n,
{
    if n == 0 {
        (bm, 0)
    } else {
        let (b, c) = sprite_pass(bm, line_y, dh, double, (n - 1) as nat);
        let s = dh.sprite_data.sprites@[n - 1];
        if c >= 10 || !sprite_on_line(s, line_y, double) {
            (b, c)
        } else {
            (sprite_row(b, line_y, dh, s, double, 8), c + 1)
        }
    }
}

/// Drawing one more tile column of a sprite sets the three bytes of its pixel,
/// or nothing for a skipped pixel.
proof fn lemma_sprite_row_step(bm: Seq<u8>, line_y: int, dh: DrawHelper, sprite: Sprite, double: bool, x: int)
    requires
        0 <= line_y < 144,
        sprite_first_col(sprite) <= x < sprite_end_col(sprite),
        bm.len() == 69120,
    ensures
        ({
            let idx = line_y * 480 + (sprite.x - 8 + x) * 3;
            let c = sprite_color(dh, sprite, line_y, x, double);
            let cond = c.a > 0 && (double || !sprite.below_background || bm[idx] == 255);
            &&& 0 <= idx && idx + 2 < 69120
            &&& sprite_row(bm, line_y, dh, sprite, double, x)[idx] == bm[idx]
            &&& sprite_row(bm, line_y, dh, sprite, double, x + 1) == if cond {
                sprite_row(bm, line_y, dh, sprite, double, x).update(idx, c.r).update(idx + 1, c.g).update(
                    idx + 2,
                    c.b,
                )
            } else {
                sprite_row(bm, line_y, dh, sprite, double, x)
            }
        }),
{
    let idx = line_y * 480 + (sprite.x - 8 + x) * 3;
    let c = sprite_color(dh, sprite, line_y, x, double);
    let cond = c.a > 0 && (double || !sprite.below_background || bm[idx] == 255);
    let prev = sprite_row(bm, line_y, dh, sprite, double, x);
    let next = sprite_row(bm, line_y, dh, sprite, double, x + 1);
    let rhs = if cond {
        prev.update(idx, c.r).update(idx + 1, c.g).update(idx + 2, c.b)
    } else {
        prev
    };
    assert((idx - line_y * 480) / 3 == sprite.x - 8 + x);
    assert forall|i: int| 0 <= i < 69120 implies #[trigger] next[i] == rhs[i] by {
        if idx <= i < idx + 3 {
            assert((i - line_y * 480) / 3 == sprite.x - 8 + x);
            assert((i - line_y * 480) % 3 == i - idx);
        }
    }
    assert(next =~= rhs);
}

proof fn lemma_sprite_pass_stops(bm: Seq<u8>, line_y: int, dh: DrawHelper, double: bool, n: nat, m: nat)
    requires
        n <= m,
        sprite_pass(bm, line_y, dh, double, n).1 >= 10,
    ensures
        sprite_pass(bm, line_y, dh, double, m) == sprite_pass(bm, line_y, dh, double, n),
    decreases m - n,
{
    if n < m {
        lemma_sprite_pass_stops(bm, line_y, dh, double, n, (m - 1) as nat);
    }
}

/// Sprite positions come from OAM bytes.
pub open spec fn sprites_in_range(dh: DrawHelper) -> bool {
    forall|i: int| 0 <= i < 40 ==> #[trigger] dh.sprite_data.sprites@[i].x < 256 && dh.sprite_data.sprites@[i].y
        < 256
}

/// The screen.
pub struct Screen {
    pub bitmap: [u8; 69120],
    pub previous_scroll: usize,
}

impl Screen {
    /// A white screen.
    pub fn new() -> (s: Screen)
        ensures
            s.bitmap@ == Seq::new(69120, |i: int| 255u8),
            s.previous_scroll == 0,
    {
        let s = Screen { bitmap: [255; 69120], previous_scroll: 0 };
        assert(s.bitmap@ =~= Seq::new(69120, |i: int| 255u8));
        s
    }

    /// Draw every line from the tile map and position of the window (the
    /// background pass with the scroll position is drawn first and then fully
    /// covered).
    pub fn draw_frame(&mut self, gpu: &GPU)
        requires
            gpu.wf(),
        ensures
            final(self).bitmap@ == Seq::new(
                69120,
                |i: int|
                    channel(
                        bg_color(
                            gpu,
                            i / 480,
                            gpu.window_x as int,
                            gpu.window_y as int,
                            (i % 480) / 3,
                            bit(gpu.lcd_control, 6),
                        ),
                        i % 3,
                    ),
            ),
            final(self).previous_scroll == old(self).previous_scroll,
    {
        let mut ly: usize = 0;
        while ly < SCREEN_HEIGHT
            invariant
                ly <= 144,
                gpu.wf(),
                self.previous_scroll == old(self).previous_scroll,
                forall|i: int|
                    0 <= i < ly * 480 ==> #[trigger] self.bitmap@[i] == channel(
                        bg_color(
                            gpu,
                            i / 480,
                            gpu.window_x as int,
                            gpu.window_y as int,
                            (i % 480) / 3,
                            bit(gpu.lcd_control, 6),
                        ),
                        i % 3,
                    ),
            decreases 144 - ly,
        {
            self.draw_bg_line(ly, gpu.scroll_x as usize, gpu.scroll_y as usize, gpu, gpu.get_bg_tile_map());
            self.draw_bg_line(ly, gpu.window_x as usize, gpu.window_y as usize, gpu, gpu.get_window_tile_map());
            proof {
                assert forall|i: int| 0 <= i < (ly + 1) * 480 implies #[trigger] self.bitmap@[i] == channel(
                    bg_color(
                        gpu,
                        i / 480,
                        gpu.window_x as int,
                        gpu.window_y as int,
                        (i % 480) / 3,
                        bit(gpu.lcd_control, 6),
                    ),
                    i % 3,
                ) by {
                    if i >= ly * 480 {
                        assert(i / 480 == ly);
                        assert((i - ly * 480) / 3 == (i % 480) / 3);
                        assert((i - ly * 480) % 3 == i % 3);
                    }
                }
            }
            ly += 1;
        }
        assert(self.bitmap@ =~= Seq::new(
            69120,
            |i: int|
                channel(
                    bg_color(
                        gpu,
                        i / 480,
                        gpu.window_x as int,
                        gpu.window_y as int,
                        (i % 480) / 3,
                        bit(gpu.lcd_control, 6),
                    ),
                    i % 3,
                ),
        ));
    }

    /// Draw line LY: background and window when LCDC bit 0 is set (the window
    /// only when it is enabled), then the sprites when they are enabled.
    pub fn draw_line(&mut self, gpu: &GPU)
        requires
            gpu.wf(),
            gpu.ly < 144,
            bit(gpu.lcd_control, 0) && bit(gpu.lcd_control, 5) && gpu.ly >= gpu.window_y ==> gpu.window_x >= 7,
        ensures
            ({
                let ly = gpu.ly as int;
                let b0 = old(self).bitmap@;
                let b1 = if bit(gpu.lcd_control, 0) {
                    paint_row(
                        b0,
                        ly,
                        0,
                        160,
                        |x: int|
                            bg_color(
                                gpu,
                                ly,
                                gpu.scroll_x as int,
                                gpu.scroll_y as int,
                                x,
                                bit(gpu.lcd_control, 3),
                            ),
                    )
                } else {
                    b0
                };
                let b2 = if bit(gpu.lcd_control, 0) && bit(gpu.lcd_control, 5) && ly >= gpu.window_y {
                    paint_row(
                        b1,
                        ly,
                        gpu.window_x - 7,
                        160,
                        |x: int|
                            window_color(
                                gpu,
                                ly,
                                gpu.window_y as int,
                                x - (gpu.window_x - 7),
                                bit(gpu.lcd_control, 6),
                            ),
                    )
                } else {
                    b1
                };
                let b3 = if bit(gpu.lcd_control, 1) {
                    sprite_pass(b2, ly, gpu.draw_helper, bit(gpu.lcd_control, 2), 40).0
                } else {
                    b2
                };
                final(self).bitmap@ == b3
            }),
            final(self).previous_scroll == gpu.scroll_x as usize,
    {
        if gpu.get_bg_enable() {
            self.draw_bg_line(gpu.ly as usize, gpu.scroll_x as usize, gpu.scroll_y as usize, gpu, gpu.get_bg_tile_map());
            if gpu.should_draw_window() {
                self.draw_window_line(
                    gpu.ly as usize,
                    gpu.window_x as usize,
                    gpu.window_y as usize,
                    gpu,
                    gpu.get_window_tile_map(),
                );
            }
        }
        proof {
            assert forall|i: int| 0 <= i < 40 implies #[trigger] gpu.draw_helper.sprite_data.sprites@[i].x < 256
                && gpu.draw_helper.sprite_data.sprites@[i].y < 256 by {
                assert(gpu.draw_helper.sprite_data.sprites@[i] == sprite_from_oam(gpu.oam_ram@, i));
            }
        }
        if gpu.should_draw_sprites() {
            if !gpu.get_sprite_tile_size() {
                self.draw_sprite_line(gpu.ly as usize, &gpu.draw_helper)
            } else {
                self.draw_double_sprite_line(gpu.ly as usize, &gpu.draw_helper)
            }
        }
        self.previous_scroll = gpu.scroll_x as usize;
    }

    /// Draw the 160 background pixels of a line, scrolled by (`cx`, `cy`).
    #[verifier::rlimit(40)]
    pub fn draw_bg_line(&mut self, line_y: usize, cx: usize, cy: usize, gpu: &GPU, tilemap_select: bool)
        requires
            gpu.wf(),
            line_y < 144,
            cx < 256,
            cy < 256,
        ensures
            final(self).bitmap@ == paint_row(
                old(self).bitmap@,
                line_y as int,
                0,
                160,
                |x: int| bg_color(gpu, line_y as int, cx as int, cy as int, x, tilemap_select),
            ),
            final(self).previous_scroll == old(self).previous_scroll,
    {
        let ghost f = |x: int| bg_color(gpu, line_y as int, cx as int, cy as int, x, tilemap_select);
        let y = (line_y + cy) % 256;
        let tile_data_y = y / 8;
        let tile_y = y % 8;
        let mut mx: u8 = cx as u8;
        let mut x: usize = 0;
        while x < SCREEN_WIDTH
            invariant
                x <= 160,
                gpu.wf(),
                line_y < 144,
                cx < 256,
                y == (line_y + cy) % 256,
                tile_data_y == y / 8,
                tile_y == y % 8,
                mx == (cx + x) % 256,
                f == (|x: int| bg_color(gpu, line_y as int, cx as int, cy as int, x, tilemap_select)),
                self.bitmap@ == paint_row(old(self).bitmap@, line_y as int, 0, x as int, f),
                self.previous_scroll == old(self).previous_scroll,
            decreases 160 - x,
        {
            let tile_id = gpu.get_tilemap_id((mx as usize) / 8, tile_data_y, tilemap_select);
            let color = gpu.draw_helper.get_bg_tile_pixel(tile_id, (mx % 8) as usize, tile_y, gpu.get_tile_data());
            assert(color == f(x as int));
            let base = line_y * SCREEN_WIDTH * 3 + x * 3;
            self.bitmap[base + 0] = color.r;
            self.bitmap[base + 1] = color.g;
            self.bitmap[base + 2] = color.b;
            proof {
                lemma_paint_step(old(self).bitmap@, line_y as int, 0, x as int, f);
            }
            proof {
                if mx == 255 {
                    assert(cx + x + 1 == 256 || cx + x + 1 == 512);
                } else {
                    assert((cx + x) % 256 + 1 == (cx + x + 1) % 256);
                }
            }
            mx = mx.wrapping_add(1);
            x += 1;
        }
    }

    /// Draw the window part of a line: from screen column `cx - 7`, window
    /// column 0 onwards, for lines at or below the window top `cy`.
    pub fn draw_window_line(&mut self, line_y: usize, cx: usize, cy: usize, gpu: &GPU, tilemap_select: bool)
        requires
            gpu.wf(),
            line_y < 144,
            cx < 256,
            line_y >= cy ==> cx >= 7,
        ensures
            line_y < cy ==> final(self).bitmap@ == old(self).bitmap@,
            line_y >= cy ==> final(self).bitmap@ == paint_row(
                old(self).bitmap@,
                line_y as int,
                cx - 7,
                160,
                |x: int| window_color(gpu, line_y as int, cy as int, x - (cx - 7), tilemap_select),
            ),
            final(self).previous_scroll == old(self).previous_scroll,
    {
        if line_y < cy {
            return;
        }
        let ghost f = |x: int| window_color(gpu, line_y as int, cy as int, x - (cx - 7), tilemap_select);
        let y = line_y - cy;
        let tile_data_y = y / 8;
        let tile_y = y % 8;
        let mut mx: usize = 0;
        let mut x: usize = cx - 7;
        if x >= SCREEN_WIDTH {
            assert(self.bitmap@ =~= paint_row(old(self).bitmap@, line_y as int, cx - 7, 160, f));
            return;
        }
        while x < SCREEN_WIDTH
            invariant
                cx - 7 <= x <= 160,
                gpu.wf(),
                line_y < 144,
                cx < 256,
                cx >= 7,
                line_y >= cy,
                y == line_y - cy,
                tile_data_y == y / 8,
                tile_y == y % 8,
                mx == x - (cx - 7),
                f == (|x: int| window_color(gpu, line_y as int, cy as int, x - (cx - 7), tilemap_select)),
                self.bitmap@ == paint_row(old(self).bitmap@, line_y as int, cx - 7, x as int, f),
                self.previous_scroll == old(self).previous_scroll,
            decreases 160 - x,
        {
            let tile_id = gpu.get_tilemap_id(mx / 8, tile_data_y, tilemap_select);
            let color = gpu.draw_helper.get_bg_tile_pixel(tile_id, mx % 8, tile_y, gpu.get_tile_data());
            assert(color == f(x as int));
            let base = line_y * SCREEN_WIDTH * 3 + x * 3;
            self.bitmap[base + 0] = color.r;
            self.bitmap[base + 1] = color.g;
            self.bitmap[base + 2] = color.b;
            proof {
                lemma_paint_step(old(self).bitmap@, line_y as int, cx - 7, x as int, f);
            }
            mx += 1;
            x += 1;
        }
    }

    /// Draw one sprite's tile columns on a line.
    fn draw_sprite_row(&mut self, line_y: usize, draw_helper: &DrawHelper, sprite: &Sprite, double: bool)
        requires
            line_y < 144,
            draw_helper.tile_data.wf(),
            sprite.x < 256,
            sprite.y < 256,
            sprite_on_line(*sprite, line_y as int, double),
        ensures
            final(self).bitmap@ == sprite_row(old(self).bitmap@, line_y as int, *draw_helper, *sprite, double, 8),
            final(self).previous_scroll == old(self).previous_scroll,
    {
        let ghost b0 = self.bitmap@;
        let start_x: isize = sprite.x as isize - 8;
        let tile_x: usize = if start_x < 0 {
            (0 - start_x) as usize
        } else {
            0
        };
        let w: isize = 160 - start_x;
        let tile_x_end: usize = if w < 0 {
            0
        } else if w > 8 {
            8
        } else {
            w as usize
        };
        let mut tile_y: usize;
        let mut tile_id: u8;
        if double {
            if !sprite.flip_y {
                tile_y = 15 - (sprite.y - (line_y + 1));
            } else {
                tile_y = sprite.y - (line_y + 1);
            }
            if tile_y > 7 {
                let t = sprite.tile_id;
                assert(t & 0b1111_1110 < 255) by (bit_vector);
                tile_id = (sprite.tile_id & 0b1111_1110) + 1;
            } else {
                tile_id = sprite.tile_id & 0b1111_1110;
            }
            tile_y = tile_y % 8;
        } else {
            tile_y = 7 - (sprite.y - (line_y + 9));
            tile_id = sprite.tile_id;
        }
        let mut x: usize = tile_x;
        if x >= tile_x_end {
            assert(self.bitmap@ =~= sprite_row(b0, line_y as int, *draw_helper, *sprite, double, 8));
            return;
        }
        while x < tile_x_end
            invariant
                tile_x <= x <= tile_x_end <= 8,
                tile_x == sprite_first_col(*sprite),
                tile_x_end == sprite_end_col(*sprite),
                start_x == sprite.x - 8,
                tile_y < 8,
                line_y < 144,
                draw_helper.tile_data.wf(),
                forall|c: int|
                    0 <= c < 8 ==> #[trigger] draw_helper.sprite_pixel(tile_id, c, tile_y as int, true, *sprite, double)
                        == sprite_color(*draw_helper, *sprite, line_y as int, c, double),
                self.bitmap@ == sprite_row(b0, line_y as int, *draw_helper, *sprite, double, x as int),
                self.previous_scroll == old(self).previous_scroll,
                b0 == old(self).bitmap@,
            decreases tile_x_end - x,
        {
            let color = draw_helper.get_sprite_tile_pixel(tile_id, x, tile_y, true, sprite, double);
            let bitmap_index = line_y * SCREEN_WIDTH * 3 + ((start_x + x as isize) as usize) * 3;
            proof {
                lemma_sprite_row_step(b0, line_y as int, *draw_helper, *sprite, double, x as int);
            }
            if color.a > 0 && (double || !sprite.below_background || self.bitmap[bitmap_index + 0] == 255) {
                self.bitmap[bitmap_index + 0] = color.r;
                self.bitmap[bitmap_index + 1] = color.g;
                self.bitmap[bitmap_index + 2] = color.b;
            }

            x += 1;
        }
        assert(self.bitmap@ =~= sprite_row(b0, line_y as int, *draw_helper, *sprite, double, 8));
    }

    /// Draw the 8x8 sprites of a line, at most 10, in OAM order.
    pub fn draw_sprite_line(&mut self, line_y: usize, draw_helper: &DrawHelper)
        requires
            line_y < 144,
            draw_helper.tile_data.wf(),
            sprites_in_range(*draw_helper),
        ensures
            final(self).bitmap@ == sprite_pass(old(self).bitmap@, line_y as int, *draw_helper, false, 40).0,
            final(self).previous_scroll == old(self).previous_scroll,
    {
        let mut sprite_count: usize = 0;
        let mut i: usize = 0;
        while i < 40
            invariant
                i <= 40,
                line_y < 144,
                draw_helper.tile_data.wf(),
                sprites_in_range(*draw_helper),
                sprite_count == sprite_pass(old(self).bitmap@, line_y as int, *draw_helper, false, i as nat).1,
                self.bitmap@ == sprite_pass(old(self).bitmap@, line_y as int, *draw_helper, false, i as nat).0,
                self.previous_scroll == old(self).previous_scroll,
            decreases 40 - i,
        {
            let sprite = &draw_helper.sprite_data.sprites[i];
            if sprite_count >= 10 {
                proof {
                    lemma_sprite_pass_stops(old(self).bitmap@, line_y as int, *draw_helper, false, i as nat, 40);
                }
                return;
            }
            if self.is_sprite_within_line(line_y + 9, sprite, 8) {
                self.draw_sprite_row(line_y, draw_helper, sprite, false);
                sprite_count += 1;
            }
            i += 1;
        }
    }

    /// Draw the 8x16 sprites of a line, at most 10, in OAM order.
    pub fn draw_double_sprite_line(&mut self, line_y: usize, draw_helper: &DrawHelper)
        requires
            line_y < 144,
            draw_helper.tile_data.wf(),
            sprites_in_range(*draw_helper),
        ensures
            final(self).bitmap@ == sprite_pass(old(self).bitmap@, line_y as int, *draw_helper, true, 40).0,
            final(self).previous_scroll == old(self).previous_scroll,
    {
        let mut sprite_count: usize = 0;
        let mut i: usize = 0;
        while i < 40
            invariant
                i <= 40,
                line_y < 144,
                draw_helper.tile_data.wf(),
                sprites_in_range(*draw_helper),
                sprite_count == sprite_pass(old(self).bitmap@, line_y as int, *draw_helper, true, i as nat).1,
                self.bitmap@ == sprite_pass(old(self).bitmap@, line_y as int, *draw_helper, true, i as nat).0,
                self.previous_scroll == old(self).previous_scroll,
            decreases 40 - i,
        {
            let sprite = &draw_helper.sprite_data.sprites[i];
            if self.is_sprite_within_line(line_y + 1, sprite, 16) {
                if sprite_count >= 10 {
                    proof {
                        lemma_sprite_pass_stops(old(self).bitmap@, line_y as int, *draw_helper, true, i as nat, 40);
                    }
                    return;
                }
                self.draw_sprite_row(line_y, draw_helper, sprite, true);
                sprite_count += 1;
            }
            i += 1;
        }
    }

    /// Whether a sprite covers a line (see `within_line`).
    pub fn is_sprite_within_line(&self, line_y: usize, sprite: &Sprite, height: usize) -> (r: bool)
        requires
            line_y + height <= usize::MAX,
        ensures
            r == within_line(line_y as int, *sprite, height as int),
    {
        sprite.y > 0 && sprite.y >= line_y && sprite.y < line_y + height
    }
}

/// At most 10 sprites are drawn on a line, and drawing sprites changes only
/// the bytes of that line.
pub proof fn lemma_sprite_pass_limit(bm: Seq<u8>, line_y: int, dh: DrawHelper, double: bool, n: nat)
    ensures
        0 <= sprite_pass(bm, line_y, dh, double, n).1 <= 10,
        sprite_pass(bm, line_y, dh, double, n).1 <= n,
        sprite_pass(bm, line_y, dh, double, n).0.len() == bm.len(),
        forall|i: int|
            0 <= i < bm.len() && !(line_y * 480 <= i < line_y * 480 + 480) ==> #[trigger] sprite_pass(
                bm,
                line_y,
                dh,
                double,
                n,
            ).0[i] == bm[i],
    decreases n,
{
    if n > 0 {
        lemma_sprite_pass_limit(bm, line_y, dh, double, (n - 1) as nat);
    }
}

} // verus!
