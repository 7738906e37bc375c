//! Drawing structures kept beside the graphics memory.
//!
//! When a byte of tile data (0x8000-0x97FF) or of OAM (0xFE00-0xFE9F) changes,
//! the matching tile or sprite is rebuilt here, in a form that is quicker to
//! draw from: one palette index per pixel, and sprite attributes as fields.
use vstd::prelude::*;

verus! {

/// A 4-byte RGBA color.
#[derive(Copy, Clone, PartialEq, Eq, Debug, Structural)]
pub struct Color {
    pub r: u8,
    pub g: u8,
    pub b: u8,
    pub a: u8,
}

pub open spec fn spec_color(r: u8, g: u8, b: u8, a: u8) -> Color {
    Color { r, g, b, a }
}

impl Color {
    /// Fully transparent (white with alpha 0).
    pub fn transparent() -> (c: Color)
        ensures
            c == spec_color(255, 255, 255, 0),
    {
        Color { r: 255, g: 255, b: 255, a: 0 }
    }

    pub fn white() -> (c: Color)
        ensures
            c == spec_color(255, 255, 255, 255),
    {
        Color { r: 255, g: 255, b: 255, a: 255 }
    }

    pub fn light_gray() -> (c: Color)
        ensures
            c == spec_color(170, 170, 170, 255),
    {
        Color { r: 170, g: 170, b: 170, a: 255 }
    }

    pub fn dark_gray() -> (c: Color)
        ensures
            c == spec_color(85, 85, 85, 255),
    {
        Color { r: 85, g: 85, b: 85, a: 255 }
    }

    pub fn black() -> (c: Color)
        ensures
            c == spec_color(0, 0, 0, 255),
    {
        Color { r: 0, g: 0, b: 0, a: 255 }
    }
}

/// The four shades in the order of their two-bit color numbers.
pub open spec fn shades() -> Seq<Color> {
    seq![
        spec_color(255, 255, 255, 255),
        spec_color(170, 170, 170, 255),
        spec_color(85, 85, 85, 255),
        spec_color(0, 0, 0, 255),
    ]
}

/// The color number of one pixel: bit `shift` of the low byte and bit `shift`
/// of the high byte of a tile row.
pub open spec fn pixel_bits(lo: u8, hi: u8, shift: u8) -> u8 {
    ((lo >> shift) & 1u8) | (((hi >> shift) & 1u8) << 1u8)
}

/// The 64 color numbers of the tile whose 16 bytes start at `base`: row `y` is
/// stored in bytes `base + 2y` (low bits) and `base + 2y + 1` (high bits), and
/// the leftmost pixel is bit 7.
pub open spec fn tile_pixels(vram: Seq<u8>, base: int) -> Seq<u8> {
    Seq::new(
        64,
        |k: int| pixel_bits(vram[base + 2 * (k / 8)], vram[base + 2 * (k / 8) + 1], (7 - k % 8) as u8),
    )
}

proof fn lemma_pixel_bits(lo: u8, hi: u8, s: u8)
    by (bit_vector)
    requires
        s < 8,
    ensures
        pixel_bits(lo, hi, s) < 4,
        (lo >> s) >> 1u8 == lo >> ((s + 1) as u8),
        (hi >> s) >> 1u8 == hi >> ((s + 1) as u8),
        lo >> 0u8 == lo,
        hi >> 0u8 == hi,
{
}

/// Every color number of a decoded tile is below 4.
pub proof fn lemma_tile_pixels_small(vram: Seq<u8>, base: int)
    ensures
        forall|k: int| 0 <= k < 64 ==> #[trigger] tile_pixels(vram, base)[k] < 4,
{
    assert forall|k: int| 0 <= k < 64 implies #[trigger] tile_pixels(vram, base)[k] < 4 by {
        lemma_pixel_bits(vram[base + 2 * (k / 8)], vram[base + 2 * (k / 8) + 1], (7 - k % 8) as u8);
    }
}

/// An 8x8 tile: one color number per pixel, row by row.
#[derive(Copy, Clone, Debug)]
pub struct Tile {
    pub pixels: [u8; 64],
}

impl Tile {
    /// All color numbers below 4.
    pub open spec fn wf(&self) -> bool {
        forall|k: int| 0 <= k < 64 ==> #[trigger] self.pixels@[k] < 4
    }

    pub fn new() -> (t: Tile)
        ensures
            t.pixels@ == Seq::new(64, |k: int| 0u8),
            t.wf(),
    {
        let t = Tile { pixels: [0; 64] };
        assert(t.pixels@ =~= Seq::new(64, |k: int| 0u8));
        t
    }

    pub fn set_pixel(&mut self, x: usize, y: usize, val: u8)
        requires
            x < 8,
            y < 8,
        ensures
            final(self).pixels@ == old(self).pixels@.update(y * 8 + x, val),
    {
        self.pixels[y * 8 + x] = val;
    }

    pub fn get_pixel(&self, x: usize, y: usize, palette: &Palette) -> (c: Color)
        requires
            x < 8,
            y < 8,
            self.pixels@[y * 8 + x] < 4,
        ensures
            c == palette.palette@[self.pixels@[y * 8 + x] as int],
    {
        palette.get_color(self.pixels[y * 8 + x])
    }

    /// Decode the tile whose 16 bytes start at `addr` of VRAM.
    pub fn generate(&mut self, addr: usize, gpu_vram: &[u8; 8192])
        requires
            addr + 16 <= 8192,
        ensures
            final(self).pixels@ == tile_pixels(gpu_vram@, addr as int),
            final(self).wf(),
    {
        let ghost target = tile_pixels(gpu_vram@, addr as int);
        let mut y: usize = 0;
        while y < 8
            invariant
                y <= 8,
                addr + 16 <= 8192,
                target == tile_pixels(gpu_vram@, addr as int),
                forall|k: int| 0 <= k < y * 8 ==> self.pixels@[k] == #[trigger] target[k],
            decreases 8 - y,
        {
            let lo = gpu_vram[addr + 2 * y];
            let hi = gpu_vram[addr + 2 * y + 1];
            let mut a: u8 = lo;
            let mut b: u8 = hi;
            let mut x: usize = 0;
            proof {
                lemma_pixel_bits(lo, hi, 0);
            }
            while x < 8
                invariant
                    x <= 8,
                    y < 8,
                    addr + 16 <= 8192,
                    lo == gpu_vram@[addr + 2 * y],
                    hi == gpu_vram@[addr + 2 * y + 1],
                    a == lo >> (x as u8),
                    b == hi >> (x as u8),
                    target == tile_pixels(gpu_vram@, addr as int),
                    forall|k: int| 0 <= k < y * 8 ==> self.pixels@[k] == #[trigger] target[k],
                    forall|k: int|
                        y * 8 + 8 - x <= k < y * 8 + 8 ==> #[trigger] self.pixels@[k] == pixel_bits(
                            lo,
                            hi,
                            (7 - (k - y * 8)) as u8,
                        ),
                decreases 8 - x,
            {
                proof {
                    lemma_pixel_bits(lo, hi, x as u8);
                }
                self.set_pixel(7 - x, y, a & 0x01 | ((b & 0x01) << 1));
                a = a >> 1;
                b = b >> 1;
                x += 1;
            }
            proof {
                assert forall|k: int| 0 <= k < (y + 1) * 8 implies self.pixels@[k] == #[trigger] target[k] by {
                    if k >= y * 8 {
                        assert(k / 8 == y);
                        assert(k % 8 == k - y * 8);
                    }
                }
            }
            y += 1;
        }
        proof {
            assert(self.pixels@ =~= target);
            lemma_tile_pixels_small(gpu_vram@, addr as int);
        }
    }
}

/// The tile whose id `tile_id` names: with `tile_data_select` set the ids count
/// from 0x8000, otherwise they are signed and count from 0x9000.
pub open spec fn tile_index(tile_id: u8, tile_data_select: bool) -> int {
    if tile_data_select || tile_id >= 128 {
        tile_id as int
    } else {
        tile_id + 256
    }
}

/// The 384 tiles of 0x8000-0x97FF.
pub struct TileData {
    pub tiles: [Tile; 384],
}

impl TileData {
    pub open spec fn wf(&self) -> bool {
        forall|i: int| 0 <= i < 384 ==> #[trigger] self.tiles@[i].wf()
    }

    pub fn new() -> (t: TileData)
        ensures
            forall|i: int| 0 <= i < 384 ==> #[trigger] t.tiles@[i].pixels@ == Seq::new(64, |k: int| 0u8),
            t.wf(),
    {
        let tile = Tile::new();
        TileData { tiles: [tile; 384] }
    }

    /// The tile for an id as the tile data select reads it.
    pub fn get_tile(&self, tile_id: u8, tile_data_select: bool) -> (t: &Tile)
        ensures
            *t == self.tiles@[tile_index(tile_id, tile_data_select)],
    {
        if tile_data_select || tile_id >= 128 {
            &self.tiles[tile_id as usize]
        } else {
            &self.tiles[256 + tile_id as usize]
        }
    }

    /// Rebuild the tile that holds VRAM address `data_address`.
    pub fn generate_tile(&mut self, data_address: usize, gpu_vram: &[u8; 8192])
        requires
            0x8000 <= data_address < 0x9800,
        ensures
            ({
                let id = (data_address - 0x8000) / 16;
                final(self).tiles@ == old(self).tiles@.update(
                    id,
                    Tile { pixels: final(self).tiles@[id].pixels },
                ) && final(self).tiles@[id].pixels@ == tile_pixels(gpu_vram@, id * 16)
            }),
            old(self).wf() ==> final(self).wf(),
    {
        let id = (data_address - 0x8000) / 16;
        let mut tile = self.tiles[id];
        tile.generate(id * 16, gpu_vram);
        self.tiles[id] = tile;
    }
}

/// A sprite, as its four bytes in OAM describe it.
#[derive(Copy, Clone, PartialEq, Eq, Debug, Structural)]
pub struct Sprite {
    pub x: usize,
    pub y: usize,
    pub tile_id: u8,
    pub below_background: bool,
    pub flip_y: bool,
    pub flip_x: bool,
    pub palette_select: bool,
}

/// The sprite that bytes `4 * id .. 4 * id + 4` of OAM describe.
pub open spec fn sprite_from_oam(oam: Seq<u8>, id: int) -> Sprite {
    let options = oam[4 * id + 3];
    Sprite {
        y: oam[4 * id] as usize,
        x: oam[4 * id + 1] as usize,
        tile_id: oam[4 * id + 2],
        below_background: options & 0x80 == 0x80,
        flip_y: options & 0x40 == 0x40,
        flip_x: options & 0x20 == 0x20,
        palette_select: options & 0x10 == 0x10,
    }
}

impl Sprite {
    pub fn new() -> (s: Sprite)
        ensures
            s == (Sprite {
                x: 0,
                y: 0,
                tile_id: 0,
                below_background: false,
                flip_y: false,
                flip_x: false,
                palette_select: false,
            }),
    {
        Sprite {
            x: 0,
            y: 0,
            tile_id: 0,
            below_background: false,
            flip_y: false,
            flip_x: false,
            palette_select: false,
        }
    }

    /// Read sprite `id` from OAM.
    pub fn generate_by_id(&mut self, id: usize, oam_ram: &[u8; 160])
        requires
            id < 40,
        ensures
            *final(self) == sprite_from_oam(oam_ram@, id as int),
    {
        let base_addr = id * 4;
        self.y = oam_ram[base_addr + 0] as usize;
        self.x = oam_ram[base_addr + 1] as usize;
        self.tile_id = oam_ram[base_addr + 2];
        self.set_options(oam_ram[base_addr + 3]);
    }

    /// Set the flags from the attribute byte: bit 7 behind the background, bit 6
    /// flipped vertically, bit 5 flipped horizontally, bit 4 second palette.
    pub fn set_options(&mut self, options: u8)
        ensures
            *final(self) == (Sprite {
                below_background: options & 0x80 == 0x80,
                flip_y: options & 0x40 == 0x40,
                flip_x: options & 0x20 == 0x20,
                palette_select: options & 0x10 == 0x10,
                ..*old(self)
            }),
    {
        self.below_background = options & 0b1000_0000 == 0b1000_0000;
        self.flip_y = options & 0b0100_0000 == 0b0100_0000;
        self.flip_x = options & 0b0010_0000 == 0b0010_0000;
        self.palette_select = options & 0b0001_0000 == 0b0001_0000;
    }
}

/// The 40 sprites of OAM.
pub struct SpriteData {
    pub sprites: [Sprite; 40],
}

impl SpriteData {
    pub fn new() -> (s: SpriteData)
        ensures
            forall|i: int| 0 <= i < 40 ==> #[trigger] s.sprites@[i] == sprite_from_oam(Seq::new(160, |k: int| 0u8), i),
    {
        let sprite = Sprite::new();
        let s = SpriteData { sprites: [sprite; 40] };
        proof {
            assert forall|i: int| 0 <= i < 40 implies #[trigger] s.sprites@[i] == sprite_from_oam(
                Seq::new(160, |k: int| 0u8),
                i,
            ) by {
                assert(0u8 & 0x80 == 0) by (bit_vector);
                assert(0u8 & 0x40 == 0) by (bit_vector);
                assert(0u8 & 0x20 == 0) by (bit_vector);
                assert(0u8 & 0x10 == 0) by (bit_vector);
            }
        }
        s
    }

    /// Rebuild the sprite that holds OAM address `addr`.
    pub fn update_by_address(&mut self, addr: usize, oam_ram: &[u8; 160])
        requires
            0xFE00 <= addr < 0xFEA0,
        ensures
            final(self).sprites@ == old(self).sprites@.update(
                (addr - 0xFE00) / 4,
                sprite_from_oam(oam_ram@, (addr - 0xFE00) / 4),
            ),
    {
        let id = (addr - 0xFE00) / 4;
        let mut sprite = self.sprites[id];
        sprite.generate_by_id(id, oam_ram);
        self.sprites[id] = sprite;
    }

    pub fn get_sprite(&self, id: usize) -> (s: &Sprite)
        requires
            id < 40,
        ensures
            *s == self.sprites@[id as int],
    {
        &self.sprites[id]
    }
}

/// A four-color palette: `palette` maps color numbers to colors, and `map` holds
/// the four shades that a palette register picks from.
pub struct Palette {
    pub palette: [Color; 4],
    pub map: [Color; 4],
}

/// Bits `2i` and `2i + 1` of a palette register: the shade of color number `i`.
pub open spec fn palette_entry(flag: u8, i: int) -> u8 {
    if i == 0 {
        flag & 0b0000_0011
    } else if i == 1 {
        (flag & 0b0000_1100) >> 2u8
    } else if i == 2 {
        (flag & 0b0011_0000) >> 4u8
    } else {
        (flag & 0b1100_0000) >> 6u8
    }
}

proof fn lemma_palette_entries(flag: u8)
    by (bit_vector)
    ensures
        flag & 0b0000_0011 < 4,
        (flag & 0b0000_1100) >> 2u8 < 4,
        (flag & 0b0011_0000) >> 4u8 < 4,
        (flag & 0b1100_0000) >> 6u8 < 4,
{
}

impl Palette {
    /// The background palette: color numbers 0-3 are white to black.
    pub fn new_bg() -> (p: Palette)
        ensures
            p.palette@ == shades(),
            p.map@ == shades(),
    {
        let p = Palette {
            palette: [Color::white(), Color::light_gray(), Color::dark_gray(), Color::black()],
            map: [Color::white(), Color::light_gray(), Color::dark_gray(), Color::black()],
        };
        assert(p.palette@ =~= shades());
        assert(p.map@ =~= shades());
        p
    }

    /// A sprite palette: color number 0 is transparent.
    pub fn new_sprite() -> (p: Palette)
        ensures
            p.palette@ == shades().update(0, spec_color(255, 255, 255, 0)),
            p.map@ == shades(),
    {
        let p = Palette {
            palette: [Color::transparent(), Color::light_gray(), Color::dark_gray(), Color::black()],
            map: [Color::white(), Color::light_gray(), Color::dark_gray(), Color::black()],
        };
        assert(p.palette@ =~= shades().update(0, spec_color(255, 255, 255, 0)));
        assert(p.map@ =~= shades());
        p
    }

    pub fn get_color(&self, val: u8) -> (c: Color)
        requires
            val < 4,
        ensures
            c == self.palette@[val as int],
    {
        self.palette[val as usize]
    }

    /// Set all four colors from the background palette register (0xFF47).
    pub fn update_bg(&mut self, palette_flag: u8)
        ensures
            final(self).map == old(self).map,
            final(self).palette@ == Seq::new(4, |i: int| old(self).map@[palette_entry(palette_flag, i) as int]),
    {
        proof {
            lemma_palette_entries(palette_flag);
        }
        self.palette[0] = self.get_color_from_bits(palette_flag & 0b0000_0011);
        self.palette[1] = self.get_color_from_bits((palette_flag & 0b0000_1100) >> 2);
        self.palette[2] = self.get_color_from_bits((palette_flag & 0b0011_0000) >> 4);
        self.palette[3] = self.get_color_from_bits((palette_flag & 0b1100_0000) >> 6);
        assert(self.palette@ =~= Seq::new(4, |i: int| old(self).map@[palette_entry(palette_flag, i) as int]));
    }

    /// Set colors 1-3 from a sprite palette register (0xFF48, 0xFF49); color 0
    /// stays as it is (transparent).
    pub fn update_sprite(&mut self, palette_flag: u8)
        ensures
            final(self).map == old(self).map,
            final(self).palette@ == Seq::new(
                4,
                |i: int|
                    if i == 0 {
                        old(self).palette@[0]
                    } else {
                        old(self).map@[palette_entry(palette_flag, i) as int]
                    },
            ),
    {
        proof {
            lemma_palette_entries(palette_flag);
        }
        self.palette[1] = self.get_color_from_bits((palette_flag & 0b0000_1100) >> 2);
        self.palette[2] = self.get_color_from_bits((palette_flag & 0b0011_0000) >> 4);
        self.palette[3] = self.get_color_from_bits((palette_flag & 0b1100_0000) >> 6);
        assert(self.palette@ =~= Seq::new(
            4,
            |i: int|
                if i == 0 {
                    old(self).palette@[0]
                } else {
                    old(self).map@[palette_entry(palette_flag, i) as int]
                },
        ));
    }

    pub fn get_color_from_bits(&self, color_val: u8) -> (c: Color)
        requires
            color_val < 4,
        ensures
            c == self.map@[color_val as int],
    {
        self.map[color_val as usize]
    }
}

/// The drawing structures of the graphics unit.
pub struct DrawHelper {
    pub tile_data: TileData,
    pub sprite_data: SpriteData,
    pub background_palette: Palette,
    pub sprite_palette_1: Palette,
    pub sprite_palette_2: Palette,
}

impl DrawHelper {
    /// Every tile is the decoding of its 16 bytes of VRAM, and every sprite the
    /// reading of its 4 bytes of OAM.
    pub open spec fn mirrors(&self, vram: Seq<u8>, oam: Seq<u8>) -> bool {
        &&& forall|i: int| 0 <= i < 384 ==> #[trigger] self.tile_data.tiles@[i].pixels@ == tile_pixels(vram, 16 * i)
        &&& forall|i: int| 0 <= i < 40 ==> #[trigger] self.sprite_data.sprites@[i] == sprite_from_oam(oam, i)
    }

    pub fn new() -> (d: DrawHelper)
        ensures
            d.tile_data.wf(),
            d.mirrors(Seq::new(8192, |k: int| 0u8), Seq::new(160, |k: int| 0u8)),
            d.background_palette.palette@ == shades(),
            d.background_palette.map@ == shades(),
            d.sprite_palette_1.palette@ == shades().update(0, spec_color(255, 255, 255, 0)),
            d.sprite_palette_1.map@ == shades(),
            d.sprite_palette_2.palette@ == shades().update(0, spec_color(255, 255, 255, 0)),
            d.sprite_palette_2.map@ == shades(),
    {
        let d = DrawHelper {
            tile_data: TileData::new(),
            sprite_data: SpriteData::new(),
            background_palette: Palette::new_bg(),
            sprite_palette_1: Palette::new_sprite(),
            sprite_palette_2: Palette::new_sprite(),
        };
        proof {
            let z = Seq::new(8192, |k: int| 0u8);
            assert forall|i: int| 0 <= i < 384 implies #[trigger] d.tile_data.tiles@[i].pixels@ == tile_pixels(
                z,
                16 * i,
            ) by {
                assert forall|k: int| 0 <= k < 64 implies #[trigger] tile_pixels(z, 16 * i)[k] == 0u8 by {
                    let s = (7 - k % 8) as u8;
                    assert(pixel_bits(0, 0, s) == 0) by (bit_vector);
                }
                assert(d.tile_data.tiles@[i].pixels@ =~= tile_pixels(z, 16 * i));
            }
        }
        d
    }

    /// Decode all 384 tiles from VRAM.
    pub fn generate_tiles(&mut self, gpu_vram: &[u8; 8192])
        ensures
            forall|i: int| 0 <= i < 384 ==> #[trigger] final(self).tile_data.tiles@[i].pixels@ == tile_pixels(gpu_vram@, 16 * i),
            final(self).tile_data.wf(),
            final(self).sprite_data == old(self).sprite_data,
            final(self).background_palette == old(self).background_palette,
            final(self).sprite_palette_1 == old(self).sprite_palette_1,
            final(self).sprite_palette_2 == old(self).sprite_palette_2,
    {
        let mut id: usize = 0;
        while id < 384
            invariant
                id <= 384,
                forall|i: int| 0 <= i < id ==> #[trigger] self.tile_data.tiles@[i].pixels@ == tile_pixels(gpu_vram@, 16 * i),
                self.sprite_data == old(self).sprite_data,
                self.background_palette == old(self).background_palette,
                self.sprite_palette_1 == old(self).sprite_palette_1,
                self.sprite_palette_2 == old(self).sprite_palette_2,
            decreases 384 - id,
        {
            self.tile_data.generate_tile(0x8000 + id * 16, gpu_vram);
            id += 1;
        }
        proof {
            assert forall|i: int| 0 <= i < 384 implies #[trigger] self.tile_data.tiles@[i].wf() by {
                lemma_tile_pixels_small(gpu_vram@, 16 * i);
            }
        }
    }

    /// Read all 40 sprites from OAM.
    pub fn generate_sprites(&mut self, oam_ram: &[u8; 160])
        ensures
            forall|i: int| 0 <= i < 40 ==> #[trigger] final(self).sprite_data.sprites@[i] == sprite_from_oam(oam_ram@, i),
            final(self).tile_data == old(self).tile_data,
            final(self).background_palette == old(self).background_palette,
            final(self).sprite_palette_1 == old(self).sprite_palette_1,
            final(self).sprite_palette_2 == old(self).sprite_palette_2,
    {
        let mut i: usize = 0;
        while i < 160
            invariant
                i <= 160,
                forall|s: int| 0 <= s < i / 4 ==> #[trigger] self.sprite_data.sprites@[s] == sprite_from_oam(oam_ram@, s),
                i % 4 != 0 ==> self.sprite_data.sprites@[(i / 4) as int] == sprite_from_oam(oam_ram@, (i / 4) as int),
                self.tile_data == old(self).tile_data,
                self.background_palette == old(self).background_palette,
                self.sprite_palette_1 == old(self).sprite_palette_1,
                self.sprite_palette_2 == old(self).sprite_palette_2,
            decreases 160 - i,
        {
            self.update_sprites_by_adress(0xFE00 + i, oam_ram);
            i += 1;
        }
    }

    /// Keep the drawing structures in step with a write to `address`.
    pub fn update_by_vram_address(&mut self, address: usize, gpu_vram: &[u8; 8192], oam_ram: &[u8; 160])
        ensures
            0x8000 <= address <= 0x97FF ==> ({
                let id = (address - 0x8000) / 16;
                final(self).tile_data.tiles@ == old(self).tile_data.tiles@.update(
                    id,
                    Tile { pixels: final(self).tile_data.tiles@[id].pixels },
                ) && final(self).tile_data.tiles@[id].pixels@ == tile_pixels(gpu_vram@, id * 16)
                    && final(self).sprite_data == old(self).sprite_data
            }),
            0xFE00 <= address <= 0xFE9F ==> final(self).sprite_data.sprites@ == old(self).sprite_data.sprites@.update(
                (address - 0xFE00) / 4,
                sprite_from_oam(oam_ram@, (address - 0xFE00) / 4),
            ) && final(self).tile_data == old(self).tile_data,
            !(0x8000 <= address <= 0x97FF) && !(0xFE00 <= address <= 0xFE9F) ==> *final(self) == *old(self),
            old(self).tile_data.wf() ==> final(self).tile_data.wf(),
            final(self).background_palette == old(self).background_palette,
            final(self).sprite_palette_1 == old(self).sprite_palette_1,
            final(self).sprite_palette_2 == old(self).sprite_palette_2,
    {
        if 0x8000 <= address && address <= 0x97FF {
            self.update_tiledata_by_address(address, gpu_vram);
        } else if 0xFE00 <= address && address <= 0xFE9F {
            self.update_sprites_by_adress(address, oam_ram);
        }
    }

    pub fn update_sprites_by_adress(&mut self, address: usize, oam_ram: &[u8; 160])
        requires
            0xFE00 <= address < 0xFEA0,
        ensures
            final(self).sprite_data.sprites@ == old(self).sprite_data.sprites@.update(
                (address - 0xFE00) / 4,
                sprite_from_oam(oam_ram@, (address - 0xFE00) / 4),
            ),
            final(self).tile_data == old(self).tile_data,
            final(self).background_palette == old(self).background_palette,
            final(self).sprite_palette_1 == old(self).sprite_palette_1,
            final(self).sprite_palette_2 == old(self).sprite_palette_2,
    {
        self.sprite_data.update_by_address(address, oam_ram);
    }

    /// Rebuild the tile that holds `address` (0x8000-0x97FF).
    pub fn update_tiledata_by_address(&mut self, address: usize, gpu_vram: &[u8; 8192])
        requires
            0x8000 <= address < 0x9800,
        ensures
            ({
                let id = (address - 0x8000) / 16;
                final(self).tile_data.tiles@ == old(self).tile_data.tiles@.update(
                    id,
                    Tile { pixels: final(self).tile_data.tiles@[id].pixels },
                ) && final(self).tile_data.tiles@[id].pixels@ == tile_pixels(gpu_vram@, id * 16)
            }),
            old(self).tile_data.wf() ==> final(self).tile_data.wf(),
            final(self).sprite_data == old(self).sprite_data,
            final(self).background_palette == old(self).background_palette,
            final(self).sprite_palette_1 == old(self).sprite_palette_1,
            final(self).sprite_palette_2 == old(self).sprite_palette_2,
    {
        self.tile_data.generate_tile(address, gpu_vram);
    }

    /// The background color of pixel (`x`, `y`) of tile `tile_id`.
    pub open spec fn bg_pixel(&self, tile_id: u8, x: int, y: int, tile_data_select: bool) -> Color {
        self.background_palette.palette@[self.tile_data.tiles@[tile_index(
            tile_id,
            tile_data_select,
        )].pixels@[y * 8 + x] as int]
    }

    /// The sprite color of pixel (`x`, `y`) of tile `tile_id`: flipped as the
    /// sprite asks (vertically only when `flip_y_ignore` is unset) and colored
    /// with the sprite's palette.
    pub open spec fn sprite_pixel(
        &self,
        tile_id: u8,
        x: int,
        y: int,
        tile_data_select: bool,
        sprite: Sprite,
        flip_y_ignore: bool,
    ) -> Color {
        let px = if sprite.flip_x {
            7 - x
        } else {
            x
        };
        let py = if sprite.flip_y && !flip_y_ignore {
            7 - y
        } else {
            y
        };
        let palette = if !sprite.palette_select {
            self.sprite_palette_1
        } else {
            self.sprite_palette_2
        };
        palette.palette@[self.tile_data.tiles@[tile_index(tile_id, tile_data_select)].pixels@[py * 8
            + px] as int]
    }

    pub fn get_bg_tile_pixel(&self, tile_id: u8, x: usize, y: usize, tile_data_select: bool) -> (c: Color)
        requires
            x < 8,
            y < 8,
            self.tile_data.wf(),
        ensures
            c == self.bg_pixel(tile_id, x as int, y as int, tile_data_select),
    {
        let tile = self.tile_data.get_tile(tile_id, tile_data_select);
        assert(tile.wf());
        tile.get_pixel(x, y, &self.background_palette)
    }

    pub fn get_sprite_tile_pixel(
        &self,
        tile_id: u8,
        x: usize,
        y: usize,
        tile_data_select: bool,
        sprite: &Sprite,
        flip_y_ignore: bool,
    ) -> (c: Color)
        requires
            x < 8,
            y < 8,
            self.tile_data.wf(),
        ensures
            c == self.sprite_pixel(tile_id, x as int, y as int, tile_data_select, *sprite, flip_y_ignore),
    {
        let tile = self.tile_data.get_tile(tile_id, tile_data_select);
        assert(tile.wf());
        let mut x = x;
        let mut y = y;
        if sprite.flip_x {
            x = 7 - x;
        }
        if sprite.flip_y && !flip_y_ignore {
            y = 7 - y;
        }
        if !sprite.palette_select {
            tile.get_pixel(x, y, &self.sprite_palette_1)
        } else {
            tile.get_pixel(x, y, &self.sprite_palette_2)
        }
    }
}

} // verus!
