//! The graphics unit (PPU) of the full machine: video RAM, OAM, the LCD
//! registers, and the mode state machine that walks each scanline through OAM
//! search, pixel transfer and horizontal blank, and the frame through vertical
//! blank.
pub mod draw_helper;

use vstd::prelude::*;
use crate::emulator::gpu::draw_helper::{DrawHelper, palette_entry, tile_pixels, sprite_from_oam};

verus! {

/// The four modes of the LCD, as bits 0-1 of STAT number them.
#[derive(Copy, Clone, PartialEq, Eq, Debug, Structural)]
pub enum LCDMode {
    HBlankPeriod,
    VBlankPeriod,
    UsingOAMPeriod,
    UsingVRAMPeriod,
}

/// The mode that bits 0-1 of a STAT value give.
pub open spec fn lcd_mode_of(stat: u8) -> LCDMode {
    let m = stat & 3;
    if m == 0 {
        LCDMode::HBlankPeriod
    } else if m == 1 {
        LCDMode::VBlankPeriod
    } else if m == 2 {
        LCDMode::UsingOAMPeriod
    } else {
        LCDMode::UsingVRAMPeriod
    }
}

/// The number of a mode in bits 0-1 of STAT.
pub open spec fn lcd_mode_bits(mode: LCDMode) -> u8 {
    match mode {
        LCDMode::HBlankPeriod => 0,
        LCDMode::VBlankPeriod => 1,
        LCDMode::UsingOAMPeriod => 2,
        LCDMode::UsingVRAMPeriod => 3,
    }
}

/// Whether bit `n` of `b` is set.
pub open spec fn bit(b: u8, n: u8) -> bool {
    (b >> n) & 1u8 == 1u8
}

/// The LCD options: the bits of LCDC (0xFF40) and STAT (0xFF41).
///
/// LCDC: bit 0 background and window enable, 1 sprite enable, 2 sprite size
/// (8x16 when set), 3 background tile map (0x9C00 when set), 4 tile data
/// (0x8000 when set), 5 window enable, 6 window tile map, 7 LCD enable.
/// STAT: bits 0-1 mode, 2 LYC=LY, 3 HBlank interrupt enable, 4 VBlank interrupt
/// enable, 5 OAM interrupt enable, 6 LYC interrupt enable.
#[derive(Copy, Clone, PartialEq, Eq, Debug, Structural)]
pub struct LCDOptions {
    pub lcdc: u8,
    pub stat: u8,
}

impl LCDOptions {
    pub fn new() -> (o: LCDOptions)
        ensures
            o == (LCDOptions { lcdc: 0, stat: 0 }),
    {
        LCDOptions { lcdc: 0, stat: 0 }
    }

    pub fn from_bytes(bytes: [u8; 2]) -> (o: LCDOptions)
        ensures
            o == (LCDOptions { lcdc: bytes@[0], stat: bytes@[1] }),
    {
        LCDOptions { lcdc: bytes[0], stat: bytes[1] }
    }

    pub fn bg_enable_priority(&self) -> (r: bool)
        ensures
            r == bit(self.lcdc, 0),
    {
        (self.lcdc >> 0u8) & 1 == 1
    }

    pub fn sprite_enable(&self) -> (r: bool)
        ensures
            r == bit(self.lcdc, 1),
    {
        (self.lcdc >> 1u8) & 1 == 1
    }

    pub fn sprite_tile_size(&self) -> (r: bool)
        ensures
            r == bit(self.lcdc, 2),
    {
        (self.lcdc >> 2u8) & 1 == 1
    }

    pub fn bg_tile_map(&self) -> (r: bool)
        ensures
            r == bit(self.lcdc, 3),
    {
        (self.lcdc >> 3u8) & 1 == 1
    }

    pub fn tile_data(&self) -> (r: bool)
        ensures
            r == bit(self.lcdc, 4),
    {
        (self.lcdc >> 4u8) & 1 == 1
    }

    pub fn window_enable(&self) -> (r: bool)
        ensures
            r == bit(self.lcdc, 5),
    {
        (self.lcdc >> 5u8) & 1 == 1
    }

    pub fn window_tile_map(&self) -> (r: bool)
        ensures
            r == bit(self.lcdc, 6),
    {
        (self.lcdc >> 6u8) & 1 == 1
    }

    pub fn lcd_enable(&self) -> (r: bool)
        ensures
            r == bit(self.lcdc, 7),
    {
        (self.lcdc >> 7u8) & 1 == 1
    }

    pub fn lcd_mode(&self) -> (r: u8)
        ensures
            r == self.stat & 3,
    {
        self.stat & 3
    }

    pub fn lyc_equals_ly_flag(&self) -> (r: bool)
        ensures
            r == bit(self.stat, 2),
    {
        (self.stat >> 2u8) & 1 == 1
    }

    pub fn stat_hblank_inter_enable(&self) -> (r: bool)
        ensures
            r == bit(self.stat, 3),
    {
        (self.stat >> 3u8) & 1 == 1
    }

    pub fn stat_vblank_inter_enable(&self) -> (r: bool)
        ensures
            r == bit(self.stat, 4),
    {
        (self.stat >> 4u8) & 1 == 1
    }

    pub fn stat_oam_inter_enable(&self) -> (r: bool)
        ensures
            r == bit(self.stat, 5),
    {
        (self.stat >> 5u8) & 1 == 1
    }

    pub fn stat_lyc_inter_enable(&self) -> (r: bool)
        ensures
            r == bit(self.stat, 6),
    {
        (self.stat >> 6u8) & 1 == 1
    }
}


/// The scalar state of the graphics unit: its registers, its cycle counter and
/// its request flags.
pub struct GpuState {
    pub lcd_control: u8,
    pub lcd_stat: u8,
    pub scroll_y: u8,
    pub scroll_x: u8,
    pub ly: u8,
    pub lyc: u8,
    pub window_y: u8,
    pub window_x: u8,
    pub oam_dma_transfer: u8,
    pub background_palette: u8,
    pub sprite_palette_1: u8,
    pub sprite_palette_2: u8,
    pub clock_cycles: usize,
    pub scanline_draw_requested: bool,
    pub screen_draw_requested: bool,
    pub vblank_interrupt_requested: bool,
    pub stat_interrupt_requested: bool,
    pub state_modified: bool,
}

impl GpuState {
    pub open spec fn lcd_enable(self) -> bool {
        bit(self.lcd_control, 7)
    }

    pub open spec fn mode(self) -> LCDMode {
        lcd_mode_of(self.lcd_stat)
    }

    /// The state with the mode bits of STAT set to `mode`.
    pub open spec fn with_mode(self, mode: LCDMode) -> GpuState {
        GpuState { lcd_stat: self.lcd_stat & 0b1111_1100 | lcd_mode_bits(mode), ..self }
    }

    /// A STAT interrupt is requested on entering a mode whose interrupt STAT
    /// enables (OAM also for VBlank); a pending request stays.
    pub open spec fn stat_check(self) -> GpuState {
        if self.stat_interrupt_requested {
            self
        } else {
            let m = self.mode();
            let req = ((m == LCDMode::UsingOAMPeriod || m == LCDMode::VBlankPeriod) && bit(
                self.lcd_stat,
                5,
            )) || (m == LCDMode::VBlankPeriod && bit(self.lcd_stat, 4)) || (m
                == LCDMode::HBlankPeriod && bit(self.lcd_stat, 3));
            GpuState { stat_interrupt_requested: req, ..self }
        }
    }

    /// A STAT interrupt is requested when LY equals LYC and STAT enables it.
    pub open spec fn lyc_check(self) -> GpuState {
        if bit(self.lcd_stat, 6) && self.lyc == self.ly {
            GpuState { stat_interrupt_requested: true, ..self }
        } else {
            self
        }
    }

    /// With the LCD off, LY, the cycle counter and the mode are reset.
    pub open spec fn reset_if_off(self) -> GpuState {
        if !self.lcd_enable() {
            GpuState { ly: 0, clock_cycles: 0, ..self }.with_mode(LCDMode::HBlankPeriod)
        } else {
            self
        }
    }

    /// Whether `cycle` can run `cycles` more clock cycles: the cycle counter
    /// fits, and LY fits when a line ends.
    pub open spec fn cycle_ok(self, cycles: usize) -> bool {
        self.lcd_enable() ==> {
            &&& self.clock_cycles + cycles <= usize::MAX
            &&& (self.mode() == LCDMode::HBlankPeriod && self.clock_cycles + cycles >= 204) ==> self.ly < 255
            &&& (self.mode() == LCDMode::VBlankPeriod && self.clock_cycles + cycles >= 456) ==> self.ly < 255
        }
    }

    /// The state after `cycles` clock cycles. A line is 456 cycles: 80 in OAM
    /// search, 172 in pixel transfer and 204 in horizontal blank; after line
    /// 143 come 10 lines of vertical blank. At most one mode change happens per
    /// call.
    pub open spec fn after_cycle(self, cycles: usize) -> GpuState {
        if !self.lcd_enable() {
            self
        } else {
            let s = GpuState { clock_cycles: (self.clock_cycles + cycles) as usize, ..self };
            match s.mode() {
                LCDMode::HBlankPeriod => {
                    if s.clock_cycles >= 204 {
                        let s1 = GpuState {
                            clock_cycles: (s.clock_cycles - 204) as usize,
                            ..s
                        }.with_mode(LCDMode::UsingVRAMPeriod);
                        let s2 = GpuState { ly: (s1.ly + 1) as u8, ..s1 }.lyc_check();
                        if s2.ly > 143 {
                            GpuState {
                                screen_draw_requested: true,
                                vblank_interrupt_requested: true,
                                ..s2.with_mode(LCDMode::VBlankPeriod).stat_check()
                            }
                        } else {
                            s2.with_mode(LCDMode::UsingOAMPeriod).stat_check()
                        }
                    } else {
                        s
                    }
                },
                LCDMode::VBlankPeriod => {
                    if s.clock_cycles >= 456 {
                        let s1 = GpuState {
                            clock_cycles: (s.clock_cycles - 456) as usize,
                            ly: (s.ly + 1) as u8,
                            ..s
                        }.lyc_check();
                        if s1.ly == 154 {
                            GpuState { ly: 0, ..s1 }.with_mode(LCDMode::UsingOAMPeriod).stat_check()
                        } else {
                            s1
                        }
                    } else {
                        s
                    }
                },
                LCDMode::UsingOAMPeriod => {
                    if s.clock_cycles >= 80 {
                        GpuState {
                            clock_cycles: (s.clock_cycles - 80) as usize,
                            ..s
                        }.with_mode(LCDMode::UsingVRAMPeriod)
                    } else {
                        s
                    }
                },
                LCDMode::UsingVRAMPeriod => {
                    if s.clock_cycles >= 172 {
                        GpuState {
                            scanline_draw_requested: true,
                            ..GpuState {
                                clock_cycles: (s.clock_cycles - 172) as usize,
                                ..s
                            }.with_mode(LCDMode::HBlankPeriod).stat_check()
                        }
                    } else {
                        s
                    }
                },
            }
        }
    }

    /// The state after a write of `value` to register `address` (0xFF40-0xFF4B).
    pub open spec fn after_register_write(self, address: int, value: u8) -> GpuState {
        let s = GpuState { state_modified: true, ..self };
        if address == 0xFF40 {
            GpuState { lcd_control: value, ..s }.reset_if_off()
        } else if address == 0xFF41 {
            GpuState { lcd_stat: value, ..s }.reset_if_off()
        } else if address == 0xFF42 {
            GpuState { scroll_y: value, ..s }
        } else if address == 0xFF43 {
            GpuState { scroll_x: value, ..s }
        } else if address == 0xFF44 {
            GpuState { ly: value, ..s }
        } else if address == 0xFF45 {
            GpuState { lyc: value, ..s }
        } else if address == 0xFF46 {
            GpuState { oam_dma_transfer: value, ..s }
        } else if address == 0xFF47 {
            GpuState { background_palette: value, ..s }
        } else if address == 0xFF48 {
            GpuState { sprite_palette_1: value, ..s }
        } else if address == 0xFF49 {
            GpuState { sprite_palette_2: value, ..s }
        } else if address == 0xFF4A {
            GpuState { window_y: value, ..s }
        } else {
            GpuState { window_x: value, ..s }
        }
    }

    /// The value a read of register `address` (0xFF40-0xFF4B) gives.
    pub open spec fn register(self, address: int) -> u8 {
        if address == 0xFF40 {
            self.lcd_control
        } else if address == 0xFF41 {
            self.lcd_stat
        } else if address == 0xFF42 {
            self.scroll_y
        } else if address == 0xFF43 {
            self.scroll_x
        } else if address == 0xFF44 {
            self.ly
        } else if address == 0xFF45 {
            self.lyc
        } else if address == 0xFF46 {
            self.oam_dma_transfer
        } else if address == 0xFF47 {
            self.background_palette
        } else if address == 0xFF48 {
            self.sprite_palette_1
        } else if address == 0xFF49 {
            self.sprite_palette_2
        } else if address == 0xFF4A {
            self.window_y
        } else {
            self.window_x
        }
    }
}

/// Whether `address` belongs to the graphics unit: VRAM, OAM or a register.
pub open spec fn gpu_address(address: int) -> bool {
    0x8000 <= address <= 0x9FFF || 0xFE00 <= address <= 0xFE9F || 0xFF40 <= address <= 0xFF4B
}

/// The graphics unit.
pub struct GPU {
    pub video_ram: [u8; 8192],
    pub oam_ram: [u8; 160],
    pub options: LCDOptions,
    pub lcd_control: u8,
    pub lcd_stat: u8,
    pub scroll_y: u8,
    pub scroll_x: u8,
    pub ly: u8,
    pub lyc: u8,
    pub window_y: u8,
    pub window_x: u8,
    pub oam_dma_transfer: u8,
    pub background_palette: u8,
    pub sprite_palette_1: u8,
    pub sprite_palette_2: u8,
    pub clock_cycles: usize,
    pub scanline_draw_requested: bool,
    pub screen_draw_requested: bool,
    pub vblank_interrupt_requested: bool,
    pub stat_interrupt_requested: bool,
    pub state_modified: bool,
    pub draw_helper: DrawHelper,
}

/// A tile decoding reads only the 16 bytes of its tile.
pub proof fn lemma_tile_pixels_local(a: Seq<u8>, b: Seq<u8>, base: int)
    requires
        0 <= base,
        base + 16 <= a.len(),
        base + 16 <= b.len(),
        forall|j: int| base <= j < base + 16 ==> a[j] == b[j],
    ensures
        tile_pixels(a, base) == tile_pixels(b, base),
{
    assert forall|k: int| 0 <= k < 64 implies #[trigger] tile_pixels(a, base)[k] == tile_pixels(b, base)[k] by {
        assert(0 <= 2 * (k / 8) && 2 * (k / 8) + 1 < 16);
    }
    assert(tile_pixels(a, base) =~= tile_pixels(b, base));
}

impl GPU {
    /// The scalar state.
    pub open spec fn state(&self) -> GpuState {
        GpuState {
            lcd_control: self.lcd_control,
            lcd_stat: self.lcd_stat,
            scroll_y: self.scroll_y,
            scroll_x: self.scroll_x,
            ly: self.ly,
            lyc: self.lyc,
            window_y: self.window_y,
            window_x: self.window_x,
            oam_dma_transfer: self.oam_dma_transfer,
            background_palette: self.background_palette,
            sprite_palette_1: self.sprite_palette_1,
            sprite_palette_2: self.sprite_palette_2,
            clock_cycles: self.clock_cycles,
            scanline_draw_requested: self.scanline_draw_requested,
            screen_draw_requested: self.screen_draw_requested,
            vblank_interrupt_requested: self.vblank_interrupt_requested,
            stat_interrupt_requested: self.stat_interrupt_requested,
            state_modified: self.state_modified,
        }
    }

    /// The options mirror LCDC and STAT, and the drawing structures mirror VRAM
    /// and OAM.
    pub open spec fn wf(&self) -> bool {
        &&& self.options.lcdc == self.lcd_control
        &&& self.options.stat == self.lcd_stat
        &&& self.draw_helper.tile_data.wf()
        &&& self.draw_helper.mirrors(self.video_ram@, self.oam_ram@)
    }

    /// The byte a read of `address` gives.
    pub open spec fn read(&self, address: int) -> u8 {
        if 0x8000 <= address <= 0x9FFF {
            self.video_ram@[address - 0x8000]
        } else if 0xFE00 <= address <= 0xFE9F {
            self.oam_ram@[address - 0xFE00]
        } else {
            self.state().register(address)
        }
    }

    /// The palettes of the drawing structures follow the palette registers.
    pub open spec fn palettes_follow(old_helper: DrawHelper, new_helper: DrawHelper, s: GpuState) -> bool {
        &&& new_helper.tile_data == old_helper.tile_data
        &&& new_helper.sprite_data == old_helper.sprite_data
        &&& new_helper.background_palette.map == old_helper.background_palette.map
        &&& new_helper.sprite_palette_1.map == old_helper.sprite_palette_1.map
        &&& new_helper.sprite_palette_2.map == old_helper.sprite_palette_2.map
        &&& new_helper.background_palette.palette@ == Seq::new(
            4,
            |i: int| old_helper.background_palette.map@[palette_entry(s.background_palette, i) as int],
        )
        &&& new_helper.sprite_palette_1.palette@ == Seq::new(
            4,
            |i: int|
                if i == 0 {
                    old_helper.sprite_palette_1.palette@[0]
                } else {
                    old_helper.sprite_palette_1.map@[palette_entry(s.sprite_palette_1, i) as int]
                },
        )
        &&& new_helper.sprite_palette_2.palette@ == Seq::new(
            4,
            |i: int|
                if i == 0 {
                    old_helper.sprite_palette_2.palette@[0]
                } else {
                    old_helper.sprite_palette_2.map@[palette_entry(s.sprite_palette_2, i) as int]
                },
        )
    }

    /// All memory and registers zero, the LCD off.
    pub fn new() -> (g: GPU)
        ensures
            g.wf(),
            g.video_ram@ == Seq::new(8192, |k: int| 0u8),
            g.oam_ram@ == Seq::new(160, |k: int| 0u8),
            g.state() == (GpuState {
                lcd_control: 0,
                lcd_stat: 0,
                scroll_y: 0,
                scroll_x: 0,
                ly: 0,
                lyc: 0,
                window_y: 0,
                window_x: 0,
                oam_dma_transfer: 0,
                background_palette: 0,
                sprite_palette_1: 0,
                sprite_palette_2: 0,
                clock_cycles: 0,
                scanline_draw_requested: false,
                screen_draw_requested: false,
                vblank_interrupt_requested: false,
                stat_interrupt_requested: false,
                state_modified: false,
            }),
    {
        let g = GPU {
            video_ram: [0; 8192],
            oam_ram: [0; 160],
            options: LCDOptions::new(),
            lcd_control: 0,
            lcd_stat: 0,
            scroll_y: 0,
            scroll_x: 0,
            ly: 0,
            lyc: 0,
            window_y: 0,
            window_x: 0,
            oam_dma_transfer: 0,
            background_palette: 0,
            sprite_palette_1: 0,
            sprite_palette_2: 0,
            clock_cycles: 0,
            scanline_draw_requested: false,
            screen_draw_requested: false,
            vblank_interrupt_requested: false,
            stat_interrupt_requested: false,
            state_modified: false,
            draw_helper: DrawHelper::new(),
        };
        assert(g.video_ram@ =~= Seq::new(8192, |k: int| 0u8));
        assert(g.oam_ram@ =~= Seq::new(160, |k: int| 0u8));
        g
    }

    /// Read VRAM, OAM or an LCD register.
    pub fn read_byte(&self, address: usize) -> (r: u8)
        requires
            gpu_address(address as int),
        ensures
            r == self.read(address as int),
    {
        if 0x8000 <= address && address <= 0x9FFF {
            self.video_ram[address - 0x8000]
        } else if 0xFE00 <= address && address <= 0xFE9F {
            self.oam_ram[address - 0xFE00]
        } else if address == 0xFF40 {
            self.lcd_control
        } else if address == 0xFF41 {
            self.lcd_stat
        } else if address == 0xFF42 {
            self.scroll_y
        } else if address == 0xFF43 {
            self.scroll_x
        } else if address == 0xFF44 {
            self.ly
        } else if address == 0xFF45 {
            self.lyc
        } else if address == 0xFF46 {
            self.oam_dma_transfer
        } else if address == 0xFF47 {
            self.background_palette
        } else if address == 0xFF48 {
            self.sprite_palette_1
        } else if address == 0xFF49 {
            self.sprite_palette_2
        } else if address == 0xFF4A {
            self.window_y
        } else {
            self.window_x
        }
    }

    /// `new` is this unit after a write of `value` to `address`.
    pub open spec fn written(self, new: GPU, address: usize, value: u8) -> bool {
        &&& (0x8000 <= address <= 0x9FFF ==> {
                &&& new.video_ram@ == self.video_ram@.update(address - 0x8000, value)
                &&& new.oam_ram == self.oam_ram
                &&& new.state() == GpuState { state_modified: true, ..self.state() }
                &&& new.draw_helper.background_palette == self.draw_helper.background_palette
                &&& new.draw_helper.sprite_palette_1 == self.draw_helper.sprite_palette_1
                &&& new.draw_helper.sprite_palette_2 == self.draw_helper.sprite_palette_2
            })
        &&& (0xFE00 <= address <= 0xFE9F ==> {
                &&& new.oam_ram@ == self.oam_ram@.update(address - 0xFE00, value)
                &&& new.video_ram == self.video_ram
                &&& new.state() == GpuState { state_modified: true, ..self.state() }
                &&& new.draw_helper.background_palette == self.draw_helper.background_palette
                &&& new.draw_helper.sprite_palette_1 == self.draw_helper.sprite_palette_1
                &&& new.draw_helper.sprite_palette_2 == self.draw_helper.sprite_palette_2
            })
        &&& (0xFF40 <= address <= 0xFF4B ==> {
                &&& new.video_ram == self.video_ram
                &&& new.oam_ram == self.oam_ram
                &&& new.state() == self.state().after_register_write(address as int, value)
                &&& (0xFF47 <= address <= 0xFF49 ==> GPU::palettes_follow(
                    self.draw_helper,
                    new.draw_helper,
                    new.state(),
                ))
                &&& (!(0xFF47 <= address <= 0xFF49) ==> new.draw_helper == self.draw_helper)
            })
    }

    /// Write VRAM, OAM or an LCD register, keeping the drawing structures in
    /// step.
    pub fn write_byte(&mut self, address: usize, value: u8)
        requires
            old(self).wf(),
            gpu_address(address as int),
        ensures
            final(self).wf(),
            old(self).written(*final(self), address, value),
    {
        self.state_modified = true;
        if 0x8000 <= address && address <= 0x9FFF {
            let ghost old_vram = self.video_ram@;
            self.video_ram[address - 0x8000] = value;
            self.draw_helper.update_by_vram_address(address, &self.video_ram, &self.oam_ram);
            proof {
                let new_vram = self.video_ram@;
                assert forall|i: int| 0 <= i < 384 implies #[trigger] self.draw_helper.tile_data.tiles@[i].pixels@
                    == tile_pixels(new_vram, 16 * i) by {
                    if !(address <= 0x97FF && i == (address - 0x8000) / 16) {
                        lemma_tile_pixels_local(old_vram, new_vram, 16 * i);
                    }
                }
            }
        } else if 0xFE00 <= address && address <= 0xFE9F {
            self.oam_ram[address - 0xFE00] = value;
            self.draw_helper.update_by_vram_address(address, &self.video_ram, &self.oam_ram);
        } else if address == 0xFF40 {
            self.lcd_control = value;
            self.update_lcd_options();
        } else if address == 0xFF41 {
            self.lcd_stat = value;
            self.update_lcd_options();
        } else if address == 0xFF42 {
            self.scroll_y = value;
        } else if address == 0xFF43 {
            self.scroll_x = value;
        } else if address == 0xFF44 {
            self.ly = value;
        } else if address == 0xFF45 {
            self.lyc = value;
        } else if address == 0xFF46 {
            self.oam_dma_transfer = value;
        } else if address == 0xFF47 {
            self.background_palette = value;
            self.update_palettes();
        } else if address == 0xFF48 {
            self.sprite_palette_1 = value;
            self.update_palettes();
        } else if address == 0xFF49 {
            self.sprite_palette_2 = value;
            self.update_palettes();
        } else if address == 0xFF4A {
            self.window_y = value;
        } else {
            self.window_x = value;
        }
    }

    /// Advance the mode state machine by `cycles` clock cycles, when the LCD is
    /// on.
    pub fn cycle(&mut self, cycles: usize)
        requires
            old(self).wf(),
            old(self).state().cycle_ok(cycles),
        ensures
            final(self).wf(),
            final(self).state() == old(self).state().after_cycle(cycles),
            final(self).video_ram == old(self).video_ram,
            final(self).oam_ram == old(self).oam_ram,
            final(self).draw_helper == old(self).draw_helper,
    {
        if !self.options.lcd_enable() {
            return;
        }
        self.clock_cycles += cycles;
        match self.get_lcd_mode_flag() {
            LCDMode::HBlankPeriod => {
                if self.clock_cycles >= 204 {
                    self.clock_cycles -= 204;
                    self.set_lcd_mode_flag(LCDMode::UsingVRAMPeriod);
                    self.ly += 1;
                    self.check_for_lyc_interrupt();
                    if self.ly > 143 {
                        self.set_lcd_mode_flag(LCDMode::VBlankPeriod);
                        self.check_for_stat_interrupt();
                        self.screen_draw_requested = true;
                        self.vblank_interrupt_requested = true;
                    } else {
                        self.set_lcd_mode_flag(LCDMode::UsingOAMPeriod);
                        self.check_for_stat_interrupt();
                    }
                }
            },
            LCDMode::VBlankPeriod => {
                if self.clock_cycles >= 456 {
                    self.clock_cycles -= 456;
                    self.ly += 1;
                    self.check_for_lyc_interrupt();
                    if self.ly == 154 {
                        self.ly = 0;
                        self.set_lcd_mode_flag(LCDMode::UsingOAMPeriod);
                        self.check_for_stat_interrupt();
                    }
                }
            },
            LCDMode::UsingOAMPeriod => {
                if self.clock_cycles >= 80 {
                    self.clock_cycles = self.clock_cycles - 80;
                    self.set_lcd_mode_flag(LCDMode::UsingVRAMPeriod);
                }
            },
            LCDMode::UsingVRAMPeriod => {
                if self.clock_cycles >= 172 {
                    self.clock_cycles -= 172;
                    self.set_lcd_mode_flag(LCDMode::HBlankPeriod);
                    self.check_for_stat_interrupt();
                    self.scanline_draw_requested = true;
                }
            },
        }
    }

    /// The current mode, from bits 0-1 of STAT.
    pub fn get_lcd_mode_flag(&self) -> (m: LCDMode)
        requires
            self.options.stat == self.lcd_stat,
        ensures
            m == lcd_mode_of(self.lcd_stat),
    {
        let f = self.options.lcd_mode();
        if f == 0 {
            LCDMode::HBlankPeriod
        } else if f == 1 {
            LCDMode::VBlankPeriod
        } else if f == 2 {
            LCDMode::UsingOAMPeriod
        } else {
            LCDMode::UsingVRAMPeriod
        }
    }

    /// Take the options from LCDC and STAT; with the LCD off, reset LY, the
    /// cycle counter and the mode.
    pub fn update_lcd_options(&mut self)
        ensures
            final(self).state() == old(self).state().reset_if_off(),
            final(self).options.lcdc == final(self).lcd_control,
            final(self).options.stat == final(self).lcd_stat,
            final(self).video_ram == old(self).video_ram,
            final(self).oam_ram == old(self).oam_ram,
            final(self).draw_helper == old(self).draw_helper,
    {
        self.options = LCDOptions::from_bytes([self.lcd_control, self.lcd_stat]);
        if !self.options.lcd_enable() {
            self.ly = 0;
            self.clock_cycles = 0;
            self.set_lcd_mode_flag(LCDMode::HBlankPeriod);
        }
    }

    /// Set the mode bits of STAT.
    pub fn set_lcd_mode_flag(&mut self, mode: LCDMode)
        ensures
            final(self).state() == old(self).state().with_mode(mode),
            final(self).options.lcdc == final(self).lcd_control,
            final(self).options.stat == final(self).lcd_stat,
            final(self).video_ram == old(self).video_ram,
            final(self).oam_ram == old(self).oam_ram,
            final(self).draw_helper == old(self).draw_helper,
    {
        let f: u8 = match mode {
            LCDMode::HBlankPeriod => 0,
            LCDMode::VBlankPeriod => 1,
            LCDMode::UsingOAMPeriod => 2,
            LCDMode::UsingVRAMPeriod => 3,
        };
        self.lcd_stat = self.lcd_stat & 0b1111_1100 | f;
        self.options = LCDOptions::from_bytes([self.lcd_control, self.lcd_stat]);
    }

    /// Request a STAT interrupt if the current mode's interrupt is enabled.
    pub fn check_for_stat_interrupt(&mut self)
        requires
            old(self).options.lcdc == old(self).lcd_control,
            old(self).options.stat == old(self).lcd_stat,
        ensures
            final(self).state() == old(self).state().stat_check(),
            final(self).options == old(self).options,
            final(self).video_ram == old(self).video_ram,
            final(self).oam_ram == old(self).oam_ram,
            final(self).draw_helper == old(self).draw_helper,
    {
        if !self.stat_interrupt_requested {
            let m = self.get_lcd_mode_flag();
            self.stat_interrupt_requested = ((m == LCDMode::UsingOAMPeriod || m == LCDMode::VBlankPeriod)
                && self.options.stat_oam_inter_enable()) || (m == LCDMode::VBlankPeriod
                && self.options.stat_vblank_inter_enable()) || (m == LCDMode::HBlankPeriod
                && self.options.stat_hblank_inter_enable());
        }
    }

    /// Request a STAT interrupt if LY equals LYC and that interrupt is enabled.
    pub fn check_for_lyc_interrupt(&mut self)
        requires
            old(self).options.stat == old(self).lcd_stat,
        ensures
            final(self).state() == old(self).state().lyc_check(),
            final(self).options == old(self).options,
            final(self).video_ram == old(self).video_ram,
            final(self).oam_ram == old(self).oam_ram,
            final(self).draw_helper == old(self).draw_helper,
    {
        if self.options.stat_lyc_inter_enable() && self.lyc == self.ly {
            self.stat_interrupt_requested = true;
        }
    }

    /// Set the palettes of the drawing structures from the palette registers.
    pub fn update_palettes(&mut self)
        ensures
            GPU::palettes_follow(old(self).draw_helper, final(self).draw_helper, final(self).state()),
            final(self).state() == old(self).state(),
            final(self).options == old(self).options,
            final(self).video_ram == old(self).video_ram,
            final(self).oam_ram == old(self).oam_ram,
    {
        self.draw_helper.background_palette.update_bg(self.background_palette);
        self.draw_helper.sprite_palette_1.update_sprite(self.sprite_palette_1);
        self.draw_helper.sprite_palette_2.update_sprite(self.sprite_palette_2);
    }

    /// A scanline is due and the LCD is on.
    pub fn should_draw_scanline(&self) -> (r: bool)
        requires
            self.options.lcdc == self.lcd_control,
        ensures
            r == (self.scanline_draw_requested && bit(self.lcd_control, 7)),
    {
        self.scanline_draw_requested && self.options.lcd_enable()
    }

    pub fn should_draw_window(&self) -> (r: bool)
        requires
            self.options.lcdc == self.lcd_control,
        ensures
            r == bit(self.lcd_control, 5),
    {
        self.options.window_enable()
    }

    pub fn should_draw_sprites(&self) -> (r: bool)
        requires
            self.options.lcdc == self.lcd_control,
        ensures
            r == bit(self.lcd_control, 1),
    {
        self.options.sprite_enable()
    }

    /// Background and window enabled (LCDC bit 0).
    pub fn get_bg_enable(&self) -> (r: bool)
        requires
            self.options.lcdc == self.lcd_control,
        ensures
            r == bit(self.lcd_control, 0),
    {
        self.options.bg_enable_priority()
    }

    /// Sprites are 8x16 (LCDC bit 2).
    pub fn get_sprite_tile_size(&self) -> (r: bool)
        requires
            self.options.lcdc == self.lcd_control,
        ensures
            r == bit(self.lcd_control, 2),
    {
        self.options.sprite_tile_size()
    }

    /// The background uses the tile map at 0x9C00 (LCDC bit 3).
    pub fn get_bg_tile_map(&self) -> (r: bool)
        requires
            self.options.lcdc == self.lcd_control,
        ensures
            r == bit(self.lcd_control, 3),
    {
        self.options.bg_tile_map()
    }

    /// Tile ids count from 0x8000 (LCDC bit 4).
    pub fn get_tile_data(&self) -> (r: bool)
        requires
            self.options.lcdc == self.lcd_control,
        ensures
            r == bit(self.lcd_control, 4),
    {
        self.options.tile_data()
    }

    /// The window uses the tile map at 0x9C00 (LCDC bit 6).
    pub fn get_window_tile_map(&self) -> (r: bool)
        requires
            self.options.lcdc == self.lcd_control,
        ensures
            r == bit(self.lcd_control, 6),
    {
        self.options.window_tile_map()
    }

    /// The tile id at column `x`, row `y` of the tile map at 0x9800 or, with
    /// `tilemap_select`, at 0x9C00.
    pub fn get_tilemap_id(&self, x: usize, y: usize, tilemap_select: bool) -> (r: u8)
        requires
            !tilemap_select ==> y * 32 + x < 0x0800,
            tilemap_select ==> y * 32 + x < 0x0400,
        ensures
            !tilemap_select ==> r == self.video_ram@[0x1800 + y * 32 + x],
            tilemap_select ==> r == self.video_ram@[0x1C00 + y * 32 + x],
    {
        if !tilemap_select {
            self.video_ram[(0x9800 - 0x8000) + y * 32 + x]
        } else {
            self.video_ram[(0x9C00 - 0x8000) + y * 32 + x]
        }
    }
}

proof fn lemma_with_mode_bits(x: u8)
    by (bit_vector)
    ensures
        (x & 0b1111_1100 | 0u8) & 3 == 0,
        (x & 0b1111_1100 | 1u8) & 3 == 1,
        (x & 0b1111_1100 | 2u8) & 3 == 2,
        (x & 0b1111_1100 | 3u8) & 3 == 3,
{
}

/// Setting the mode bits of STAT gives that mode back.
pub proof fn lemma_with_mode(s: GpuState, m: LCDMode)
    ensures
        s.with_mode(m).mode() == m,
        s.with_mode(m).lcd_control == s.lcd_control,
        s.with_mode(m).ly == s.ly,
        s.with_mode(m).clock_cycles == s.clock_cycles,
{
    lemma_with_mode_bits(s.lcd_stat);
}

/// A visible scanline takes 456 clock cycles: 80 in OAM search, 172 in pixel
/// transfer (after which the line is due to be drawn) and 204 in horizontal
/// blank, after which LY has moved on by one and the next OAM search begins.
pub proof fn lemma_scanline_timing(s: GpuState)
    requires
        s.lcd_enable(),
        s.mode() == LCDMode::UsingOAMPeriod,
        s.clock_cycles == 0,
        s.ly < 143,
    ensures
        ({
            let s1 = s.after_cycle(80);
            let s2 = s1.after_cycle(172);
            let s3 = s2.after_cycle(204);
            &&& s1.mode() == LCDMode::UsingVRAMPeriod
            &&& s2.mode() == LCDMode::HBlankPeriod
            &&& s2.scanline_draw_requested
            &&& s3.mode() == LCDMode::UsingOAMPeriod
            &&& s3.ly == s.ly + 1
            &&& s3.clock_cycles == 0
            &&& s3.lcd_control == s.lcd_control
        }),
{
    let s0 = GpuState { clock_cycles: 80, ..s };
    lemma_with_mode(GpuState { clock_cycles: 0, ..s0 }, LCDMode::UsingVRAMPeriod);
    let s1 = s.after_cycle(80);
    assert(s1.mode() == LCDMode::UsingVRAMPeriod);
    let t = GpuState { clock_cycles: 0, ..GpuState { clock_cycles: 172, ..s1 } };
    lemma_with_mode(t, LCDMode::HBlankPeriod);
    let s2 = s1.after_cycle(172);
    lemma_with_mode(GpuState { clock_cycles: 0, ..s2 }, LCDMode::UsingVRAMPeriod);
    let u = GpuState { clock_cycles: 0, ..s2 }.with_mode(LCDMode::UsingVRAMPeriod);
    let u2 = GpuState { ly: (u.ly + 1) as u8, ..u }.lyc_check();
    lemma_with_mode(u2, LCDMode::UsingOAMPeriod);
}

} // verus!
