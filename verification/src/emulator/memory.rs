//! The 64 KiB address space of the full machine and the devices behind it.
//!
//! 0x0000-0x7FFF and 0xA000-0xBFFF go to the cartridge, 0x8000-0x9FFF and
//! 0xFE00-0xFE9F to the graphics unit, 0xC000-0xDFFF is work RAM (mirrored at
//! 0xE000-0xFDFF), 0xFF00-0xFF7F are device registers, 0xFF80-0xFFFE high RAM,
//! and 0xFF0F / 0xFFFF the interrupt flag and enable registers.
use vstd::prelude::*;
use crate::emulator::rom::{Rom, RomView, RAM_BANK_SIZE};
use crate::emulator::gpu::{GPU, GpuState};
use crate::emulator::joypad::Joypad;
use crate::emulator::audio::AudioDevice;
use crate::emulator::interrupts::{InterruptHandler, InterruptTypes};
use crate::emulator::timer::{Timer, spec_tima_step};

verus! {

/// Cartridge ROM and external RAM.
pub open spec fn rom_address(a: int) -> bool {
    0 <= a <= 0x7FFF || 0xA000 <= a <= 0xBFFF
}

/// Video RAM and OAM.
pub open spec fn gpu_memory_address(a: int) -> bool {
    0x8000 <= a <= 0x9FFF || 0xFE00 <= a <= 0xFE9F
}

/// The timer register a write of `val` to `address` (0xFF04-0xFF07) leaves.
pub open spec fn timer_written(t: Timer, address: int, val: u8) -> Timer {
    if address == 0xFF04 {
        Timer { div: 0, ..t }
    } else if address == 0xFF05 {
        Timer { tima: val, ..t }
    } else if address == 0xFF06 {
        Timer { tma: val, ..t }
    } else {
        Timer { tac: val, enabled: val & 0b100 == 0b100, tima_step: spec_tima_step(val), ..t }
    }
}

/// The memory map.
pub struct Memory {
    pub rom: Rom,
    pub gpu: GPU,
    pub joypad: Joypad,
    pub audio_device: AudioDevice,
    pub working_ram: [u8; 8192],
    pub high_ram: [u8; 127],
    pub device_ram: [u8; 128],
    pub interrupt_handler: InterruptHandler,
    pub timer: Timer,
    /// Bytes sent over the link cable
    pub serial_buffer: Vec<u8>,
    pub output_serial_to_stdout: bool,
}

impl Memory {
    pub open spec fn wf(&self) -> bool {
        &&& self.rom@.wf()
        &&& self.gpu.wf()
        &&& self.timer.wf()
        &&& self.audio_device.wf()
    }

    /// The start of the 160 bytes that an OAM DMA from page `page` copies.
    pub open spec fn dma_start(page: u8) -> int {
        page * 256
    }

    /// Whether an OAM DMA from page `page` has a source: work RAM, its mirror,
    /// or a cartridge bank that holds the 160 bytes.
    pub open spec fn dma_ok(&self, page: u8) -> bool {
        let start = Memory::dma_start(page);
        let rv = self.rom@;
        if 0xC000 <= start <= 0xFDFF {
            true
        } else if start <= 0x3FFF {
            rv.rom_banks.len() > 0 && start + 160 <= rv.rom_banks[0].len()
        } else if 0x4000 <= start <= 0x7FFF {
            rv.current_rom_bank < rv.rom_banks.len() && start + 160 - 0x4000
                <= rv.rom_banks[rv.current_rom_bank as int].len()
        } else if 0xA000 <= start <= 0xBFFF {
            rv.ram_banks.len() > 0
        } else {
            false
        }
    }

    /// The 160 bytes an OAM DMA from page `page` copies.
    pub open spec fn dma_source(&self, page: u8) -> Seq<u8> {
        let start = Memory::dma_start(page);
        let rv = self.rom@;
        if 0xC000 <= start <= 0xDFFF {
            self.working_ram@.subrange(start - 0xC000, start - 0xC000 + 160)
        } else if 0xE000 <= start <= 0xFDFF {
            self.working_ram@.subrange(start - 0xE000, start - 0xE000 + 160)
        } else if start <= 0x3FFF {
            rv.rom_banks[0].subrange(start, start + 160)
        } else if 0x4000 <= start <= 0x7FFF {
            rv.rom_banks[rv.current_rom_bank as int].subrange(start - 0x4000, start + 160 - 0x4000)
        } else {
            rv.ram_banks[0].subrange(start - 0xA000, start + 160 - 0xA000)
        }
    }

    /// Whether a read of `address` can be served (the cartridge may lack the
    /// bank, or use a controller that is not implemented).
    pub open spec fn read_ok(&self, address: int) -> bool {
        rom_address(address) ==> self.rom@.read_ok(address)
    }

    /// The value of device register `address` (0xFF00-0xFF7F, not 0xFF0F).
    pub open spec fn read_device(&self, address: int) -> u8 {
        if address == 0xFF01 {
            self.device_ram@[1]
        } else if address == 0xFF00 {
            if self.joypad.key_column_select == 0x10 {
                self.joypad.key_columns@[0]
            } else if self.joypad.key_column_select == 0x20 {
                self.joypad.key_columns@[1]
            } else {
                0
            }
        } else if 0xFF04 <= address <= 0xFF07 {
            if address == 0xFF04 {
                self.timer.div
            } else if address == 0xFF05 {
                self.timer.tima
            } else if address == 0xFF06 {
                self.timer.tma
            } else {
                self.timer.tac
            }
        } else if 0xFF40 <= address <= 0xFF4B {
            self.gpu.read(address)
        } else if 0xFF10 <= address <= 0xFF3F {
            if address == 0xFF26 {
                self.audio_device.options@[2]
            } else {
                self.audio_device.memory@[address - 0xFF10]
            }
        } else {
            0xFF
        }
    }

    /// The byte a read of `address` gives; unused addresses read 0xFF.
    pub open spec fn read(&self, address: int) -> u8 {
        if rom_address(address) {
            self.rom@.read(address)
        } else if gpu_memory_address(address) {
            self.gpu.read(address)
        } else if 0xC000 <= address <= 0xDFFF {
            self.working_ram@[address - 0xC000]
        } else if 0xE000 <= address <= 0xFDFF {
            self.working_ram@[address - 0xE000]
        } else if 0xFEA0 <= address <= 0xFEFF {
            0xFF
        } else if address == 0xFF0F {
            self.interrupt_handler.interrupt_flag
        } else if 0xFF00 <= address <= 0xFF7F {
            self.read_device(address)
        } else if 0xFF80 <= address <= 0xFFFE {
            self.high_ram@[address - 0xFF80]
        } else {
            self.interrupt_handler.interrupt_enable
        }
    }

    /// Whether a write of `value` to `address` can be served: the cartridge's
    /// controller must handle it, and a write to the DMA register needs a
    /// source.
    pub open spec fn write_ok(&self, address: int, value: u8) -> bool {
        &&& rom_address(address) ==> self.rom@.write_ok(address)
        &&& address == 0xFF46 ==> self.dma_ok(value)
    }

    /// The device RAM after a write: device registers that no device handles
    /// are stored there.
    pub open spec fn device_ram_written(&self, address: int, value: u8) -> Seq<u8> {
        if 0xFF00 <= address <= 0xFF7F && address != 0xFF0F && !(address == 0xFF02 && value == 0x81)
            && address != 0xFF00 && !(0xFF04 <= address <= 0xFF07) && !(0xFF40 <= address <= 0xFF4B)
            && !(0xFF10 <= address <= 0xFF3F) {
            self.device_ram@.update(address - 0xFF00, value)
        } else {
            self.device_ram@
        }
    }

    /// `new` is this memory after a write of `value` to `address`.
    pub open spec fn written(self, new: Memory, address: int, value: u8) -> bool {
        &&& new.rom@ == if rom_address(address) {
            self.rom@.write(address, value)
        } else {
            self.rom@
        }
        &&& if gpu_memory_address(address) || (0xFF40 <= address <= 0xFF4B && address != 0xFF46) {
            self.gpu.written(new.gpu, address as usize, value)
        } else if address == 0xFF46 {
            &&& new.gpu.state() == self.gpu.state().after_register_write(address, value)
            &&& new.gpu.video_ram == self.gpu.video_ram
            &&& new.gpu.oam_ram@ == self.dma_source(value)
            &&& new.gpu.draw_helper.background_palette == self.gpu.draw_helper.background_palette
            &&& new.gpu.draw_helper.sprite_palette_1 == self.gpu.draw_helper.sprite_palette_1
            &&& new.gpu.draw_helper.sprite_palette_2 == self.gpu.draw_helper.sprite_palette_2
        } else {
            new.gpu == self.gpu
        }
        &&& new.working_ram@ == if 0xC000 <= address <= 0xDFFF {
            self.working_ram@.update(address - 0xC000, value)
        } else if 0xE000 <= address <= 0xFDFF {
            self.working_ram@.update(address - 0xE000, value)
        } else {
            self.working_ram@
        }
        &&& new.high_ram@ == if 0xFF80 <= address <= 0xFFFE {
            self.high_ram@.update(address - 0xFF80, value)
        } else {
            self.high_ram@
        }
        &&& new.interrupt_handler == if address == 0xFF0F {
            InterruptHandler { interrupt_flag: value, ..self.interrupt_handler }
        } else if address == 0xFFFF {
            InterruptHandler { interrupt_enable: value, ..self.interrupt_handler }
        } else {
            self.interrupt_handler
        }
        &&& new.serial_buffer@ == if address == 0xFF02 && value == 0x81 {
            self.serial_buffer@.push(self.device_ram@[1])
        } else {
            self.serial_buffer@
        }
        &&& new.joypad.key_columns@ == self.joypad.key_columns@
        &&& new.joypad.key_column_select == if address == 0xFF00 {
            value & 0x30
        } else {
            self.joypad.key_column_select
        }
        &&& new.timer == if 0xFF04 <= address <= 0xFF07 {
            timer_written(self.timer, address, value)
        } else {
            self.timer
        }
        &&& if 0xFF10 <= address <= 0xFF3F {
            self.audio_device.written(new.audio_device, address as usize, value)
        } else {
            new.audio_device == self.audio_device
        }
        &&& new.device_ram@ == self.device_ram_written(address, value)
        &&& new.output_serial_to_stdout == self.output_serial_to_stdout
    }

    /// Everything but the cartridge as at power-up: work RAM filled with 1s,
    /// the other RAM cleared, the graphics unit, timer, joypad, interrupt
    /// registers and sound hardware in their first state.
    pub open spec fn devices_initial(&self) -> bool {
        &&& self.wf()
        &&& self.working_ram@ == Seq::new(8192, |i: int| 1u8)
        &&& self.high_ram@ == Seq::new(127, |i: int| 0u8)
        &&& self.device_ram@ == Seq::new(128, |i: int| 0u8)
        &&& self.serial_buffer@ == Seq::<u8>::empty()
        &&& self.output_serial_to_stdout
        &&& self.gpu.video_ram@ == Seq::new(8192, |k: int| 0u8)
        &&& self.gpu.oam_ram@ == Seq::new(160, |k: int| 0u8)
        &&& self.gpu.state() == (GpuState {
            lcd_control: 0,
            lcd_stat: 0,
            scroll_y: 0,
            scroll_x: 0,
            ly: 0,
            lyc: 0,
            window_y: 0,
            window_x: 0,
            oam_dma_transfer: 0,
            background_palette: 0,
            sprite_palette_1: 0,
            sprite_palette_2: 0,
            clock_cycles: 0,
            scanline_draw_requested: false,
            screen_draw_requested: false,
            vblank_interrupt_requested: false,
            stat_interrupt_requested: false,
            state_modified: false,
        })
        &&& self.timer == (Timer {
            div: 0,
            tima: 0,
            tma: 0,
            tac: 0,
            request_interrupt: false,
            div_increment_counter: 0,
            tima_increment_counter: 0,
            enabled: false,
            tima_step: 256,
        })
        &&& self.joypad.key_column_select == 0
        &&& self.joypad.key_columns@ == seq![0x0Fu8, 0x0Fu8]
        &&& self.interrupt_handler == (InterruptHandler {
            interrupt_enable: 0,
            interrupt_flag: 0,
            interrupt_master_enable: false,
            ei_requested: false,
            di_requested: false,
        })
        &&& self.audio_device.initial_state()
    }

    /// Everything fresh; work RAM starts filled with 1s.
    pub fn new() -> (m: Memory)
        ensures
            m.devices_initial(),
            m.rom@ == RomView::initial(),
    {
        let m = Memory {
            rom: Rom::new(),
            gpu: GPU::new(),
            joypad: Joypad::new(),
            audio_device: AudioDevice::new(),
            working_ram: [1; 8192],
            high_ram: [0; 127],
            device_ram: [0; 128],
            interrupt_handler: InterruptHandler::new(),
            timer: Timer::new(),
            serial_buffer: Vec::new(),
            output_serial_to_stdout: true,
        };
        assert(m.working_ram@ =~= Seq::new(8192, |i: int| 1u8));
        assert(m.high_ram@ =~= Seq::new(127, |i: int| 0u8));
        assert(m.device_ram@ =~= Seq::new(128, |i: int| 0u8));
        m
    }

    /// Read a byte.
    pub fn read_byte(&self, address: u16) -> (r: u8)
        requires
            self.wf(),
            self.read_ok(address as int),
        ensures
            r == self.read(address as int),
    {
        let address = address as usize;
        if address <= 0x7FFF || (0xA000 <= address && address <= 0xBFFF) {
            self.rom.read_byte(address)
        } else if (0x8000 <= address && address <= 0x9FFF) || (0xFE00 <= address && address <= 0xFE9F) {
            self.gpu.read_byte(address)
        } else if 0xC000 <= address && address <= 0xDFFF {
            self.working_ram[address - 0xC000]
        } else if 0xE000 <= address && address <= 0xFDFF {
            self.working_ram[address - 0xE000]
        } else if 0xFEA0 <= address && address <= 0xFEFF {
            0xFF
        } else if address == 0xFF0F {
            self.interrupt_handler.interrupt_flag
        } else if 0xFF00 <= address && address <= 0xFF7F {
            self.read_byte_devices(address)
        } else if 0xFF80 <= address && address <= 0xFFFE {
            self.high_ram[address - 0xFF80]
        } else {
            self.interrupt_handler.interrupt_enable
        }
    }

    /// Read a little-endian word.
    pub fn read_word(&self, address: u16) -> (r: u16)
        requires
            self.wf(),
            address < 0xFFFF,
            self.read_ok(address as int),
            self.read_ok(address + 1),
        ensures
            r == self.read(address as int) + 256 * self.read(address + 1),
    {
        let lo = self.read_byte(address);
        let hi = self.read_byte(address + 1);
        assert((lo as u16) | ((hi as u16) << 8u16) == lo + 256 * hi) by (bit_vector);
        (lo as u16) | ((hi as u16) << 8)
    }

    /// Write a byte.
    #[verifier::spinoff_prover]
    #[verifier::rlimit(60)]
    pub fn write_byte(&mut self, address: u16, value: u8)
        requires
            old(self).wf(),
            old(self).write_ok(address as int, value),
        ensures
            final(self).wf(),
            old(self).written(*final(self), address as int, value),
    {
        let address = address as usize;
        if address <= 0x7FFF || (0xA000 <= address && address <= 0xBFFF) {
            self.rom.write_byte(address, value);
        } else if (0x8000 <= address && address <= 0x9FFF) || (0xFE00 <= address && address <= 0xFE9F) {
            self.gpu.write_byte(address, value);
        } else if 0xC000 <= address && address <= 0xDFFF {
            self.working_ram[address - 0xC000] = value;
        } else if 0xE000 <= address && address <= 0xFDFF {
            self.working_ram[address - 0xE000] = value;
        } else if 0xFEA0 <= address && address <= 0xFEFF {
        } else if address == 0xFF02 && value == 0x81 {
            let c = self.read_byte(0xFF01);
            self.link_cable_serial(c);
        } else if address == 0xFF0F {
            self.interrupt_handler.interrupt_flag = value;
        } else if 0xFF00 <= address && address <= 0xFF7F {
            self.write_byte_devices(address, value);
        } else if 0xFF80 <= address && address <= 0xFFFE {
            self.high_ram[address - 0xFF80] = value;
        } else {
            self.interrupt_handler.interrupt_enable = value;
        }
    }

    /// Write a little-endian word: the low byte at `address`, the high byte at
    /// `address + 1`.
    pub fn write_word(&mut self, address: u16, value: u16)
        requires
            old(self).wf(),
            address < 0xFFFF,
            old(self).write_ok(address as int, (value & 0xFF) as u8),
            old(self).write_ok(address + 1, (value >> 8u16) as u8),
        ensures
            final(self).wf(),
            exists|m: Memory|
                #![trigger old(self).written(m, address as int, (value & 0xFF) as u8)]
                old(self).written(m, address as int, (value & 0xFF) as u8) && m.written(
                    *final(self),
                    address + 1,
                    (value >> 8u16) as u8,
                ),
    {
        self.write_byte(address, (value & 0xFF) as u8);
        let ghost mid = *self;
        self.write_byte(address + 1, (value >> 8) as u8);
        assert(old(self).written(mid, address as int, (value & 0xFF) as u8));
    }

    /// Read a device register (0xFF00-0xFF7F).
    pub fn read_byte_devices(&self, address: usize) -> (r: u8)
        requires
            0xFF00 <= address <= 0xFF7F,
        ensures
            r == self.read_device(address as int),
    {
        if address == 0xFF01 {
            self.device_ram[1]
        } else if address == 0xFF00 {
            self.joypad.read_byte()
        } else if 0xFF04 <= address && address <= 0xFF07 {
            self.timer.read_byte(address)
        } else if 0xFF40 <= address && address <= 0xFF4B {
            self.gpu.read_byte(address)
        } else if 0xFF10 <= address && address <= 0xFF3F {
            self.audio_device.read_byte(address)
        } else {
            0xFF
        }
    }

    /// Write a device register (0xFF00-0xFF7F): the joypad, timer, graphics
    /// and sound registers go to their device (a write to 0xFF46 also starts
    /// an OAM DMA); the others are stored in device RAM.
    #[verifier::spinoff_prover]
    #[verifier::rlimit(60)]
    pub fn write_byte_devices(&mut self, address: usize, val: u8)
        requires
            old(self).wf(),
            0xFF00 <= address <= 0xFF7F,
            address != 0xFF0F,
            !(address == 0xFF02 && val == 0x81),
            address == 0xFF46 ==> old(self).dma_ok(val),
        ensures
            final(self).wf(),
            old(self).written(*final(self), address as int, val),
    {
        if address == 0xFF00 {
            self.joypad.write_byte(val);
        } else if 0xFF04 <= address && address <= 0xFF07 {
            self.timer.write_byte(address, val);
            proof {
                assert(self.timer.tima_step == spec_tima_step(self.timer.tac) || address != 0xFF07);
            }
        } else if address == 0xFF46 {
            self.gpu.write_byte(address, val);
            self.oam_dma_transfer();
        } else if 0xFF40 <= address && address <= 0xFF4B {
            self.gpu.write_byte(address, val);
        } else if 0xFF10 <= address && address <= 0xFF3F {
            self.audio_device.write_byte(address, val);
        } else {
            self.device_ram[address - 0xFF00] = val;
        }
    }

    /// Send a byte over the link cable: it is kept in the serial buffer.
    pub fn link_cable_serial(&mut self, c: u8)
        ensures
            final(self).serial_buffer@ == old(self).serial_buffer@.push(c),
            final(self).rom == old(self).rom,
            final(self).gpu == old(self).gpu,
            final(self).joypad == old(self).joypad,
            final(self).audio_device == old(self).audio_device,
            final(self).working_ram == old(self).working_ram,
            final(self).high_ram == old(self).high_ram,
            final(self).device_ram == old(self).device_ram,
            final(self).interrupt_handler == old(self).interrupt_handler,
            final(self).timer == old(self).timer,
            final(self).output_serial_to_stdout == old(self).output_serial_to_stdout,
    {
        self.serial_buffer.push(c);
    }

    /// Turn the devices' interrupt requests into IF bits (timer, VBlank, STAT)
    /// and clear the requests.
    pub fn propagate_interrupt_requests(&mut self)
        ensures
            final(self).interrupt_handler == (InterruptHandler {
                interrupt_flag: old(self).interrupt_handler.interrupt_flag | (if old(self).timer.request_interrupt {
                    0b100u8
                } else {
                    0u8
                }) | (if old(self).gpu.vblank_interrupt_requested {
                    0b1u8
                } else {
                    0u8
                }) | (if old(self).gpu.stat_interrupt_requested {
                    0b10u8
                } else {
                    0u8
                }),
                ..old(self).interrupt_handler
            }),
            final(self).timer == (Timer { request_interrupt: false, ..old(self).timer }),
            final(self).gpu.state() == (GpuState {
                vblank_interrupt_requested: false,
                stat_interrupt_requested: false,
                ..old(self).gpu.state()
            }),
            final(self).gpu.video_ram == old(self).gpu.video_ram,
            final(self).gpu.oam_ram == old(self).gpu.oam_ram,
            final(self).gpu.options == old(self).gpu.options,
            final(self).gpu.draw_helper == old(self).gpu.draw_helper,
            final(self).rom == old(self).rom,
            final(self).joypad == old(self).joypad,
            final(self).audio_device == old(self).audio_device,
            final(self).working_ram == old(self).working_ram,
            final(self).high_ram == old(self).high_ram,
            final(self).device_ram == old(self).device_ram,
            final(self).serial_buffer == old(self).serial_buffer,
            final(self).output_serial_to_stdout == old(self).output_serial_to_stdout,
    {
        let ghost f0 = self.interrupt_handler.interrupt_flag;
        if self.timer.request_interrupt {
            self.interrupt_handler.trigger_interrupt(InterruptTypes::Timer);
            self.timer.request_interrupt = false;
        }
        let ghost f1 = self.interrupt_handler.interrupt_flag;
        if self.gpu.vblank_interrupt_requested {
            self.interrupt_handler.trigger_interrupt(InterruptTypes::VBlank);
            self.gpu.vblank_interrupt_requested = false;
        }
        let ghost f2 = self.interrupt_handler.interrupt_flag;
        if self.gpu.stat_interrupt_requested {
            self.interrupt_handler.trigger_interrupt(InterruptTypes::Stat);
            self.gpu.stat_interrupt_requested = false;
        }
        proof {
            let t = old(self).timer.request_interrupt;
            let v = old(self).gpu.vblank_interrupt_requested;
            let st = old(self).gpu.stat_interrupt_requested;
            let f3 = self.interrupt_handler.interrupt_flag;
            assert(f1 == if t {
                f0 | 0b100u8
            } else {
                f0
            });
            assert(f2 == if v {
                f1 | 0b1u8
            } else {
                f1
            });
            assert(f3 == if st {
                f2 | 0b10u8
            } else {
                f2
            });
            assert(f3 == f0 | (if t {
                0b100u8
            } else {
                0u8
            }) | (if v {
                0b1u8
            } else {
                0u8
            }) | (if st {
                0b10u8
            } else {
                0u8
            })) by (bit_vector)
                requires
                    f1 == if t {
                        f0 | 0b100u8
                    } else {
                        f0
                    },
                    f2 == if v {
                        f1 | 0b1u8
                    } else {
                        f1
                    },
                    f3 == if st {
                        f2 | 0b10u8
                    } else {
                        f2
                    },
            ;
        }
    }

    /// Run the timer, graphics unit and sound hardware for `machine_cycles`
    /// machine cycles (4 clock cycles each), then pass their interrupt
    /// requests on.
    #[verifier::spinoff_prover]
    pub fn cycle_devices(&mut self, machine_cycles: usize)
        requires
            old(self).wf(),
            machine_cycles * 4 <= usize::MAX,
            old(self).timer.div_increment_counter + ((machine_cycles * 4) as u16) <= u16::MAX,
            old(self).timer.enabled ==> old(self).timer.tima_increment_counter + ((machine_cycles * 4) as u16)
                <= u16::MAX,
            old(self).gpu.state().cycle_ok((machine_cycles * 4) as usize),
            old(self).audio_device.clock_cycles + machine_cycles * 4 <= usize::MAX,
            old(self).audio_device.length_step_counter + machine_cycles * 4 <= usize::MAX,
            old(self).audio_device.vol_step_counter + machine_cycles * 4 <= usize::MAX,
            old(self).audio_device.sweep_step_counter + machine_cycles * 4 <= usize::MAX,
            old(self).audio_device.push_ok((machine_cycles * 4) as usize),
        ensures
            final(self).wf(),
            ({
                let c = (machine_cycles * 4) as usize;
                let g = old(self).gpu.state().after_cycle(c);
                &&& exists|t: Timer|
                    #![trigger old(self).timer.incremented(t, c as u16)]
                    old(self).timer.incremented(t, c as u16) && final(self).timer == (Timer {
                        request_interrupt: false,
                        ..t
                    }) && final(self).interrupt_handler == (InterruptHandler {
                        interrupt_flag: old(self).interrupt_handler.interrupt_flag | (if t.request_interrupt {
                            0b100u8
                        } else {
                            0u8
                        }) | (if g.vblank_interrupt_requested {
                            0b1u8
                        } else {
                            0u8
                        }) | (if g.stat_interrupt_requested {
                            0b10u8
                        } else {
                            0u8
                        }),
                        ..old(self).interrupt_handler
                    })
                &&& final(self).gpu.state() == (GpuState {
                    vblank_interrupt_requested: false,
                    stat_interrupt_requested: false,
                    ..g
                })
                &&& final(self).gpu.video_ram == old(self).gpu.video_ram
                &&& final(self).gpu.oam_ram == old(self).gpu.oam_ram
                &&& final(self).gpu.draw_helper == old(self).gpu.draw_helper
                &&& old(self).audio_device.cycled(final(self).audio_device, c)
            }),
            final(self).rom == old(self).rom,
            final(self).joypad == old(self).joypad,
            final(self).working_ram == old(self).working_ram,
            final(self).high_ram == old(self).high_ram,
            final(self).device_ram == old(self).device_ram,
            final(self).serial_buffer == old(self).serial_buffer,
    {
        let c = machine_cycles * 4;
        self.timer.increment_by_cycles(c as u16);
        let ghost t = self.timer;
        self.gpu.cycle(c);
        self.audio_device.cycle(c);
        self.propagate_interrupt_requests();
        assert(old(self).timer.incremented(t, c as u16));
    }

    /// The bytes from `start_addr` up to `end_addr`, for an OAM DMA: from work
    /// RAM (or its mirror) or from the cartridge.
    pub fn read_mem_slice(&self, start_addr: usize, end_addr: usize) -> (r: &[u8])
        requires
            self.wf(),
            start_addr <= end_addr,
            0xC000 <= start_addr <= 0xDFFF ==> end_addr - 0xC000 <= 8192,
            0xE000 <= start_addr <= 0xFDFF ==> end_addr - 0xE000 <= 8192,
            (0xC000 <= start_addr <= 0xFDFF) || start_addr <= 0x3FFF || 0x4000 <= start_addr <= 0x7FFF || 0xA000
                <= start_addr <= 0xBFFF,
            start_addr <= 0x3FFF ==> self.rom@.rom_banks.len() > 0 && end_addr <= self.rom@.rom_banks[0].len(),
            0x4000 <= start_addr <= 0x7FFF ==> self.rom@.current_rom_bank < self.rom@.rom_banks.len()
                && end_addr - 0x4000 <= self.rom@.rom_banks[self.rom@.current_rom_bank as int].len(),
            0xA000 <= start_addr <= 0xBFFF ==> self.rom@.ram_banks.len() > 0 && end_addr - 0xA000
                <= RAM_BANK_SIZE,
        ensures
            0xC000 <= start_addr <= 0xDFFF ==> r@ == self.working_ram@.subrange(
                start_addr - 0xC000,
                end_addr - 0xC000,
            ),
            0xE000 <= start_addr <= 0xFDFF ==> r@ == self.working_ram@.subrange(
                start_addr - 0xE000,
                end_addr - 0xE000,
            ),
            start_addr <= 0x3FFF ==> r@ == self.rom@.rom_banks[0].subrange(start_addr as int, end_addr as int),
            0x4000 <= start_addr <= 0x7FFF ==> r@ == self.rom@.rom_banks[self.rom@.current_rom_bank as int].subrange(
                start_addr - 0x4000,
                end_addr - 0x4000,
            ),
            0xA000 <= start_addr <= 0xBFFF ==> r@ == self.rom@.ram_banks[0].subrange(
                start_addr - 0xA000,
                end_addr - 0xA000,
            ),
    {
        if 0xC000 <= start_addr && start_addr <= 0xDFFF {
            vstd::slice::slice_subrange(self.working_ram.as_slice(), start_addr - 0xC000, end_addr - 0xC000)
        } else if 0xE000 <= start_addr && start_addr <= 0xFDFF {
            vstd::slice::slice_subrange(self.working_ram.as_slice(), start_addr - 0xE000, end_addr - 0xE000)
        } else {
            self.rom.read_mem_slice(start_addr, end_addr)
        }
    }

    /// Copy 160 bytes from page `gpu.oam_dma_transfer` into OAM and rebuild the
    /// sprites.
    pub fn oam_dma_transfer(&mut self)
        requires
            old(self).wf(),
            old(self).dma_ok(old(self).gpu.oam_dma_transfer),
        ensures
            final(self).wf(),
            final(self).gpu.oam_ram@ == old(self).dma_source(old(self).gpu.oam_dma_transfer),
            final(self).gpu.state() == old(self).gpu.state(),
            final(self).gpu.video_ram == old(self).gpu.video_ram,
            final(self).gpu.draw_helper.background_palette == old(self).gpu.draw_helper.background_palette,
            final(self).gpu.draw_helper.sprite_palette_1 == old(self).gpu.draw_helper.sprite_palette_1,
            final(self).gpu.draw_helper.sprite_palette_2 == old(self).gpu.draw_helper.sprite_palette_2,
            final(self).rom == old(self).rom,
            final(self).joypad == old(self).joypad,
            final(self).audio_device == old(self).audio_device,
            final(self).working_ram == old(self).working_ram,
            final(self).high_ram == old(self).high_ram,
            final(self).device_ram == old(self).device_ram,
            final(self).interrupt_handler == old(self).interrupt_handler,
            final(self).timer == old(self).timer,
            final(self).serial_buffer == old(self).serial_buffer,
            final(self).output_serial_to_stdout == old(self).output_serial_to_stdout,
    {
        let start_addr: usize = (self.gpu.oam_dma_transfer as usize) * 256;
        let mut mem: [u8; 160] = [0; 160];
        let src = self.read_mem_slice(start_addr, start_addr + 160);
        let mut i: usize = 0;
        while i < 160
            invariant
                i <= 160,
                src@.len() == 160,
                forall|k: int| 0 <= k < i ==> mem@[k] == src@[k],
            decreases 160 - i,
        {
            mem[i] = src[i];
            i += 1;
        }
        assert(mem@ =~= src@);
        self.gpu.oam_ram = mem;
        self.gpu.draw_helper.generate_sprites(&self.gpu.oam_ram);
    }
}

/// The RAM cell behind an address: work RAM (0xC000-0xDFFF, mirrored at
/// 0xE000-0xFDFF) as 0-8191 and high RAM (0xFF80-0xFFFE) as 8192 and up.
pub open spec fn ram_cell(a: int) -> Option<int> {
    if 0xC000 <= a <= 0xDFFF {
        Some(a - 0xC000)
    } else if 0xE000 <= a <= 0xFDFF {
        Some(a - 0xE000)
    } else if 0xFF80 <= a <= 0xFFFE {
        Some(8192 + a - 0xFF80)
    } else {
        None
    }
}

/// A write to work or high RAM reads back, also through the mirror of work
/// RAM, and leaves every other RAM cell as it was.
pub proof fn lemma_ram_write_read(m: Memory, m2: Memory, a: int, v: u8, b: int)
    requires
        m.written(m2, a, v),
        ram_cell(a) is Some,
        ram_cell(b) is Some,
    ensures
        m2.read(b) == if ram_cell(a) == ram_cell(b) {
            v
        } else {
            m.read(b)
        },
{
}

/// 0xE000-0xFDFF reads the same as the work RAM 0x2000 below it.
pub proof fn lemma_echo_ram(m: Memory, a: int)
    requires
        0xE000 <= a <= 0xFDFF,
    ensures
        m.read(a) == m.read(a - 0x2000),
{
}

} // verus!
