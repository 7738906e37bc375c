//! The sound hardware of the Gameboy: two square wave channels, a wave channel
//! and a noise channel, with their register state and frame sequencer.
//!
//! The registers 0xFF10-0xFF3F are kept as written. NR50-NR52 (0xFF24-0xFF26)
//! are the control options: NR50 holds the right volume (bits 0-2) and the left
//! volume (bits 4-6); NR51 the left and right channel enables; NR52 bits 0-3
//! the channel length statuses and bit 7 the power.
pub mod volume_envelope;
pub mod square_channel;
pub mod wave_channel;
pub mod noise_channel;
pub mod sample_buf;

use vstd::prelude::*;
use crate::emulator::audio::square_channel::{SquareChannel, sweep_period, frequency, duty};
use crate::emulator::audio::wave_channel::WaveChannel;
use crate::emulator::audio::noise_channel::NoiseChannel;
use crate::emulator::audio::sample_buf::BufState;

verus! {

/// Clock cycles per second.
pub const CLOCK_RATE: usize = 4194304;

/// Samples handed to the frontend per push.
pub const SAMPLES_PER_PUSH: usize = 1024;

/// The output sample rate before the frontend picks one.
pub const DEFAULT_SAMPLE_RATE: usize = 48000;

/// Clock cycles between two length ticks (256 Hz).
pub const LENGTH_STEP_CYCLES: usize = 16384;

/// Clock cycles between two sweep ticks (128 Hz).
pub const SWEEP_STEP_CYCLES: usize = 32768;

/// Clock cycles between two envelope ticks (64 Hz).
pub const VOLUME_STEP_CYCLES: usize = 65536;

/// Whether the sound hardware is powered (NR52 bit 7).
pub open spec fn power(options: Seq<u8>) -> bool {
    (options[2] >> 7u8) & 1 == 1
}

/// NR52 with bits 0-3 set to the four channel statuses.
pub open spec fn channel_status(b: u8, s1: bool, s2: bool, w: bool, n: bool) -> u8 {
    (b & 0xF0) | (if s1 {
        1u8
    } else {
        0u8
    }) | (if s2 {
        2u8
    } else {
        0u8
    }) | (if w {
        4u8
    } else {
        0u8
    }) | (if n {
        8u8
    } else {
        0u8
    })
}

/// Clock cycles per push of `SAMPLES_PER_PUSH` samples at `sample_rate`.
pub open spec fn spec_gen_rate(sample_rate: usize) -> usize {
    ((4194304int * 1024int) / (sample_rate as int)) as usize
}

/// Thousandths of a clock cycle per output sample at `sample_rate`: the clock
/// rate over the sample rate, rounded up.
pub open spec fn spec_clocks_per_sample(sample_rate: usize) -> int {
    let q = 4194304000int / (sample_rate as int);
    if 4194304000int % (sample_rate as int) == 0 {
        q
    } else {
        q + 1
    }
}

/// The sound hardware.
pub struct AudioDevice {
    pub memory: [u8; 48],
    pub options: [u8; 3],
    pub square_channel1: SquareChannel,
    pub square_channel2: SquareChannel,
    pub wave_channel: WaveChannel,
    pub noise_channel: NoiseChannel,
    pub clock_cycles: usize,
    pub length_step_counter: usize,
    pub vol_step_counter: usize,
    pub sweep_step_counter: usize,
    pub gen_rate: usize,
    pub sound_queue_push_requested: bool,
    pub sample_rate: usize,
    /// The stereo sample count of the last push
    pub sample_count: usize,
}

impl AudioDevice {
    /// The channels keep their invariants and a sample rate is set.
    pub open spec fn wf(&self) -> bool {
        &&& self.square_channel1.wf()
        &&& self.square_channel2.wf()
        &&& self.wave_channel.wf()
        &&& self.sample_rate > 0
    }

    /// Whether a frame of `cycles` clock cycles can be sampled: every channel
    /// can record its changes, and its buffer has room for the samples up to
    /// the end of the frame.
    pub open spec fn frame_ok(&self, cycles: usize) -> bool {
        let c = cycles as int;
        let end = (cycles as u32) as int;
        &&& self.square_channel1.sample_ok(c, true)
        &&& self.square_channel1.sampled(c, true).0.add_ok(end)
        &&& self.square_channel2.sample_ok(c, true)
        &&& self.square_channel2.sampled(c, true).0.add_ok(end)
        &&& self.wave_channel.sample_ok(c)
        &&& self.wave_channel.sampled(c).0.add_ok(end)
        &&& self.noise_channel.sample_ok(c)
        &&& self.noise_channel.sampled(c).0.add_ok(end)
    }

    /// The state at power-up: powered off, all registers zero, every channel
    /// silent and untriggered, the first square channel with the sweep, and
    /// the buffers taking samples at the default rate.
    pub open spec fn initial_state(&self) -> bool {
        &&& self.wf()
        &&& self.memory@ == Seq::new(48, |i: int| 0u8)
        &&& self.options@ == seq![0u8, 0, 0]
        &&& self.square_channel1.sweep
        &&& !self.square_channel2.sweep
        &&& self.clock_cycles == 0
        &&& self.length_step_counter == 0
        &&& self.vol_step_counter == 0
        &&& self.sweep_step_counter == 0
        &&& !self.sound_queue_push_requested
        &&& self.sample_rate == DEFAULT_SAMPLE_RATE
        &&& self.gen_rate == spec_gen_rate(DEFAULT_SAMPLE_RATE)
        &&& self.square_channel1.buf@ == (BufState {
            clocks_per_sample: spec_clocks_per_sample(DEFAULT_SAMPLE_RATE),
            ..BufState::fresh(19200)
        })
        &&& self.square_channel2.buf@ == (BufState {
            clocks_per_sample: spec_clocks_per_sample(DEFAULT_SAMPLE_RATE),
            ..BufState::fresh(19200)
        })
        &&& self.wave_channel.buf@ == (BufState {
            clocks_per_sample: spec_clocks_per_sample(DEFAULT_SAMPLE_RATE),
            ..BufState::fresh(9600)
        })
        &&& self.noise_channel.buf@ == (BufState {
            clocks_per_sample: spec_clocks_per_sample(DEFAULT_SAMPLE_RATE),
            ..BufState::fresh(9600)
        })
        &&& self.sample_count == 0
        &&& self.square_channel1.options@ == seq![0u8, 0, 0, 0, 0]
        &&& !self.square_channel1.enabled
        &&& !self.square_channel1.has_triggered
        &&& self.square_channel1.length == 0
        &&& self.square_channel1.volume_envelope.volume == 0
        &&& self.square_channel1.volume_envelope.delay == 0
        &&& self.square_channel1.sweep_delay == 0
        &&& self.square_channel1.sweep_frequency == 0
        &&& self.square_channel1.duty_index == 0
        &&& self.square_channel1.delay == 0
        &&& self.square_channel1.last_amp == 0
        &&& self.square_channel2.options@ == seq![0u8, 0, 0, 0, 0]
        &&& !self.square_channel2.enabled
        &&& !self.square_channel2.has_triggered
        &&& self.square_channel2.length == 0
        &&& self.square_channel2.volume_envelope.volume == 0
        &&& self.square_channel2.volume_envelope.delay == 0
        &&& self.square_channel2.sweep_delay == 0
        &&& self.square_channel2.sweep_frequency == 0
        &&& self.square_channel2.duty_index == 0
        &&& self.square_channel2.delay == 0
        &&& self.square_channel2.last_amp == 0
        &&& self.wave_channel.options@ == seq![0u8, 0, 0, 0, 0]
        &&& self.wave_channel.wave_ram@ == Seq::new(32, |i: int| 0u8)
        &&& !self.wave_channel.enabled
        &&& self.wave_channel.length == 0
        &&& self.wave_channel.delay == 0
        &&& self.wave_channel.last_amp == 0
        &&& self.wave_channel.wave_index == 0
        &&& self.noise_channel.options@ == seq![0u8, 0, 0, 0, 0]
        &&& !self.noise_channel.enabled
        &&& self.noise_channel.delay == 0
        &&& self.noise_channel.last_amp == 0
        &&& self.noise_channel.length == 0
        &&& self.noise_channel.volume_envelope.volume == 0
        &&& self.noise_channel.volume_envelope.delay == 0
        &&& self.noise_channel.lfsr == 0xFF
    }

    /// Powered off, all registers zero, the first square channel with the
    /// sweep, and the default sample rate.
    pub fn new() -> (d: AudioDevice)
        ensures
            d.initial_state(),
    {
        let mut device = AudioDevice {
            memory: [0; 48],
            options: [0; 3],
            square_channel1: SquareChannel::new(true),
            square_channel2: SquareChannel::new(false),
            wave_channel: WaveChannel::new(),
            noise_channel: NoiseChannel::new(),
            clock_cycles: 0,
            length_step_counter: 0,
            vol_step_counter: 0,
            sweep_step_counter: 0,
            gen_rate: 0,
            sound_queue_push_requested: false,
            sample_rate: DEFAULT_SAMPLE_RATE,
            sample_count: 0,
        };
        device.update_output_samplerate();
        assert(device.memory@ =~= Seq::new(48, |i: int| 0u8));
        assert(device.options@ =~= seq![0u8, 0, 0]);
        device
    }

    /// Read a sound register: NR52 from the options, the others as written.
    pub fn read_byte(&self, address: usize) -> (r: u8)
        requires
            0xFF10 <= address <= 0xFF3F,
        ensures
            r == if address == 0xFF26 {
                self.options@[2]
            } else {
                self.memory@[address - 0xFF10]
            },
    {
        if address == 0xFF26 {
            self.options[2]
        } else {
            self.memory[address - 0xFF10]
        }
    }

    /// Copy the channels' enabled flags into NR52 bits 0-3.
    pub fn update_channel_enables(&mut self)
        ensures
            final(self).options@ == old(self).options@.update(
                2,
                channel_status(
                    old(self).options@[2],
                    old(self).square_channel1.enabled,
                    old(self).square_channel2.enabled,
                    old(self).wave_channel.enabled,
                    old(self).noise_channel.enabled,
                ),
            ),
            final(self).memory == old(self).memory,
            final(self).square_channel1 == old(self).square_channel1,
            final(self).square_channel2 == old(self).square_channel2,
            final(self).wave_channel == old(self).wave_channel,
            final(self).noise_channel == old(self).noise_channel,
            final(self).clock_cycles == old(self).clock_cycles,
            final(self).length_step_counter == old(self).length_step_counter,
            final(self).vol_step_counter == old(self).vol_step_counter,
            final(self).sweep_step_counter == old(self).sweep_step_counter,
            final(self).gen_rate == old(self).gen_rate,
            final(self).sound_queue_push_requested == old(self).sound_queue_push_requested,
            final(self).sample_rate == old(self).sample_rate,
            final(self).sample_count == old(self).sample_count,
    {
        let b = (self.options[2] & 0xF0) | (if self.square_channel1.enabled {
            1u8
        } else {
            0u8
        }) | (if self.square_channel2.enabled {
            2u8
        } else {
            0u8
        }) | (if self.wave_channel.enabled {
            4u8
        } else {
            0u8
        }) | (if self.noise_channel.enabled {
            8u8
        } else {
            0u8
        });
        self.options[2] = b;
    }

    /// `new` is this device after a write of `val` to `address`.
    pub open spec fn written(self, new: AudioDevice, address: usize, val: u8) -> bool {
        &&& (!power(self.options@) && address != 0xFF26 ==> new == self)
        &&& (power(self.options@) || address == 0xFF26 ==> {
                &&& new.memory@ == self.memory@.update(address - 0xFF10, val)
                &&& if 0xFF10 <= address <= 0xFF14 {
                    self.square_channel1.options_written(new.square_channel1, val, address - 0xFF10)
                } else {
                    new.square_channel1 == self.square_channel1
                }
                &&& if 0xFF16 <= address <= 0xFF19 {
                    self.square_channel2.options_written(new.square_channel2, val, address - 0xFF15)
                } else {
                    new.square_channel2 == self.square_channel2
                }
                &&& if 0xFF1A <= address <= 0xFF1E {
                    self.wave_channel.options_written(new.wave_channel, val, (address - 0xFF1A) as usize)
                } else if 0xFF30 <= address <= 0xFF3F {
                    &&& new.wave_channel.wave_ram@ == self.wave_channel.wave_ram@.update(
                        (address - 0xFF30) * 2,
                        val >> 4u8,
                    ).update((address - 0xFF30) * 2 + 1, val & 0xF)
                    &&& new.wave_channel == (WaveChannel {
                        wave_ram: new.wave_channel.wave_ram,
                        ..self.wave_channel
                    })
                } else {
                    new.wave_channel == self.wave_channel
                }
                &&& if 0xFF20 <= address <= 0xFF23 {
                    self.noise_channel.options_written(new.noise_channel, val, (address - 0xFF1F) as usize)
                } else {
                    new.noise_channel == self.noise_channel
                }
                &&& new.options@ == if 0xFF24 <= address <= 0xFF26 {
                    new.memory@.subrange(20, 23)
                } else {
                    self.options@
                }
                &&& new.clock_cycles == self.clock_cycles
                &&& new.length_step_counter == self.length_step_counter
                &&& new.vol_step_counter == self.vol_step_counter
                &&& new.sweep_step_counter == self.sweep_step_counter
                &&& new.gen_rate == self.gen_rate
                &&& new.sound_queue_push_requested == self.sound_queue_push_requested
                &&& new.sample_rate == self.sample_rate
                &&& new.sample_count == self.sample_count
            })
    }

    /// Write a sound register. Without power only NR52 can be written. The
    /// byte is stored and passed on to the channel it belongs to; NR50-NR52
    /// reload the control options and 0xFF30-0xFF3F is wave RAM.
    pub fn write_byte(&mut self, address: usize, val: u8)
        requires
            old(self).wf(),
            0xFF10 <= address <= 0xFF3F,
        ensures
            final(self).wf(),
            old(self).written(*final(self), address, val),
    {
        if (self.options[2] >> 7) & 1 != 1 && address != 0xFF26 {
            return;
        }
        self.memory[address - 0xFF10] = val;
        if 0xFF10 <= address && address <= 0xFF14 {
            self.square_channel1.update_options(val, address - 0xFF10);
        } else if 0xFF16 <= address && address <= 0xFF19 {
            self.square_channel2.update_options(val, address - 0xFF15);
        } else if 0xFF1A <= address && address <= 0xFF1E {
            self.wave_channel.update_options(val, address - 0xFF1A);
        } else if 0xFF20 <= address && address <= 0xFF23 {
            self.noise_channel.update_options(val, address - 0xFF1F);
        } else if 0xFF24 <= address && address <= 0xFF26 {
            self.update_options();
        } else if 0xFF30 <= address && address <= 0xFF3F {
            self.wave_channel.write_wave_ram(address, val);
        }
    }

    /// Reload the control options from NR50-NR52 as written.
    pub fn update_options(&mut self)
        ensures
            final(self).options@ == old(self).memory@.subrange(20, 23),
            final(self).memory == old(self).memory,
            final(self).square_channel1 == old(self).square_channel1,
            final(self).square_channel2 == old(self).square_channel2,
            final(self).wave_channel == old(self).wave_channel,
            final(self).noise_channel == old(self).noise_channel,
            final(self).clock_cycles == old(self).clock_cycles,
            final(self).length_step_counter == old(self).length_step_counter,
            final(self).vol_step_counter == old(self).vol_step_counter,
            final(self).sweep_step_counter == old(self).sweep_step_counter,
            final(self).gen_rate == old(self).gen_rate,
            final(self).sound_queue_push_requested == old(self).sound_queue_push_requested,
            final(self).sample_rate == old(self).sample_rate,
            final(self).sample_count == old(self).sample_count,
    {
        self.options = [self.memory[20], self.memory[21], self.memory[22]];
        assert(self.options@ =~= old(self).memory@.subrange(20, 23));
    }

    /// Whether `cycles` clock cycles reach the next length tick.
    pub open spec fn length_due(&self, cycles: usize) -> bool {
        self.length_step_counter + cycles >= LENGTH_STEP_CYCLES
    }

    /// Whether `cycles` clock cycles reach the next sweep tick.
    pub open spec fn sweep_due(&self, cycles: usize) -> bool {
        self.sweep_step_counter + cycles >= SWEEP_STEP_CYCLES
    }

    /// Whether `cycles` clock cycles reach the next envelope tick.
    pub open spec fn volume_due(&self, cycles: usize) -> bool {
        self.vol_step_counter + cycles >= VOLUME_STEP_CYCLES
    }

    /// Whether `cycles` clock cycles make a push of samples due.
    pub open spec fn push_due(&self, cycles: usize) -> bool {
        self.clock_cycles + cycles > self.gen_rate
    }

    /// The first square channel after the length tick of `cycles`, if due.
    pub open spec fn square1_lengthed(&self, cycles: usize) -> SquareChannel {
        if self.length_due(cycles) {
            self.square_channel1.length_stepped()
        } else {
            self.square_channel1
        }
    }

    /// The first square channel after the ticks of `cycles` that are due.
    pub open spec fn square1_stepped(&self, cycles: usize) -> SquareChannel {
        let s1a = self.square1_lengthed(cycles);
        let s1b = if self.sweep_due(cycles) {
            s1a.after_sweep_step(s1a.options@)
        } else {
            s1a
        };
        if self.volume_due(cycles) {
            s1b.volume_stepped()
        } else {
            s1b
        }
    }

    /// Whether the sweep of `cycles` writes a new frequency.
    pub open spec fn sweep_fired(&self, cycles: usize) -> bool {
        let s1a = self.square1_lengthed(cycles);
        self.sweep_due(cycles) && sweep_period(s1a.options@) != 0 && s1a.sweep_delay <= 1
    }

    /// The frequency of the first square channel after `cycles`.
    pub open spec fn square1_frequency(&self, cycles: usize) -> u16 {
        let s1a = self.square1_lengthed(cycles);
        if self.sweep_fired(cycles) {
            if s1a.sweep_frequency == 2048 {
                2047
            } else {
                s1a.sweep_frequency as u16
            }
        } else {
            frequency(self.square_channel1.options@)
        }
    }

    /// The second square channel after the length tick of `cycles`, if due.
    pub open spec fn square2_lengthed(&self, cycles: usize) -> SquareChannel {
        if self.length_due(cycles) {
            self.square_channel2.length_stepped()
        } else {
            self.square_channel2
        }
    }

    /// The second square channel after the ticks of `cycles` that are due.
    pub open spec fn square2_stepped(&self, cycles: usize) -> SquareChannel {
        if self.volume_due(cycles) {
            self.square2_lengthed(cycles).volume_stepped()
        } else {
            self.square2_lengthed(cycles)
        }
    }

    /// The wave channel after the ticks of `cycles` that are due.
    pub open spec fn wave_stepped(&self, cycles: usize) -> WaveChannel {
        if self.length_due(cycles) {
            self.wave_channel.length_stepped()
        } else {
            self.wave_channel
        }
    }

    /// The noise channel after the length tick of `cycles`, if due.
    pub open spec fn noise_lengthed(&self, cycles: usize) -> NoiseChannel {
        if self.length_due(cycles) {
            self.noise_channel.length_stepped()
        } else {
            self.noise_channel
        }
    }

    /// The noise channel after the ticks of `cycles` that are due.
    pub open spec fn noise_stepped(&self, cycles: usize) -> NoiseChannel {
        if self.volume_due(cycles) {
            self.noise_lengthed(cycles).volume_stepped()
        } else {
            self.noise_lengthed(cycles)
        }
    }

    /// What the ticks of `cycles` leave of the registers, the counters and
    /// the frequency of the first square channel.
    pub open spec fn ticked(self, new: AudioDevice, cycles: usize) -> bool {
        let s1a = self.square1_lengthed(cycles);
        &&& !self.sweep_fired(cycles) ==> new.square_channel1.options@ == self.square_channel1.options@
        &&& self.sweep_fired(cycles) ==> {
            &&& frequency(new.square_channel1.options@) == self.square1_frequency(cycles)
            &&& new.square_channel1.options@[0] == self.square_channel1.options@[0]
            &&& new.square_channel1.options@[1] == self.square_channel1.options@[1]
            &&& new.square_channel1.options@[2] == self.square_channel1.options@[2]
            &&& new.square_channel1.options@[4] & 0xF8 == self.square_channel1.options@[4] & 0xF8
        }
        &&& new.square_channel2.options == self.square_channel2.options
        &&& new.options@ == if self.length_due(cycles) {
            self.options@.update(
                2,
                channel_status(
                    self.options@[2],
                    s1a.enabled,
                    self.square2_lengthed(cycles).enabled,
                    self.wave_stepped(cycles).enabled,
                    self.noise_lengthed(cycles).enabled,
                ),
            )
        } else {
            self.options@
        }
        &&& new.length_step_counter == if self.length_due(cycles) {
            self.length_step_counter + cycles - LENGTH_STEP_CYCLES
        } else {
            self.length_step_counter + cycles
        }
        &&& new.sweep_step_counter == if self.sweep_due(cycles) {
            self.sweep_step_counter + cycles - SWEEP_STEP_CYCLES
        } else {
            self.sweep_step_counter + cycles
        }
        &&& new.vol_step_counter == if self.volume_due(cycles) {
            self.vol_step_counter + cycles - VOLUME_STEP_CYCLES
        } else {
            self.vol_step_counter + cycles
        }
        &&& new.memory == self.memory
        &&& new.gen_rate == self.gen_rate
        &&& new.sample_rate == self.sample_rate
    }

    /// Whether the push that `cycles` clock cycles may make due can be made:
    /// every channel, as the ticks leave it, can sample a frame of `gen_rate`
    /// cycles and its samples fit `sample_buf`.
    pub open spec fn push_ok(&self, cycles: usize) -> bool {
        let g = self.gen_rate as int;
        let end = (self.gen_rate as u32) as int;
        power(self.options@) && self.push_due(cycles) ==> {
            &&& self.square1_stepped(cycles).frame_ok_at(
                g,
                true,
                self.square1_frequency(cycles),
                duty(self.square_channel1.options@),
                end,
            )
            &&& self.square2_stepped(cycles).frame_ok_at(
                g,
                true,
                frequency(self.square_channel2.options@),
                duty(self.square_channel2.options@),
                end,
            )
            &&& self.wave_stepped(cycles).frame_ok(g, end)
            &&& self.noise_stepped(cycles).frame_ok(g, end)
        }
    }

    /// `new` is this device after `cycles` clock cycles: without power
    /// nothing changes; with power the ticks that are due run, and when a
    /// push is due a frame of `gen_rate` cycles is sampled into the channels'
    /// `sample_buf`s and the push is requested.
    pub open spec fn cycled(self, new: AudioDevice, cycles: usize) -> bool {
        let g = self.gen_rate as int;
        let end = (self.gen_rate as u32) as int;
        let s1 = self.square1_stepped(cycles);
        let s2 = self.square2_stepped(cycles);
        let w = self.wave_stepped(cycles);
        let n = self.noise_stepped(cycles);
        &&& (!power(self.options@) ==> new == self)
        &&& (power(self.options@) ==> {
            &&& self.ticked(new, cycles)
            &&& !self.push_due(cycles) ==> {
                &&& new.square_channel1.same_state(s1)
                &&& new.square_channel2.same_state(s2)
                &&& new.wave_channel == w
                &&& new.noise_channel == n
                &&& new.clock_cycles == self.clock_cycles + cycles
                &&& new.sound_queue_push_requested == self.sound_queue_push_requested
                &&& new.sample_count == self.sample_count
            }
            &&& self.push_due(cycles) ==> {
                &&& s1.pushed(
                    new.square_channel1,
                    g,
                    true,
                    self.square1_frequency(cycles),
                    duty(self.square_channel1.options@),
                    end,
                )
                &&& s2.pushed(
                    new.square_channel2,
                    g,
                    true,
                    frequency(self.square_channel2.options@),
                    duty(self.square_channel2.options@),
                    end,
                )
                &&& w.pushed(new.wave_channel, g, end)
                &&& n.pushed(new.noise_channel, g, end)
                &&& new.clock_cycles == self.clock_cycles + cycles - self.gen_rate
                &&& new.sound_queue_push_requested
                &&& new.sample_count == 2 * s1.sampled_at(
                    g,
                    true,
                    self.square1_frequency(cycles),
                    duty(self.square_channel1.options@),
                ).0.added(end, 0).samples_available
            }
        })
    }

    /// Run the sound hardware for `cycles` clock cycles. With power, the frame
    /// sequencer steps the lengths at 256 Hz (then the statuses in NR52 are
    /// refreshed), the sweep at 128 Hz and the envelopes at 64 Hz, each at
    /// most once per call; when more than `gen_rate` cycles have gone by, a
    /// frame of `gen_rate` cycles is sampled on every channel, its samples are
    /// moved into the channels' `sample_buf`s and a push is requested.
    pub fn cycle(&mut self, cycles: usize)
        requires
            old(self).wf(),
            old(self).clock_cycles + cycles <= usize::MAX,
            old(self).length_step_counter + cycles <= usize::MAX,
            old(self).vol_step_counter + cycles <= usize::MAX,
            old(self).sweep_step_counter + cycles <= usize::MAX,
            old(self).push_ok(cycles),
        ensures
            final(self).wf(),
            old(self).cycled(*final(self), cycles),
    {
        if (self.options[2] >> 7) & 1 != 1 {
            return;
        }
        self.step_frame_sequencer(cycles);
        let ghost mid = *self;
        proof {
            let o = *old(self);
            o.square1_stepped(cycles).lemma_same_state_samples(
                mid.square_channel1,
                o.gen_rate as int,
                true,
                o.square1_frequency(cycles),
                duty(o.square_channel1.options@),
            );
            o.square2_stepped(cycles).lemma_same_state_samples(
                mid.square_channel2,
                o.gen_rate as int,
                true,
                frequency(o.square_channel2.options@),
                duty(o.square_channel2.options@),
            );
        }
        if self.clock_cycles > self.gen_rate {
            let frame = self.gen_rate;
            self.push_samples(frame);
            self.clock_cycles -= frame;
            self.sound_queue_push_requested = true;
        }
    }

    /// Whether a push of `frame` clock cycles can be made now: every channel
    /// can sample the frame and its samples fit `sample_buf`.
    pub open spec fn frame_push_ok(&self, frame: usize) -> bool {
        let c = frame as int;
        let end = (frame as u32) as int;
        &&& self.square_channel1.frame_ok_at(
            c,
            true,
            frequency(self.square_channel1.options@),
            duty(self.square_channel1.options@),
            end,
        )
        &&& self.square_channel2.frame_ok_at(
            c,
            true,
            frequency(self.square_channel2.options@),
            duty(self.square_channel2.options@),
            end,
        )
        &&& self.wave_channel.frame_ok(c, end)
        &&& self.noise_channel.frame_ok(c, end)
    }

    /// Sample a frame of `frame` clock cycles on every channel and move the
    /// samples into the channels' `sample_buf`s; the mono count, doubled for
    /// the stereo mix, goes into `sample_count`.
    fn push_samples(&mut self, frame: usize)
        requires
            old(self).wf(),
            old(self).frame_push_ok(frame),
        ensures
            final(self).wf(),
            ({
                let c = frame as int;
                let end = (frame as u32) as int;
                let f1 = frequency(old(self).square_channel1.options@);
                let d1 = duty(old(self).square_channel1.options@);
                &&& old(self).square_channel1.pushed(final(self).square_channel1, c, true, f1, d1, end)
                &&& old(self).square_channel2.pushed(
                    final(self).square_channel2,
                    c,
                    true,
                    frequency(old(self).square_channel2.options@),
                    duty(old(self).square_channel2.options@),
                    end,
                )
                &&& old(self).wave_channel.pushed(final(self).wave_channel, c, end)
                &&& old(self).noise_channel.pushed(final(self).noise_channel, c, end)
                &&& final(self).sample_count == 2 * old(self).square_channel1.sampled_at(
                    c,
                    true,
                    f1,
                    d1,
                ).0.added(end, 0).samples_available
            }),
            final(self).square_channel1.options == old(self).square_channel1.options,
            final(self).square_channel2.options == old(self).square_channel2.options,
            final(self).memory == old(self).memory,
            final(self).options == old(self).options,
            final(self).clock_cycles == old(self).clock_cycles,
            final(self).length_step_counter == old(self).length_step_counter,
            final(self).vol_step_counter == old(self).vol_step_counter,
            final(self).sweep_step_counter == old(self).sweep_step_counter,
            final(self).gen_rate == old(self).gen_rate,
            final(self).sound_queue_push_requested == old(self).sound_queue_push_requested,
            final(self).sample_rate == old(self).sample_rate,
    {
        self.generate_samples(frame);
        let n = self.collect_samples();
        self.sample_count = n * 2;
    }

    /// The ticks of the frame sequencer that `cycles` clock cycles make due.
    #[verifier::spinoff_prover]
    #[verifier::rlimit(100)]
    fn step_frame_sequencer(&mut self, cycles: usize)
        requires
            old(self).wf(),
            power(old(self).options@),
            old(self).clock_cycles + cycles <= usize::MAX,
            old(self).length_step_counter + cycles <= usize::MAX,
            old(self).vol_step_counter + cycles <= usize::MAX,
            old(self).sweep_step_counter + cycles <= usize::MAX,
        ensures
            final(self).wf(),
            old(self).ticked(*final(self), cycles),
            final(self).square_channel1.same_state(old(self).square1_stepped(cycles)),
            frequency(final(self).square_channel1.options@) == old(self).square1_frequency(cycles),
            duty(final(self).square_channel1.options@) == duty(old(self).square_channel1.options@),
            final(self).square_channel2.same_state(old(self).square2_stepped(cycles)),
            final(self).wave_channel == old(self).wave_stepped(cycles),
            final(self).noise_channel == old(self).noise_stepped(cycles),
            final(self).clock_cycles == old(self).clock_cycles + cycles,
            final(self).sound_queue_push_requested == old(self).sound_queue_push_requested,
            final(self).sample_count == old(self).sample_count,
    {
        let ghost o = *old(self);
        let ghost s1a = o.square1_lengthed(cycles);
        self.clock_cycles += cycles;
        self.length_step_counter += cycles;
        self.vol_step_counter += cycles;
        self.sweep_step_counter += cycles;
        if self.length_step_counter >= LENGTH_STEP_CYCLES {
            self.length_tick();
            self.length_step_counter -= LENGTH_STEP_CYCLES;
        }
        assert(self.square_channel1 == s1a);
        assert(self.square_channel2 == o.square2_lengthed(cycles));
        assert(self.noise_channel == o.noise_lengthed(cycles));
        let ghost s1b = if o.sweep_due(cycles) {
            s1a.after_sweep_step(s1a.options@)
        } else {
            s1a
        };
        if self.sweep_step_counter >= SWEEP_STEP_CYCLES {
            self.sweep_tick();
            self.sweep_step_counter -= SWEEP_STEP_CYCLES;
        }
        assert(self.square_channel1.same_state(s1b));
        assert(self.square_channel2 == o.square2_lengthed(cycles));
        assert(self.noise_channel == o.noise_lengthed(cycles));
        if self.vol_step_counter >= VOLUME_STEP_CYCLES {
            self.volume_tick();
            self.vol_step_counter -= VOLUME_STEP_CYCLES;
        }
    }

    /// One length tick of every channel, then the statuses into NR52.
    fn length_tick(&mut self)
        requires
            old(self).wf(),
        ensures
            final(self).wf(),
            final(self).square_channel1 == old(self).square_channel1.length_stepped(),
            final(self).square_channel2 == old(self).square_channel2.length_stepped(),
            final(self).wave_channel == old(self).wave_channel.length_stepped(),
            final(self).noise_channel == old(self).noise_channel.length_stepped(),
            final(self).options@ == old(self).options@.update(
                2,
                channel_status(
                    old(self).options@[2],
                    final(self).square_channel1.enabled,
                    final(self).square_channel2.enabled,
                    final(self).wave_channel.enabled,
                    final(self).noise_channel.enabled,
                ),
            ),
            *final(self) == (AudioDevice {
                options: final(self).options,
                square_channel1: final(self).square_channel1,
                square_channel2: final(self).square_channel2,
                wave_channel: final(self).wave_channel,
                noise_channel: final(self).noise_channel,
                ..*old(self)
            }),
    {
        self.square_channel1.step_length();
        self.square_channel2.step_length();
        self.wave_channel.step_length();
        self.noise_channel.step_length();
        self.update_channel_enables();
    }

    /// One sweep tick of the first square channel.
    fn sweep_tick(&mut self)
        requires
            old(self).wf(),
        ensures
            final(self).wf(),
            final(self).square_channel1.same_state(
                old(self).square_channel1.after_sweep_step(old(self).square_channel1.options@),
            ),
            final(self).square_channel1.options@.len() == 5,
            sweep_period(old(self).square_channel1.options@) == 0 || old(self).square_channel1.sweep_delay > 1
                ==> final(self).square_channel1.options@ == old(self).square_channel1.options@,
            sweep_period(old(self).square_channel1.options@) != 0 && old(self).square_channel1.sweep_delay <= 1
                ==> {
                &&& frequency(final(self).square_channel1.options@) == if old(self).square_channel1.sweep_frequency
                    == 2048 {
                    2047
                } else {
                    old(self).square_channel1.sweep_frequency
                }
                &&& final(self).square_channel1.options@[0] == old(self).square_channel1.options@[0]
                &&& final(self).square_channel1.options@[1] == old(self).square_channel1.options@[1]
                &&& final(self).square_channel1.options@[2] == old(self).square_channel1.options@[2]
                &&& final(self).square_channel1.options@[4] & 0xF8 == old(self).square_channel1.options@[4] & 0xF8
            },
            *final(self) == (AudioDevice { square_channel1: final(self).square_channel1, ..*old(self) }),
    {
        self.square_channel1.step_sweep();
    }

    /// One envelope tick of the channels that have an envelope.
    fn volume_tick(&mut self)
        requires
            old(self).wf(),
        ensures
            final(self).wf(),
            final(self).square_channel1.same_state(old(self).square_channel1.volume_stepped()),
            final(self).square_channel1.options == old(self).square_channel1.options,
            final(self).square_channel2.same_state(old(self).square_channel2.volume_stepped()),
            final(self).square_channel2.options == old(self).square_channel2.options,
            final(self).noise_channel == old(self).noise_channel.volume_stepped(),
            *final(self) == (AudioDevice {
                square_channel1: final(self).square_channel1,
                square_channel2: final(self).square_channel2,
                noise_channel: final(self).noise_channel,
                ..*old(self)
            }),
    {
        self.square_channel1.step_volume();
        self.square_channel2.step_volume();
        self.noise_channel.step_volume();
    }

    /// Sample every channel over a frame of `sample_count` clock cycles and
    /// close the frame of each buffer, so that the samples up to its end are
    /// taken and the next frame starts at time 0.
    pub fn generate_samples(&mut self, sample_count: usize)
        requires
            old(self).wf(),
            old(self).frame_ok(sample_count),
        ensures
            final(self).wf(),
            ({
                let c = sample_count as int;
                let end = (sample_count as u32) as int;
                let (b1, a1, d1, i1) = old(self).square_channel1.sampled(c, true);
                let (b2, a2, d2, i2) = old(self).square_channel2.sampled(c, true);
                let (bw, aw, dw, iw) = old(self).wave_channel.sampled(c);
                let (bn, an, dn, iin) = old(self).noise_channel.sampled(c);
                &&& final(self).square_channel1.buf@ == (BufState { current_time: 0, ..b1.added(end, 0) })
                &&& final(self).square_channel1.last_amp == a1
                &&& final(self).square_channel1.delay == d1
                &&& final(self).square_channel1.duty_index == i1
                &&& final(self).square_channel2.buf@ == (BufState { current_time: 0, ..b2.added(end, 0) })
                &&& final(self).square_channel2.last_amp == a2
                &&& final(self).square_channel2.delay == d2
                &&& final(self).square_channel2.duty_index == i2
                &&& final(self).wave_channel.buf@ == (BufState { current_time: 0, ..bw.added(end, 0) })
                &&& final(self).wave_channel.last_amp == aw
                &&& final(self).wave_channel.delay == dw
                &&& final(self).wave_channel.wave_index == iw
                &&& final(self).noise_channel.buf@ == (BufState { current_time: 0, ..bn.added(end, 0) })
                &&& final(self).noise_channel.last_amp == an
                &&& final(self).noise_channel.delay == dn
                &&& final(self).noise_channel.lfsr == iin
            }),
            final(self).square_channel1.options == old(self).square_channel1.options,
            final(self).square_channel1.enabled == old(self).square_channel1.enabled,
            final(self).square_channel1.volume_envelope == old(self).square_channel1.volume_envelope,
            final(self).square_channel1.length == old(self).square_channel1.length,
            final(self).square_channel1.sweep == old(self).square_channel1.sweep,
            final(self).square_channel1.sweep_delay == old(self).square_channel1.sweep_delay,
            final(self).square_channel1.sweep_frequency == old(self).square_channel1.sweep_frequency,
            final(self).square_channel1.has_triggered == old(self).square_channel1.has_triggered,
            final(self).square_channel1.sample_buf == old(self).square_channel1.sample_buf,
            final(self).square_channel2.options == old(self).square_channel2.options,
            final(self).square_channel2.enabled == old(self).square_channel2.enabled,
            final(self).square_channel2.volume_envelope == old(self).square_channel2.volume_envelope,
            final(self).square_channel2.length == old(self).square_channel2.length,
            final(self).square_channel2.sweep == old(self).square_channel2.sweep,
            final(self).square_channel2.sweep_delay == old(self).square_channel2.sweep_delay,
            final(self).square_channel2.sweep_frequency == old(self).square_channel2.sweep_frequency,
            final(self).square_channel2.has_triggered == old(self).square_channel2.has_triggered,
            final(self).square_channel2.sample_buf == old(self).square_channel2.sample_buf,
            final(self).wave_channel.options == old(self).wave_channel.options,
            final(self).wave_channel.wave_ram == old(self).wave_channel.wave_ram,
            final(self).wave_channel.enabled == old(self).wave_channel.enabled,
            final(self).wave_channel.length == old(self).wave_channel.length,
            final(self).wave_channel.sample_buf == old(self).wave_channel.sample_buf,
            final(self).noise_channel.options == old(self).noise_channel.options,
            final(self).noise_channel.enabled == old(self).noise_channel.enabled,
            final(self).noise_channel.length == old(self).noise_channel.length,
            final(self).noise_channel.volume_envelope == old(self).noise_channel.volume_envelope,
            final(self).noise_channel.sample_buf == old(self).noise_channel.sample_buf,
            final(self).memory == old(self).memory,
            final(self).options == old(self).options,
            final(self).clock_cycles == old(self).clock_cycles,
            final(self).length_step_counter == old(self).length_step_counter,
            final(self).vol_step_counter == old(self).vol_step_counter,
            final(self).sweep_step_counter == old(self).sweep_step_counter,
            final(self).gen_rate == old(self).gen_rate,
            final(self).sound_queue_push_requested == old(self).sound_queue_push_requested,
            final(self).sample_rate == old(self).sample_rate,
            final(self).sample_count == old(self).sample_count,
    {
        self.square_channel1.sample(sample_count, true);
        self.square_channel2.sample(sample_count, true);
        self.wave_channel.sample(sample_count);
        self.noise_channel.sample(sample_count);
        let end: u32 = #[verifier::truncate] (sample_count as u32);
        self.square_channel1.buf.end_frame(end);
        self.square_channel2.buf.end_frame(end);
        self.wave_channel.buf.end_frame(end);
        self.noise_channel.buf.end_frame(end);
    }

    /// Move the samples of the frame out of every channel's buffer into its
    /// `sample_buf`; returns the count of the first square channel, the count
    /// of mono samples per channel.
    pub fn collect_samples(&mut self) -> (n: usize)
        requires
            old(self).square_channel1.buf@.samples_available <= 1024,
            old(self).square_channel1.buf@.samples_available <= old(self).square_channel1.buf@.samples.len(),
            old(self).square_channel2.buf@.samples_available <= 1024,
            old(self).square_channel2.buf@.samples_available <= old(self).square_channel2.buf@.samples.len(),
            old(self).wave_channel.buf@.samples_available <= 1024,
            old(self).wave_channel.buf@.samples_available <= old(self).wave_channel.buf@.samples.len(),
            old(self).noise_channel.buf@.samples_available <= 1024,
            old(self).noise_channel.buf@.samples_available <= old(self).noise_channel.buf@.samples.len(),
        ensures
            n == old(self).square_channel1.buf@.samples_available,
            final(self).square_channel1.sample_buf@ == old(self).square_channel1.buf@.samples.subrange(0, n as int)
                + old(self).square_channel1.sample_buf@.subrange(n as int, 1024),
            final(self).square_channel2.sample_buf@ == ({
                let m = old(self).square_channel2.buf@.samples_available;
                old(self).square_channel2.buf@.samples.subrange(0, m) + old(self).square_channel2.sample_buf@.subrange(m, 1024)
            }),
            final(self).wave_channel.sample_buf@ == ({
                let m = old(self).wave_channel.buf@.samples_available;
                old(self).wave_channel.buf@.samples.subrange(0, m) + old(self).wave_channel.sample_buf@.subrange(m, 1024)
            }),
            final(self).noise_channel.sample_buf@ == ({
                let m = old(self).noise_channel.buf@.samples_available;
                old(self).noise_channel.buf@.samples.subrange(0, m) + old(self).noise_channel.sample_buf@.subrange(m, 1024)
            }),
            final(self).square_channel1.buf@ == (BufState { samples_available: 0, ..old(self).square_channel1.buf@ }),
            final(self).square_channel2.buf@ == (BufState { samples_available: 0, ..old(self).square_channel2.buf@ }),
            final(self).wave_channel.buf@ == (BufState { samples_available: 0, ..old(self).wave_channel.buf@ }),
            final(self).noise_channel.buf@ == (BufState { samples_available: 0, ..old(self).noise_channel.buf@ }),
            final(self).square_channel1.same_state(
                SquareChannel {
                    buf: final(self).square_channel1.buf,
                    sample_buf: final(self).square_channel1.sample_buf,
                    ..old(self).square_channel1
                },
            ),
            final(self).square_channel1.options == old(self).square_channel1.options,
            final(self).square_channel2.same_state(
                SquareChannel {
                    buf: final(self).square_channel2.buf,
                    sample_buf: final(self).square_channel2.sample_buf,
                    ..old(self).square_channel2
                },
            ),
            final(self).square_channel2.options == old(self).square_channel2.options,
            final(self).wave_channel == (WaveChannel {
                buf: final(self).wave_channel.buf,
                sample_buf: final(self).wave_channel.sample_buf,
                ..old(self).wave_channel
            }),
            final(self).noise_channel == (NoiseChannel {
                buf: final(self).noise_channel.buf,
                sample_buf: final(self).noise_channel.sample_buf,
                ..old(self).noise_channel
            }),
            final(self).memory == old(self).memory,
            final(self).options == old(self).options,
            final(self).clock_cycles == old(self).clock_cycles,
            final(self).length_step_counter == old(self).length_step_counter,
            final(self).vol_step_counter == old(self).vol_step_counter,
            final(self).sweep_step_counter == old(self).sweep_step_counter,
            final(self).gen_rate == old(self).gen_rate,
            final(self).sound_queue_push_requested == old(self).sound_queue_push_requested,
            final(self).sample_rate == old(self).sample_rate,
            final(self).sample_count == old(self).sample_count,
    {
        let n = self.square_channel1.generate_output_buffer();
        self.square_channel2.generate_output_buffer();
        self.wave_channel.generate_output_buffer();
        self.noise_channel.generate_output_buffer();
        n
    }

    /// The sum of sample `i` of the channels that NR51 routes to one side:
    /// the channels whose bit, from `shift` up (0 for the right side, 4 for
    /// the left), is set.
    pub open spec fn routed_sum(&self, i: int, shift: u8) -> int {
        let nr51 = self.options@[1];
        (if (nr51 >> shift) & 1 == 1 { self.square_channel1.sample_buf@[i] as int } else { 0 })
            + (if (nr51 >> ((shift + 1) as u8)) & 1 == 1 { self.square_channel2.sample_buf@[i] as int } else { 0 })
            + (if (nr51 >> ((shift + 2) as u8)) & 1 == 1 { self.wave_channel.sample_buf@[i] as int } else { 0 })
            + (if (nr51 >> ((shift + 3) as u8)) & 1 == 1 { self.noise_channel.sample_buf@[i] as int } else { 0 })
    }

    /// Sample `i` of the last push, routed by NR51 and summed per side, before
    /// the volume scaling: the left sum, then the right sum.
    pub fn routed_sample(&self, i: usize) -> (r: (i32, i32))
        requires
            i < 1024,
        ensures
            r.0 == self.routed_sum(i as int, 4),
            r.1 == self.routed_sum(i as int, 0),
    {
        let nr51 = self.options[1];
        let s1 = self.square_channel1.sample_buf[i] as i32;
        let s2 = self.square_channel2.sample_buf[i] as i32;
        let w = self.wave_channel.sample_buf[i] as i32;
        let n = self.noise_channel.sample_buf[i] as i32;
        let mut left: i32 = 0;
        let mut right: i32 = 0;
        if (nr51 >> 4) & 1 == 1 {
            left = left + s1;
        }
        if nr51 & 1 == 1 {
            right = right + s1;
        }
        if (nr51 >> 5) & 1 == 1 {
            left = left + s2;
        }
        if (nr51 >> 1) & 1 == 1 {
            right = right + s2;
        }
        if (nr51 >> 6) & 1 == 1 {
            left = left + w;
        }
        if (nr51 >> 2) & 1 == 1 {
            right = right + w;
        }
        if (nr51 >> 7) & 1 == 1 {
            left = left + n;
        }
        if (nr51 >> 3) & 1 == 1 {
            right = right + n;
        }
        assert(nr51 >> 0u8 == nr51) by (bit_vector);
        (left, right)
    }

    /// Drop the samples and the amplitude of every channel's buffer.
    pub fn clear_blipbufs(&mut self)
        ensures
            final(self).square_channel1.buf@ == (BufState {
                samples_available: 0,
                current_value: 0,
                ..old(self).square_channel1.buf@
            }),
            final(self).square_channel2.buf@ == (BufState {
                samples_available: 0,
                current_value: 0,
                ..old(self).square_channel2.buf@
            }),
            final(self).wave_channel.buf@ == (BufState {
                samples_available: 0,
                current_value: 0,
                ..old(self).wave_channel.buf@
            }),
            final(self).noise_channel.buf@ == (BufState {
                samples_available: 0,
                current_value: 0,
                ..old(self).noise_channel.buf@
            }),
    {
        self.square_channel1.buf.clear();
        self.square_channel2.buf.clear();
        self.wave_channel.buf.clear();
        self.noise_channel.buf.clear();
    }

    /// `new` is this device with every channel's buffer taking one sample per
    /// `sample_rate`-th of a second; all else but the cycles per push is kept.
    pub open spec fn bufs_rated(self, new: AudioDevice, sample_rate: usize) -> bool {
        &&& new.square_channel1.buf@ == (BufState {
            clocks_per_sample: spec_clocks_per_sample(sample_rate),
            ..self.square_channel1.buf@
        })
        &&& new.square_channel2.buf@ == (BufState {
            clocks_per_sample: spec_clocks_per_sample(sample_rate),
            ..self.square_channel2.buf@
        })
        &&& new.wave_channel.buf@ == (BufState {
            clocks_per_sample: spec_clocks_per_sample(sample_rate),
            ..self.wave_channel.buf@
        })
        &&& new.noise_channel.buf@ == (BufState {
            clocks_per_sample: spec_clocks_per_sample(sample_rate),
            ..self.noise_channel.buf@
        })
        &&& new.square_channel1.same_state(
            SquareChannel { buf: new.square_channel1.buf, ..self.square_channel1 },
        )
        &&& new.square_channel1.options == self.square_channel1.options
        &&& new.square_channel2.same_state(
            SquareChannel { buf: new.square_channel2.buf, ..self.square_channel2 },
        )
        &&& new.square_channel2.options == self.square_channel2.options
        &&& new.wave_channel == (WaveChannel { buf: new.wave_channel.buf, ..self.wave_channel })
        &&& new.noise_channel == (NoiseChannel { buf: new.noise_channel.buf, ..self.noise_channel })
        &&& new.memory == self.memory
        &&& new.options == self.options
        &&& new.clock_cycles == self.clock_cycles
        &&& new.length_step_counter == self.length_step_counter
        &&& new.vol_step_counter == self.vol_step_counter
        &&& new.sweep_step_counter == self.sweep_step_counter
        &&& new.sound_queue_push_requested == self.sound_queue_push_requested
        &&& new.sample_rate == self.sample_rate
        &&& new.sample_count == self.sample_count
    }

    /// Set every channel's buffer to take one sample per `sample_rate`-th of a
    /// second: the clock rate in thousandths of a cycle over the sample rate,
    /// rounded up.
    pub fn set_blipbuf_sample_rates(&mut self, sample_rate: usize)
        requires
            sample_rate > 0,
        ensures
            old(self).bufs_rated(*final(self), sample_rate),
            final(self).gen_rate == old(self).gen_rate,
    {
        let scaled: u64 = 4194304u64 * 1000u64;
        let rate = sample_rate as u64;
        let q = scaled / rate;
        assert(q <= 4194304000) by (nonlinear_arith)
            requires
                q == scaled / rate,
                rate >= 1,
                scaled == 4194304000,
        ;
        assert(scaled % rate != 0 ==> q < 4194304000) by (nonlinear_arith)
            requires
                q == scaled / rate,
                rate >= 1,
                scaled == 4194304000,
        ;
        let cps: usize = if scaled % rate == 0 {
            q as usize
        } else {
            (q + 1) as usize
        };
        self.square_channel1.buf.set_clocks_per_sample(cps);
        self.square_channel2.buf.set_clocks_per_sample(cps);
        self.wave_channel.buf.set_clocks_per_sample(cps);
        self.noise_channel.buf.set_clocks_per_sample(cps);
    }

    /// Change the output sample rate (between pushes).
    pub fn set_output_samplerate(&mut self, sample_rate: usize)
        requires
            old(self).wf(),
            sample_rate > 0,
        ensures
            final(self).wf(),
            final(self).sample_rate == sample_rate,
            final(self).gen_rate == if sample_rate != old(self).sample_rate {
                spec_gen_rate(sample_rate)
            } else {
                old(self).gen_rate
            },
            final(self).options == old(self).options,
            final(self).memory == old(self).memory,
            sample_rate != old(self).sample_rate ==> (AudioDevice { sample_rate, ..*old(self) }).bufs_rated(
                *final(self),
                sample_rate,
            ),
            sample_rate == old(self).sample_rate ==> *final(self) == *old(self),
    {
        if sample_rate != self.sample_rate {
            self.sample_rate = sample_rate;
            self.update_output_samplerate();
        }
    }

    /// Recompute the cycles per push from the sample rate.
    pub fn update_output_samplerate(&mut self)
        requires
            old(self).sample_rate > 0,
        ensures
            final(self).gen_rate == spec_gen_rate(old(self).sample_rate),
            old(self).bufs_rated(*final(self), old(self).sample_rate),
    {
        self.gen_rate = ((4194304u64 * 1024u64) / self.sample_rate as u64) as usize;
        let rate = self.sample_rate;
        self.set_blipbuf_sample_rates(rate);
    }
}

} // verus!
