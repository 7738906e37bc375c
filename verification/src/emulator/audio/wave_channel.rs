//! The wave channel: plays 32 four-bit samples from wave RAM (0xFF30-0xFF3F).
//!
//! Register layout, bit 0 first: NR30 bit 7 DAC power; NR31 length load (8
//! bits); NR32 bits 5-6 volume code; NR33 and NR34 bits 0-2 the 11-bit
//! frequency; NR34 bit 6 length enable, bit 7 trigger.
use vstd::prelude::*;
use crate::emulator::audio::sample_buf::{SampleBuf, BufState, ToneState, change_ok, tone_step, tone_loop, lemma_tone_loop_ok};

verus! {

pub open spec fn wave_length_load(o: Seq<u8>) -> u8 {
    o[1]
}

pub open spec fn wave_volume_code(o: Seq<u8>) -> u8 {
    (o[2] >> 5u8) & 3
}

pub open spec fn wave_frequency(o: Seq<u8>) -> u16 {
    (o[3] as u16) | (((o[4] & 7) as u16) << 8u16)
}

pub open spec fn wave_length_enable(o: Seq<u8>) -> bool {
    (o[4] >> 6u8) & 1 == 1
}

proof fn lemma_wave_bits(b3: u8, b4: u8, val: u8)
    by (bit_vector)
    ensures
        (b3 as u16) | (((b4 & 7) as u16) << 8u16) < 2048,
        val >> 4u8 < 16,
        val & 0xF < 16,
{
}

/// The wave channel.
pub struct WaveChannel {
    pub options: [u8; 5],
    pub wave_ram: [u8; 32],
    pub enabled: bool,
    pub length: usize,
    pub delay: usize,
    pub last_amp: i32,
    pub wave_index: usize,
    /// The samples of the wave, at the output rate
    pub buf: SampleBuf,
    /// The samples of the last frame
    pub sample_buf: [i16; 1024],
}

impl WaveChannel {
    pub fn new() -> (c: WaveChannel)
        ensures
            c.options@ == seq![0u8, 0, 0, 0, 0],
            c.wave_ram@ == Seq::new(32, |i: int| 0u8),
            !c.enabled,
            c.length == 0,
            c.delay == 0,
            c.last_amp == 0,
            c.wave_index == 0,
            c.buf@ == BufState::fresh(9600),
    {
        let c = WaveChannel {
            options: [0; 5],
            wave_ram: [0; 32],
            enabled: false,
            length: 0,
            last_amp: 0,
            delay: 0,
            wave_index: 0,
            buf: SampleBuf::new(9600),
            sample_buf: [0; 1024],
        };
        assert(c.options@ =~= seq![0u8, 0, 0, 0, 0]);
        assert(c.wave_ram@ =~= Seq::new(32, |i: int| 0u8));
        c
    }

    /// The channel `new` is this one after register `index` was written with
    /// `byte`.
    pub open spec fn options_written(self, new: WaveChannel, byte: u8, index: usize) -> bool {
        &&& (new.options@ == self.options@.update(index as int, byte))
        &&& (new.wave_ram == self.wave_ram)
        &&& (new.wave_index == self.wave_index)
        &&& (new.buf == self.buf)
        &&& (new.sample_buf == self.sample_buf)
        &&& (new.last_amp == self.last_amp)
        &&& (index == 4 && byte & 0x80 != 0 ==> {
                &&& new.length == 256 - wave_length_load(new.options@)
                &&& new.enabled
                &&& new.delay == 0
            })
        &&& (!(index == 4 && byte & 0x80 != 0) ==> {
                &&& new.length == if index == 1 {
                    256 - wave_length_load(new.options@)
                } else {
                    self.length as int
                }
                &&& new.enabled == self.enabled
                &&& new.delay == self.delay
            })
    }

    /// The channel after one length tick.
    pub open spec fn length_stepped(self) -> WaveChannel {
        if wave_length_enable(self.options@) {
            if self.length == 0 {
                WaveChannel { enabled: false, ..self }
            } else {
                WaveChannel { enabled: true, length: (self.length - 1) as usize, ..self }
            }
        } else {
            WaveChannel { enabled: true, ..self }
        }
    }

    /// Store register `index`; a write of bit 7 to NR34 triggers the channel and
    /// NR31 reloads the length.
    pub fn update_options(&mut self, byte: u8, index: usize)
        requires
            index < 5,
        ensures
            old(self).options_written(*final(self), byte, index),
    {
        self.options[index] = byte;
        if index == 4 && (byte & 0b1000_0000 != 0) {
            self.trigger();
        } else if index == 1 {
            self.length = 256 - self.options[1] as usize;
        }
    }

    /// Store a byte of wave RAM as two samples, high nibble first.
    pub fn write_wave_ram(&mut self, addr: usize, val: u8)
        requires
            0xFF30 <= addr <= 0xFF3F,
        ensures
            final(self).wave_ram@ == old(self).wave_ram@.update((addr - 0xFF30) * 2, val >> 4u8).update(
                (addr - 0xFF30) * 2 + 1,
                val & 0xF,
            ),
            final(self).options == old(self).options,
            final(self).enabled == old(self).enabled,
            final(self).length == old(self).length,
            final(self).delay == old(self).delay,
            final(self).wave_index == old(self).wave_index,
            final(self).last_amp == old(self).last_amp,
            final(self).buf == old(self).buf,
            final(self).sample_buf == old(self).sample_buf,
    {
        let new_addr = (addr - 0xFF30) * 2;
        self.wave_ram[new_addr + 0] = val >> 4;
        self.wave_ram[new_addr + 1] = val & 0xF;
    }

    /// Trigger: reload the length, enable, restart the sample timer.
    pub fn trigger(&mut self)
        ensures
            final(self).length == 256 - wave_length_load(old(self).options@),
            final(self).enabled,
            final(self).delay == 0,
            final(self).options == old(self).options,
            final(self).wave_ram == old(self).wave_ram,
            final(self).wave_index == old(self).wave_index,
            final(self).last_amp == old(self).last_amp,
            final(self).buf == old(self).buf,
            final(self).sample_buf == old(self).sample_buf,
    {
        self.length = 256 - self.options[1] as usize;
        self.enabled = true;
        self.delay = 0;
    }

    /// One length tick (256 Hz), as for the square channels.
    pub fn step_length(&mut self)
        ensures
            *final(self) == old(self).length_stepped(),
    {
        if (self.options[4] >> 6) & 1 == 1 {
            if self.length == 0 {
                self.enabled = false;
            } else {
                self.enabled = true;
                self.length -= 1;
            }
        } else {
            self.enabled = true;
        }
    }

    /// The position in wave RAM is one of its 32 samples.
    pub open spec fn wf(&self) -> bool {
        self.wave_index < 32
    }

    /// The amplitude of wave RAM sample `i` at the volume code: shifted right
    /// by the code less one (code 0 is silent).
    pub open spec fn amp_of(&self) -> spec_fn(int) -> int {
        let ram = self.wave_ram@;
        let code = wave_volume_code(self.options@);
        |i: int| (ram[i] >> ((code - 1) as u8)) as int
    }

    /// The sample loop over `cycles` clock cycles.
    pub open spec fn tone_run(&self, cycles: int) -> (ToneState, int) {
        tone_loop(
            ToneState {
                index: self.wave_index as int,
                last_amp: self.last_amp as int,
                buf: self.buf@,
                ok: true,
            },
            self.delay as int,
            cycles,
            (2048 - wave_frequency(self.options@)) * 2,
            self.amp_of(),
            |i: int| (i + 1) % 32,
        )
    }

    /// The channel is silent: off, without a period or at volume code 0.
    pub open spec fn silent(&self) -> bool {
        !self.enabled || (2048 - wave_frequency(self.options@)) * 2 == 0 || wave_volume_code(self.options@) == 0
    }

    /// Whether `sample` can run.
    pub open spec fn sample_ok(&self, cycles: int) -> bool {
        if self.silent() {
            self.last_amp != 0 ==> change_ok(self.buf@, 0, self.last_amp as int, 0)
        } else {
            self.tone_run(cycles).0.ok
        }
    }

    /// What `sample` leaves: the buffer, the amplitude, the time into the next
    /// period and the position in wave RAM.
    pub open spec fn sampled(&self, cycles: int) -> (BufState, int, int, int) {
        if self.silent() {
            if self.last_amp != 0 {
                (self.buf@.added(0, -self.last_amp as i32), 0, 0, self.wave_index as int)
            } else {
                (self.buf@, 0, self.delay as int, self.wave_index as int)
            }
        } else {
            let (s, t) = self.tone_run(cycles);
            (s.buf, s.last_amp, t - cycles, s.index)
        }
    }

    /// Whether a frame of `cycles` clock cycles, closed at clock time `end`,
    /// can be sampled and its samples fit the 1024 of `sample_buf`.
    pub open spec fn frame_ok(&self, cycles: int, end: int) -> bool {
        let b = self.sampled(cycles).0;
        &&& self.sample_ok(cycles)
        &&& b.add_ok(end)
        &&& b.added(end, 0).samples_available <= 1024
    }

    /// `new` is this channel after a frame of `cycles` clock cycles was
    /// sampled, closed at `end`, and its samples moved into `sample_buf`.
    pub open spec fn pushed(self, new: WaveChannel, cycles: int, end: int) -> bool {
        let (b, a, dl, i) = self.sampled(cycles);
        let framed = BufState { current_time: 0, ..b.added(end, 0) };
        let m = framed.samples_available;
        &&& new.buf@ == BufState { samples_available: 0, ..framed }
        &&& new.sample_buf@ == framed.samples.subrange(0, m) + self.sample_buf@.subrange(m, 1024)
        &&& new.last_amp == a
        &&& new.delay == dl
        &&& new.wave_index == i
        &&& new.options == self.options
        &&& new.wave_ram == self.wave_ram
        &&& new.enabled == self.enabled
        &&& new.length == self.length
    }

    /// Produce the wave for `cycles` clock cycles: one wave RAM sample per
    /// period, from where the last frame left off; a silent channel drops to 0.
    pub fn sample(&mut self, cycles: usize)
        requires
            old(self).wf(),
            old(self).sample_ok(cycles as int),
        ensures
            final(self).wf(),
            final(self).options == old(self).options,
            final(self).wave_ram == old(self).wave_ram,
            final(self).enabled == old(self).enabled,
            final(self).length == old(self).length,
            final(self).sample_buf == old(self).sample_buf,
            ({
                let (b, a, d, i) = old(self).sampled(cycles as int);
                &&& final(self).buf@ == b
                &&& final(self).last_amp == a
                &&& final(self).delay == d
                &&& final(self).wave_index == i
            }),
            old(self).silent() && old(self).last_amp != 0 ==> {
                &&& final(self).buf@ == old(self).buf@.added(0, -old(self).last_amp as i32)
                &&& final(self).last_amp == 0
                &&& final(self).delay == 0
                &&& final(self).wave_index == old(self).wave_index
            },
            old(self).silent() && old(self).last_amp == 0 ==> {
                &&& final(self).buf@ == old(self).buf@
                &&& final(self).last_amp == 0
                &&& final(self).delay == old(self).delay
                &&& final(self).wave_index == old(self).wave_index
            },
            !old(self).silent() ==> ({
                let (s, t) = old(self).tone_run(cycles as int);
                &&& final(self).buf@ == s.buf
                &&& final(self).last_amp == s.last_amp
                &&& final(self).wave_index == s.index
                &&& final(self).delay == t - cycles
            }),
    {
        let period = self.calculate_period();
        let nr32: u8 = self.options[2];
        let code = (nr32 >> 5) & 3;
        if !self.enabled || period == 0 || code == 0 {
            if self.last_amp != 0 {
                self.buf.add_delta(0, -self.last_amp);
                self.last_amp = 0;
                self.delay = 0;
            }
        } else {
            let ghost amp_of = old(self).amp_of();
            let ghost next_of = |i: int| (i + 1) % 32;
            let ghost init = old(self).tone_run(cycles as int);
            let mut time = self.delay;
            proof {
                lemma_tone_loop_ok(
                    ToneState { index: self.wave_index as int, last_amp: self.last_amp as int, buf: self.buf@, ok: true },
                    time as int,
                    cycles as int,
                    period as int,
                    amp_of,
                    next_of,
                );
                assert(code < 4) by (bit_vector)
                    requires
                        code == (nr32 >> 5u8) & 3,
                ;
            }
            while time < cycles
                invariant
                    self.wf(),
                    period > 0,
                    0 < code < 4,
                    code == wave_volume_code(old(self).options@),
                    amp_of == old(self).amp_of(),
                    next_of == (|i: int| (i + 1) % 32),
                    self.options == old(self).options,
                    self.wave_ram == old(self).wave_ram,
                    self.enabled == old(self).enabled,
                    self.length == old(self).length,
                    self.sample_buf == old(self).sample_buf,
                    init.0.ok,
                    tone_loop(
                        ToneState {
                            index: self.wave_index as int,
                            last_amp: self.last_amp as int,
                            buf: self.buf@,
                            ok: true,
                        },
                        time as int,
                        cycles as int,
                        period as int,
                        amp_of,
                        next_of,
                    ) == init,
                decreases (if time < cycles {
                    cycles - time
                } else {
                    0
                }),
            {
                let ghost s0 = ToneState {
                    index: self.wave_index as int,
                    last_amp: self.last_amp as int,
                    buf: self.buf@,
                    ok: true,
                };
                proof {
                    lemma_tone_loop_ok(
                        tone_step(s0, time as int, period as int, amp_of, next_of),
                        time + period,
                        cycles as int,
                        period as int,
                        amp_of,
                        next_of,
                    );
                }
                let amp = (self.wave_ram[self.wave_index] >> (code - 1)) as i32;
                assert(amp == amp_of(self.wave_index as int));
                if amp != self.last_amp {
                    self.buf.add_delta(time as u32, amp - self.last_amp);
                    self.last_amp = amp;
                }
                time += period;
                self.wave_index = (self.wave_index + 1) % 32;
            }
            self.delay = time - cycles;
        }
    }

    /// Move the samples of the frame into `sample_buf`; returns how many.
    pub fn generate_output_buffer(&mut self) -> (n: usize)
        requires
            old(self).buf@.samples_available <= 1024,
            old(self).buf@.samples_available <= old(self).buf@.samples.len(),
        ensures
            n == old(self).buf@.samples_available,
            final(self).sample_buf@ == old(self).buf@.samples.subrange(0, n as int) + old(self).sample_buf@.subrange(
                n as int,
                1024,
            ),
            final(self).buf@ == (BufState { samples_available: 0, ..old(self).buf@ }),
            *final(self) == (WaveChannel { buf: final(self).buf, sample_buf: final(self).sample_buf, ..*old(self) }),
    {
        self.buf.read_samples(&mut self.sample_buf, false)
    }

    /// The number of clock cycles per sample: (2048 - frequency) * 2.
    pub fn calculate_period(&self) -> (p: usize)
        ensures
            p == (2048 - wave_frequency(self.options@)) * 2,
    {
        proof {
            lemma_wave_bits(self.options[3], self.options[4], 0);
        }
        let f = (self.options[3] as u16) | (((self.options[4] & 7) as u16) << 8);
        (2048 - f as usize) * 2
    }
}

/// The volume code scales the wave RAM samples: code 1 plays them as they
/// are, code 2 at half and code 3 at a quarter (rounded down); code 0 mutes
/// the channel.
pub proof fn lemma_wave_volume(w: WaveChannel, i: int)
    requires
        0 <= i < 32,
    ensures
        wave_volume_code(w.options@) == 1 ==> (w.amp_of())(i) == w.wave_ram@[i],
        wave_volume_code(w.options@) == 2 ==> (w.amp_of())(i) == w.wave_ram@[i] / 2,
        wave_volume_code(w.options@) == 3 ==> (w.amp_of())(i) == w.wave_ram@[i] / 4,
        wave_volume_code(w.options@) == 0 ==> w.silent(),
{
    let v = w.wave_ram@[i];
    assert(v >> 0u8 == v && v >> 1u8 == v / 2 && v >> 2u8 == v / 4) by (bit_vector);
}

} // verus!
