//! The noise channel: a linear feedback shift register clocked at a rate the
//! options pick, with a length counter and a volume envelope.
//!
//! Register layout, bit 0 first: NR41 length load (6 bits); NR42 envelope
//! period (3 bits), envelope mode, starting volume (4 bits); NR43 divisor code
//! (3 bits), width mode, clock shift (4 bits); NR44 bit 6 length enable, bit 7
//! trigger.
use vstd::prelude::*;
use crate::emulator::audio::volume_envelope::VolumeEnvelope;
use crate::emulator::audio::sample_buf::{SampleBuf, BufState, ToneState, change_ok, tone_step, tone_loop, lemma_tone_loop_ok};

verus! {

pub open spec fn noise_length_load(o: Seq<u8>) -> u8 {
    o[1] & 0x3F
}

pub open spec fn noise_divisor_code(o: Seq<u8>) -> u8 {
    o[3] & 7
}

pub open spec fn noise_width_mode(o: Seq<u8>) -> bool {
    (o[3] >> 3u8) & 1 == 1
}

pub open spec fn noise_clock_shift(o: Seq<u8>) -> u8 {
    o[3] >> 4u8
}

pub open spec fn noise_length_enable(o: Seq<u8>) -> bool {
    (o[4] >> 6u8) & 1 == 1
}

/// The shift register after one step: bit 0 XOR bit 1 goes into bit 14 (and,
/// in width mode, into bit 6 instead of the shifted bit 6).
pub open spec fn lfsr_next(lfsr: u16, width_mode: bool) -> u16 {
    let xored = (lfsr ^ (lfsr >> 1u16)) & 1;
    let shifted = lfsr >> 1u16;
    if width_mode {
        (shifted & !(1u16 << 6u16)) | (xored << 6u16)
    } else {
        shifted | (xored << 14u16)
    }
}

/// The output bit of the shift register: bit 6 in width mode, else bit 14,
/// inverted.
pub open spec fn noise_bit(lfsr: u16, width_mode: bool) -> u16 {
    if width_mode {
        !(lfsr >> 6u16) & 1
    } else {
        !(lfsr >> 14u16) & 1
    }
}

proof fn lemma_noise_bits(b1: u8, b3: u8)
    by (bit_vector)
    ensures
        b1 & 0x3F <= 63,
        b3 & 7 < 8,
        b3 >> 4u8 < 16,
{
}

/// The noise channel.
pub struct NoiseChannel {
    pub options: [u8; 5],
    pub enabled: bool,
    pub delay: usize,
    pub last_amp: i32,
    pub volume_envelope: VolumeEnvelope,
    pub length: usize,
    pub lfsr: u16,
    /// The samples of the noise, at the output rate
    pub buf: SampleBuf,
    /// The samples of the last frame
    pub sample_buf: [i16; 1024],
}

impl NoiseChannel {
    pub fn new() -> (c: NoiseChannel)
        ensures
            c.options@ == seq![0u8, 0, 0, 0, 0],
            !c.enabled,
            c.delay == 0,
            c.last_amp == 0,
            c.length == 0,
            c.volume_envelope.volume == 0,
            c.volume_envelope.delay == 0,
            c.lfsr == 0xFF,
            c.buf@ == BufState::fresh(9600),
    {
        let c = NoiseChannel {
            options: [0; 5],
            enabled: false,
            delay: 0,
            last_amp: 0,
            length: 0,
            volume_envelope: VolumeEnvelope::new(),
            lfsr: 0xFF,
            buf: SampleBuf::new(9600),
            sample_buf: [0; 1024],
        };
        assert(c.options@ =~= seq![0u8, 0, 0, 0, 0]);
        c
    }

    /// The channel `new` is this one after register `index` was written with
    /// `byte`.
    pub open spec fn options_written(self, new: NoiseChannel, byte: u8, index: usize) -> bool {
        &&& (new.options@ == self.options@.update(index as int, byte))
        &&& (new.last_amp == self.last_amp)
        &&& (new.buf == self.buf)
        &&& (new.sample_buf == self.sample_buf)
        &&& (index == 4 && byte & 0x80 != 0 ==> {
                let o = new.options@;
                &&& new.length == 64 - noise_length_load(o)
                &&& new.enabled
                &&& new.volume_envelope == (VolumeEnvelope { delay: o[2] & 7, volume: o[2] >> 4u8 })
                &&& new.lfsr == 0xFF
                &&& new.delay == 0
            })
        &&& (!(index == 4 && byte & 0x80 != 0) ==> {
                &&& new.length == if index == 1 {
                    64 - noise_length_load(new.options@)
                } else {
                    self.length as int
                }
                &&& new.enabled == self.enabled
                &&& new.volume_envelope == self.volume_envelope
                &&& new.lfsr == self.lfsr
                &&& new.delay == self.delay
            })
    }

    /// The channel after one length tick.
    pub closed spec fn length_stepped(self) -> NoiseChannel {
        if noise_length_enable(self.options@) {
            if self.length == 0 {
                NoiseChannel { enabled: false, ..self }
            } else {
                NoiseChannel { enabled: true, length: (self.length - 1) as usize, ..self }
            }
        } else {
            self
        }
    }

    /// The channel after one envelope tick.
    pub closed spec fn volume_stepped(self) -> NoiseChannel {
        let e = self.volume_envelope;
        let mode = (self.options@[2] >> 3u8) & 1 == 1;
        if e.delay > 1 {
            NoiseChannel { volume_envelope: VolumeEnvelope { delay: (e.delay - 1) as u8, ..e }, ..self }
        } else if e.delay == 1 {
            NoiseChannel {
                volume_envelope: VolumeEnvelope {
                    delay: self.options@[2] & 7,
                    volume: if mode && e.volume < 15 {
                        (e.volume + 1) as u8
                    } else if !mode && e.volume > 0 {
                        (e.volume - 1) as u8
                    } else {
                        e.volume
                    },
                },
                ..self
            }
        } else {
            self
        }
    }

    /// Store register `index`; a write of bit 7 to NR44 triggers the channel
    /// (length, envelope and shift register reset), NR41 reloads the length.
    pub fn update_options(&mut self, byte: u8, index: usize)
        requires
            index < 5,
        ensures
            old(self).options_written(*final(self), byte, index),
    {
        self.options[index] = byte;
        proof {
            lemma_noise_bits(self.options[1], self.options[3]);
        }
        if index == 4 && (byte & 0b1000_0000 != 0) {
            self.length = 64 - (self.options[1] & 0x3F) as usize;
            self.enabled = true;
            self.volume_envelope.delay = self.options[2] & 7;
            self.volume_envelope.volume = self.options[2] >> 4;
            self.lfsr = 0xFF;
            self.delay = 0;
        } else if index == 1 {
            self.length = 64 - (self.options[1] & 0x3F) as usize;
        }
    }

    /// The number of clock cycles per shift: the divisor (8 for code 0, else 16
    /// times the code) shifted left by the clock shift.
    pub fn calculate_period(&self) -> (p: usize)
        ensures
            p == (if noise_divisor_code(self.options@) == 0 {
                8usize
            } else {
                (noise_divisor_code(self.options@) * 16) as usize
            }) << (noise_clock_shift(self.options@) as usize),
    {
        proof {
            lemma_noise_bits(self.options[1], self.options[3]);
        }
        let code = self.options[3] & 7;
        let divisor: usize = if code == 0 {
            8
        } else {
            code as usize * 16
        };
        let shift = (self.options[3] >> 4) as usize;
        assert(divisor << shift <= 112 * 32768) by (bit_vector)
            requires
                divisor <= 112,
                shift < 16,
        ;
        divisor << shift
    }

    /// Step the shift register once.
    pub fn rng_lfsr(&mut self)
        ensures
            final(self).lfsr == lfsr_next(old(self).lfsr, noise_width_mode(old(self).options@)),
            final(self).options == old(self).options,
            final(self).enabled == old(self).enabled,
            final(self).length == old(self).length,
            final(self).volume_envelope == old(self).volume_envelope,
            final(self).delay == old(self).delay,
            final(self).last_amp == old(self).last_amp,
            final(self).buf == old(self).buf,
            final(self).sample_buf == old(self).sample_buf,
    {
        let lfsr_xored = (self.lfsr ^ (self.lfsr >> 1)) & 1;
        let lfsr_shifted = self.lfsr >> 1;
        let mut result = lfsr_shifted | (lfsr_xored << 14);
        if (self.options[3] >> 3) & 1 == 1 {
            result = (lfsr_shifted & !(1u16 << 6)) | (lfsr_xored << 6);
        }
        self.lfsr = result;
    }

    /// The amplitude after a shift from register value `i`: the volume where
    /// the output bit of the shifted register is set, else 0.
    pub open spec fn amp_of(&self) -> spec_fn(int) -> int {
        let w = noise_width_mode(self.options@);
        let v = self.volume_envelope.volume;
        |i: int| if noise_bit(lfsr_next(i as u16, w), w) == 0 {
            0
        } else {
            v as int
        }
    }

    /// The register value after a shift from `i`.
    pub open spec fn next_of(&self) -> spec_fn(int) -> int {
        let w = noise_width_mode(self.options@);
        |i: int| lfsr_next(i as u16, w) as int
    }

    /// The sample loop over `cycles` clock cycles.
    pub open spec fn tone_run(&self, cycles: int) -> (ToneState, int) {
        tone_loop(
            ToneState {
                index: self.lfsr as int,
                last_amp: self.last_amp as int,
                buf: self.buf@,
                ok: true,
            },
            self.delay as int,
            cycles,
            self.period_spec(),
            self.amp_of(),
            self.next_of(),
        )
    }

    /// The number of clock cycles per shift.
    pub open spec fn period_spec(&self) -> int {
        ((if noise_divisor_code(self.options@) == 0 {
            8usize
        } else {
            (noise_divisor_code(self.options@) * 16) as usize
        }) << (noise_clock_shift(self.options@) as usize)) as int
    }

    /// The channel is silent: off, without a period or at volume 0.
    pub open spec fn silent(&self) -> bool {
        !self.enabled || self.period_spec() == 0 || self.volume_envelope.volume == 0
    }

    /// Whether `sample` can run.
    pub open spec fn sample_ok(&self, cycles: int) -> bool {
        if self.silent() {
            self.last_amp != 0 ==> change_ok(self.buf@, 0, self.last_amp as int, 0)
        } else {
            self.tone_run(cycles).0.ok
        }
    }

    /// What `sample` leaves: the buffer, the amplitude, the time into the next
    /// period and the shift register.
    pub open spec fn sampled(&self, cycles: int) -> (BufState, int, int, int) {
        if self.silent() {
            if self.last_amp != 0 {
                (self.buf@.added(0, -self.last_amp as i32), 0, 0, self.lfsr as int)
            } else {
                (self.buf@, 0, self.delay as int, self.lfsr as int)
            }
        } else {
            let (s, t) = self.tone_run(cycles);
            (s.buf, s.last_amp, t - cycles, s.index)
        }
    }

    /// Whether a frame of `cycles` clock cycles, closed at clock time `end`,
    /// can be sampled and its samples fit the 1024 of `sample_buf`.
    pub open spec fn frame_ok(&self, cycles: int, end: int) -> bool {
        let b = self.sampled(cycles).0;
        &&& self.sample_ok(cycles)
        &&& b.add_ok(end)
        &&& b.added(end, 0).samples_available <= 1024
    }

    /// `new` is this channel after a frame of `cycles` clock cycles was
    /// sampled, closed at `end`, and its samples moved into `sample_buf`.
    pub open spec fn pushed(self, new: NoiseChannel, cycles: int, end: int) -> bool {
        let (b, a, dl, i) = self.sampled(cycles);
        let framed = BufState { current_time: 0, ..b.added(end, 0) };
        let m = framed.samples_available;
        &&& new.buf@ == BufState { samples_available: 0, ..framed }
        &&& new.sample_buf@ == framed.samples.subrange(0, m) + self.sample_buf@.subrange(m, 1024)
        &&& new.last_amp == a
        &&& new.delay == dl
        &&& new.lfsr == i
        &&& new.options == self.options
        &&& new.enabled == self.enabled
        &&& new.length == self.length
        &&& new.volume_envelope == self.volume_envelope
    }

    /// Produce the noise for `cycles` clock cycles: one shift per period, the
    /// amplitude read from the shifted register; a silent channel drops to 0.
    pub fn sample(&mut self, cycles: usize)
        requires
            old(self).sample_ok(cycles as int),
        ensures
            final(self).options == old(self).options,
            final(self).enabled == old(self).enabled,
            final(self).length == old(self).length,
            final(self).volume_envelope == old(self).volume_envelope,
            final(self).sample_buf == old(self).sample_buf,
            ({
                let (b, a, d, i) = old(self).sampled(cycles as int);
                &&& final(self).buf@ == b
                &&& final(self).last_amp == a
                &&& final(self).delay == d
                &&& final(self).lfsr == i
            }),
            old(self).silent() && old(self).last_amp != 0 ==> {
                &&& final(self).buf@ == old(self).buf@.added(0, -old(self).last_amp as i32)
                &&& final(self).last_amp == 0
                &&& final(self).delay == 0
                &&& final(self).lfsr == old(self).lfsr
            },
            old(self).silent() && old(self).last_amp == 0 ==> {
                &&& final(self).buf@ == old(self).buf@
                &&& final(self).last_amp == 0
                &&& final(self).delay == old(self).delay
                &&& final(self).lfsr == old(self).lfsr
            },
            !old(self).silent() ==> ({
                let (s, t) = old(self).tone_run(cycles as int);
                &&& final(self).buf@ == s.buf
                &&& final(self).last_amp == s.last_amp
                &&& final(self).lfsr == s.index
                &&& final(self).delay == t - cycles
            }),
    {
        let period = self.calculate_period();
        if !self.enabled || period == 0 || self.volume_envelope.volume == 0 {
            if self.last_amp != 0 {
                self.buf.add_delta(0, -self.last_amp);
                self.last_amp = 0;
                self.delay = 0;
            }
        } else {
            let ghost amp_of = old(self).amp_of();
            let ghost next_of = old(self).next_of();
            let ghost init = old(self).tone_run(cycles as int);
            let ghost w = noise_width_mode(old(self).options@);
            let mut time = self.delay;
            proof {
                lemma_tone_loop_ok(
                    ToneState { index: self.lfsr as int, last_amp: self.last_amp as int, buf: self.buf@, ok: true },
                    time as int,
                    cycles as int,
                    period as int,
                    amp_of,
                    next_of,
                );
            }
            while time < cycles
                invariant
                    period > 0,
                    period == old(self).period_spec(),
                    amp_of == old(self).amp_of(),
                    next_of == old(self).next_of(),
                    w == noise_width_mode(self.options@),
                    self.options == old(self).options,
                    self.enabled == old(self).enabled,
                    self.length == old(self).length,
                    self.volume_envelope == old(self).volume_envelope,
                    self.sample_buf == old(self).sample_buf,
                    init.0.ok,
                    tone_loop(
                        ToneState {
                            index: self.lfsr as int,
                            last_amp: self.last_amp as int,
                            buf: self.buf@,
                            ok: true,
                        },
                        time as int,
                        cycles as int,
                        period as int,
                        amp_of,
                        next_of,
                    ) == init,
                decreases (if time < cycles {
                    cycles - time
                } else {
                    0
                }),
            {
                let ghost s0 = ToneState {
                    index: self.lfsr as int,
                    last_amp: self.last_amp as int,
                    buf: self.buf@,
                    ok: true,
                };
                proof {
                    lemma_tone_loop_ok(
                        tone_step(s0, time as int, period as int, amp_of, next_of),
                        time + period,
                        cycles as int,
                        period as int,
                        amp_of,
                        next_of,
                    );
                }
                self.rng_lfsr();
                let bit: u16 = if (self.options[3] >> 3) & 1 == 1 {
                    !(self.lfsr >> 6) & 1
                } else {
                    !(self.lfsr >> 14) & 1
                };
                let amp: i32 = if bit == 0 {
                    0
                } else {
                    self.volume_envelope.volume as i32
                };
                assert(self.lfsr as int == next_of(s0.index));
                assert(amp == amp_of(s0.index));
                if amp != self.last_amp {
                    self.buf.add_delta(time as u32, amp - self.last_amp);
                    self.last_amp = amp;
                }
                time += period;
            }
            self.delay = time - cycles;
        }
    }

    /// Move the samples of the frame into `sample_buf`; returns how many.
    pub fn generate_output_buffer(&mut self) -> (n: usize)
        requires
            old(self).buf@.samples_available <= 1024,
            old(self).buf@.samples_available <= old(self).buf@.samples.len(),
        ensures
            n == old(self).buf@.samples_available,
            final(self).sample_buf@ == old(self).buf@.samples.subrange(0, n as int) + old(self).sample_buf@.subrange(
                n as int,
                1024,
            ),
            final(self).buf@ == (BufState { samples_available: 0, ..old(self).buf@ }),
            *final(self) == (NoiseChannel { buf: final(self).buf, sample_buf: final(self).sample_buf, ..*old(self) }),
    {
        self.buf.read_samples(&mut self.sample_buf, false)
    }

    /// One length tick (256 Hz): with length enabled, stop at 0 or count down.
    pub fn step_length(&mut self)
        ensures
            *final(self) == old(self).length_stepped(),
    {
        if (self.options[4] >> 6) & 1 == 1 {
            if self.length == 0 {
                self.enabled = false;
            } else {
                self.enabled = true;
                self.length -= 1;
            }
        }
    }

    /// One envelope tick (64 Hz).
    pub fn step_volume(&mut self)
        ensures
            *final(self) == old(self).volume_stepped(),
    {
        self.volume_envelope.step(self.options[2] & 7, (self.options[2] >> 3) & 1 == 1);
    }
}

/// One step of the shift register moves every bit down by one. The new bit
/// is bit 0 XOR bit 1 of the old register: it goes into bit 14 (together with
/// the old bit 15, which a 15-bit register keeps clear), or, in width mode,
/// replaces bit 6 (whatever bit 7 was).
pub proof fn lemma_lfsr_step(x: u16, b: u16)
    requires
        b < 16,
    ensures
        ({
            let fb = (x ^ (x >> 1u16)) & 1;
            &&& (lfsr_next(x, false) >> b) & 1 == if b == 14 {
                fb | (x >> 15u16)
            } else if b == 15 {
                0
            } else {
                (x >> (b + 1) as u16) & 1
            }
            &&& (lfsr_next(x, true) >> b) & 1 == if b == 6 {
                fb
            } else if b == 15 {
                0
            } else {
                (x >> (b + 1) as u16) & 1
            }
        }),
{
    assert(((((x >> 1u16) | (((x ^ (x >> 1u16)) & 1) << 14u16)) >> b) & 1 == if b == 14 {
        ((x ^ (x >> 1u16)) & 1) | (x >> 15u16)
    } else if b == 15 {
        0
    } else {
        (x >> (b + 1) as u16) & 1
    }) && (((((x >> 1u16) & !(1u16 << 6u16)) | (((x ^ (x >> 1u16)) & 1) << 6u16)) >> b) & 1 == if b == 6 {
        (x ^ (x >> 1u16)) & 1
    } else if b == 15 {
        0
    } else {
        (x >> (b + 1) as u16) & 1
    })) by (bit_vector)
        requires
            b < 16,
    ;
}

} // verus!
