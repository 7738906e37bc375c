//! A square (pulse) wave channel: its five option registers (NRx0-NRx4), its
//! length counter, volume envelope and, on the first channel, frequency sweep.
//!
//! Register layout, bit 0 first:
//! NRx0: sweep shift (3 bits), sweep negate, sweep period (3 bits);
//! NRx1: length load (6 bits), duty (2 bits);
//! NRx2: envelope period (3 bits), envelope mode, starting volume (4 bits);
//! NRx3 and NRx4 bits 0-2: the 11-bit frequency; NRx4 bit 6 length enable,
//! bit 7 trigger.
use vstd::prelude::*;
use crate::emulator::audio::volume_envelope::VolumeEnvelope;
use crate::emulator::audio::sample_buf::{SampleBuf, BufState};

verus! {

pub open spec fn sweep_shift(o: Seq<u8>) -> u8 {
    o[0] & 7
}

pub open spec fn sweep_negate(o: Seq<u8>) -> bool {
    (o[0] >> 3u8) & 1 == 1
}

pub open spec fn sweep_period(o: Seq<u8>) -> u8 {
    (o[0] >> 4u8) & 7
}

pub open spec fn length_load(o: Seq<u8>) -> u8 {
    o[1] & 0x3F
}

pub open spec fn duty(o: Seq<u8>) -> u8 {
    o[1] >> 6u8
}

pub open spec fn envelope_period(o: Seq<u8>) -> u8 {
    o[2] & 7
}

pub open spec fn envelope_mode(o: Seq<u8>) -> bool {
    (o[2] >> 3u8) & 1 == 1
}

pub open spec fn envelope_starting_vol(o: Seq<u8>) -> u8 {
    o[2] >> 4u8
}

pub open spec fn frequency(o: Seq<u8>) -> u16 {
    (o[3] as u16) | (((o[4] & 7) as u16) << 8u16)
}

pub open spec fn length_enable(o: Seq<u8>) -> bool {
    (o[4] >> 6u8) & 1 == 1
}

proof fn lemma_set_frequency(f: u16, b4: u8)
    by (bit_vector)
    requires
        f < 2048,
    ensures
        ((f as u8) as u16) | (((((b4 & 0xF8) | (((f >> 8u16) as u8) & 7)) & 7) as u16) << 8u16) == f,
        ((b4 & 0xF8) | (((f >> 8u16) as u8) & 7)) & 0xF8 == b4 & 0xF8,
{
}

proof fn lemma_frequency_bytes(a3: u8, a4: u8, b3: u8, b4: u8)
    by (bit_vector)
    requires
        (a3 as u16) | (((a4 & 7) as u16) << 8u16) == (b3 as u16) | (((b4 & 7) as u16) << 8u16),
        a4 & 0xF8 == b4 & 0xF8,
    ensures
        a3 == b3,
        a4 == b4,
{
}

proof fn lemma_option_bounds(b0: u8, b1: u8, b2: u8, b3: u8, b4: u8)
    by (bit_vector)
    ensures
        b1 & 0x3F <= 63,
        b0 & 7 < 8,
        (b0 >> 4u8) & 7 < 8,
        (b3 as u16) | (((b4 & 7) as u16) << 8u16) < 2048,
{
}

/// A square wave channel. Only the first channel has the frequency sweep.
pub struct SquareChannel {
    pub options: [u8; 5],
    pub duty_index: usize,
    pub last_amp: i32,
    pub enabled: bool,
    pub delay: usize,
    pub volume_envelope: VolumeEnvelope,
    pub length: usize,
    pub sweep: bool,
    pub sweep_delay: usize,
    pub sweep_frequency: usize,
    pub has_triggered: bool,
    /// The samples of the wave, at the output rate
    pub buf: SampleBuf,
    /// The samples of the last frame
    pub sample_buf: [i16; 1024],
}

impl SquareChannel {
    /// The sweep frequency stays within the 11-bit range, or at 2048 where the
    /// sweep overflowed.
    pub open spec fn wf(&self) -> bool {
        &&& self.sweep_frequency <= 2048
        &&& self.duty_index < 8
    }

    pub fn new(sweep: bool) -> (c: SquareChannel)
        ensures
            c.wf(),
            c.options@ == seq![0u8, 0, 0, 0, 0],
            c.sweep == sweep,
            !c.enabled,
            !c.has_triggered,
            c.length == 0,
            c.volume_envelope.volume == 0,
            c.volume_envelope.delay == 0,
            c.sweep_delay == 0,
            c.sweep_frequency == 0,
            c.duty_index == 0,
            c.delay == 0,
            c.last_amp == 0,
            c.buf@ == BufState::fresh(19200),
    {
        let c = SquareChannel {
            options: [0; 5],
            duty_index: 0,
            last_amp: 0,
            delay: 0,
            enabled: false,
            volume_envelope: VolumeEnvelope::new(),
            length: 0,
            sweep: sweep,
            sweep_delay: 0,
            sweep_frequency: 0,
            has_triggered: false,
            buf: SampleBuf::new(19200),
            sample_buf: [0; 1024],
        };
        assert(c.options@ =~= seq![0u8, 0, 0, 0, 0]);
        c
    }

    /// Store register `index`; a write of bit 7 to NRx4 triggers the channel,
    /// NRx1 reloads the length and NRx2 restarts the envelope.
    pub fn update_options(&mut self, byte: u8, index: usize)
        requires
            old(self).wf(),
            index < 5,
        ensures
            final(self).wf(),
            old(self).options_written(*final(self), byte, index as int),
    {
        self.options[index] = byte;
        if index == 4 && (byte & 0b1000_0000 != 0) {
            self.trigger();
        } else if index == 1 {
            proof {
                lemma_option_bounds(self.options[0], self.options[1], self.options[2], self.options[3], self.options[4]);
            }
            self.length = 63 - (self.options[1] & 0x3F) as usize;
        } else if index == 2 {
            self.volume_envelope.delay = self.options[2] & 7;
            self.volume_envelope.volume = self.options[2] >> 4;
        }
    }

    /// The channel `new` is this one after register `index` was written with
    /// `byte`.
    pub open spec fn options_written(self, new: SquareChannel, byte: u8, index: int) -> bool {
        let o = self.options@.update(index, byte);
        &&& new.options@ == o
        &&& if index == 4 && byte & 0x80 != 0 {
            new.same_state(self.after_trigger(o))
        } else {
            new.same_state(
                SquareChannel {
                    length: if index == 1 {
                        (63 - length_load(o)) as usize
                    } else {
                        self.length
                    },
                    volume_envelope: if index == 2 {
                        VolumeEnvelope { delay: envelope_period(o), volume: envelope_starting_vol(o) }
                    } else {
                        self.volume_envelope
                    },
                    ..self
                },
            )
        }
    }

    /// The channel after one length tick.
    pub open spec fn length_stepped(self) -> SquareChannel {
        if length_enable(self.options@) {
            if self.length == 0 {
                SquareChannel { enabled: false, ..self }
            } else {
                SquareChannel { enabled: true, length: (self.length - 1) as usize, ..self }
            }
        } else {
            SquareChannel { enabled: true, ..self }
        }
    }

    /// The channel after one envelope tick.
    pub open spec fn volume_stepped(self) -> SquareChannel {
        let e = self.volume_envelope;
        let mode = envelope_mode(self.options@);
        if e.delay > 1 {
            SquareChannel { volume_envelope: VolumeEnvelope { delay: (e.delay - 1) as u8, ..e }, ..self }
        } else if e.delay == 1 {
            SquareChannel {
                volume_envelope: VolumeEnvelope {
                    delay: envelope_period(self.options@),
                    volume: if mode && e.volume < 15 {
                        (e.volume + 1) as u8
                    } else if !mode && e.volume > 0 {
                        (e.volume - 1) as u8
                    } else {
                        e.volume
                    },
                },
                ..self
            }
        } else {
            self
        }
    }

    /// Equal in everything but the option registers.
    pub open spec fn same_state(self, other: SquareChannel) -> bool {
        &&& self.duty_index == other.duty_index
        &&& self.last_amp == other.last_amp
        &&& self.enabled == other.enabled
        &&& self.delay == other.delay
        &&& self.volume_envelope == other.volume_envelope
        &&& self.length == other.length
        &&& self.sweep == other.sweep
        &&& self.sweep_delay == other.sweep_delay
        &&& self.sweep_frequency == other.sweep_frequency
        &&& self.has_triggered == other.has_triggered
        &&& self.buf == other.buf
        &&& self.sample_buf == other.sample_buf
    }

    /// The channel after a trigger with options `o`: length reloaded, enabled,
    /// envelope restarted, sweep frequency taken from the frequency and, with a
    /// sweep period and shift, one sweep step right away.
    pub open spec fn after_trigger(self, o: Seq<u8>) -> SquareChannel {
        let t = SquareChannel {
            length: (63 - length_load(o)) as usize,
            enabled: true,
            volume_envelope: VolumeEnvelope { delay: envelope_period(o), volume: envelope_starting_vol(o) },
            sweep_frequency: frequency(o) as usize,
            ..self
        };
        let s = if self.sweep && sweep_period(o) > 0 && sweep_shift(o) > 0 {
            SquareChannel { sweep_delay: 1, ..t }.after_sweep_step(o)
        } else {
            t
        };
        SquareChannel { has_triggered: true, ..s }
    }

    /// The sweep frequency after one sweep calculation: the frequency shifted
    /// right by the sweep shift is subtracted (negate) or added, clamped to 0
    /// and to 2048.
    pub open spec fn next_sweep_frequency(o: Seq<u8>, f: usize) -> usize {
        let offset = f >> sweep_shift(o);
        if sweep_negate(o) {
            if f <= offset {
                0
            } else {
                (f - offset) as usize
            }
        } else {
            if f >= 2048 - offset {
                2048
            } else {
                (f + offset) as usize
            }
        }
    }

    /// The channel after one sweep tick with options `o`, as a state without
    /// the array (which `after_sweep_options` gives).
    pub open spec fn after_sweep_step(self, o: Seq<u8>) -> SquareChannel {
        if sweep_period(o) == 0 {
            self
        } else if self.sweep_delay > 1 {
            SquareChannel { sweep_delay: (self.sweep_delay - 1) as usize, ..self }
        } else {
            SquareChannel {
                sweep_delay: sweep_period(o) as usize,
                enabled: if self.sweep_frequency == 2048 {
                    false
                } else {
                    self.enabled
                },
                sweep_frequency: SquareChannel::next_sweep_frequency(o, self.sweep_frequency),
                ..self
            }
        }
    }

    /// Trigger the channel.
    pub fn trigger(&mut self)
        requires
            old(self).wf(),
        ensures
            final(self).wf(),
            final(self).options@ == old(self).options@,
            final(self).same_state(old(self).after_trigger(old(self).options@)),
    {
        proof {
            lemma_option_bounds(self.options[0], self.options[1], self.options[2], self.options[3], self.options[4]);
        }
        self.length = 63 - (self.options[1] & 0x3F) as usize;
        self.enabled = true;
        self.volume_envelope.delay = self.options[2] & 7;
        self.volume_envelope.volume = self.options[2] >> 4;
        self.sweep_frequency = self.get_frequency() as usize;
        if self.sweep && (self.options[0] >> 4) & 7 > 0 && self.options[0] & 7 > 0 {
            self.sweep_delay = 1;
            let ghost before = self.options@;
            self.step_sweep();
            proof {
                lemma_frequency_bytes(before[3], before[4], self.options@[3], self.options@[4]);
                assert(self.options@ =~= before);
            }
        }
        self.has_triggered = true;
    }

    /// The 11-bit frequency.
    pub fn get_frequency(&self) -> (f: u16)
        ensures
            f == frequency(self.options@),
            f < 2048,
    {
        proof {
            lemma_option_bounds(self.options[0], self.options[1], self.options[2], self.options[3], self.options[4]);
        }
        (self.options[3] as u16) | (((self.options[4] & 7) as u16) << 8)
    }

    /// Set the 11-bit frequency, keeping the other bits of NRx4.
    pub fn set_frequency(&mut self, f: u16)
        requires
            f < 2048,
        ensures
            frequency(final(self).options@) == f,
            final(self).options@[0] == old(self).options@[0],
            final(self).options@[1] == old(self).options@[1],
            final(self).options@[2] == old(self).options@[2],
            final(self).options@[4] & 0xF8 == old(self).options@[4] & 0xF8,
            final(self).options@.len() == 5,
            final(self).same_state(*old(self)),
    {
        proof {
            lemma_set_frequency(f, self.options[4]);
        }
        self.options[3] = f as u8;
        self.options[4] = (self.options[4] & 0xF8) | (((f >> 8) as u8) & 7);
    }

    /// The number of clock cycles per duty step: (2048 - frequency) * 4.
    pub fn calculate_period(&self) -> (p: usize)
        ensures
            p == (2048 - frequency(self.options@)) * 4,
    {
        let f = self.get_frequency();
        ((2048 - f as u32) * 4) as usize
    }

    /// One length tick (256 Hz): with length enabled, the channel stops when the
    /// length is 0 and otherwise counts it down; without, it stays enabled.
    pub fn step_length(&mut self)
        ensures
            *final(self) == old(self).length_stepped(),
    {
        if (self.options[4] >> 6) & 1 == 1 {
            if self.length == 0 {
                self.enabled = false;
            } else {
                self.enabled = true;
                self.length -= 1;
            }
        } else {
            self.enabled = true;
        }
    }

    /// One envelope tick (64 Hz).
    pub fn step_volume(&mut self)
        ensures
            final(self).options == old(self).options,
            final(self).same_state(old(self).volume_stepped()),
    {
        self.volume_envelope.step(self.options[2] & 7, (self.options[2] >> 3) & 1 == 1);
    }

    /// One sweep tick (128 Hz). With a sweep period, the delay counts down;
    /// when it runs out it restarts at the period, the frequency register takes
    /// the sweep frequency (an overflowed sweep at 2048 stops the channel and
    /// leaves 2047), and the next sweep frequency is calculated.
    pub fn step_sweep(&mut self)
        requires
            old(self).wf(),
        ensures
            final(self).wf(),
            final(self).same_state(old(self).after_sweep_step(old(self).options@)),
            final(self).options@.len() == 5,
            sweep_period(old(self).options@) == 0 || old(self).sweep_delay > 1 ==> final(self).options@ == old(self).options@,
            sweep_period(old(self).options@) != 0 && old(self).sweep_delay <= 1 ==> {
                &&& frequency(final(self).options@) == if old(self).sweep_frequency == 2048 {
                    2047
                } else {
                    old(self).sweep_frequency
                }
                &&& final(self).options@[0] == old(self).options@[0]
                &&& final(self).options@[1] == old(self).options@[1]
                &&& final(self).options@[2] == old(self).options@[2]
                &&& final(self).options@[4] & 0xF8 == old(self).options@[4] & 0xF8
            },
    {
        let period = (self.options[0] >> 4) & 7;
        if period == 0 {
            return;
        }
        if self.sweep_delay > 1 {
            self.sweep_delay -= 1;
        } else {
            let ghost o = self.options@;
            self.sweep_delay = period as usize;
            if self.sweep_frequency == 2048 {
                self.enabled = false;
                self.set_frequency(2047);
            } else {
                self.set_frequency(self.sweep_frequency as u16);
            }
            proof {
                lemma_option_bounds(self.options[0], self.options[1], self.options[2], self.options[3], self.options[4]);
            }
            let shift = self.options[0] & 7;
            assert(shift == sweep_shift(o));
            let sf = self.sweep_frequency;
            let offset = sf >> shift;
            assert(offset <= sf) by (bit_vector)
                requires
                    offset == sf >> shift,
            ;
            if (self.options[0] >> 3) & 1 == 1 {
                if self.sweep_frequency <= offset {
                    self.sweep_frequency = 0;
                } else {
                    self.sweep_frequency -= offset;
                }
            } else {
                if self.sweep_frequency >= 2048 - offset {
                    self.sweep_frequency = 2048;
                } else {
                    self.sweep_frequency += offset;
                }
            }
        }
    }
}

/// Whether step `i` (0-7) of the duty pattern `duty` is high: 12.5%, 25%, 50%
/// and 75% of the period.
pub open spec fn duty_step(duty: u8, i: int) -> i32 {
    if duty == 0 {
        if i == 7 {
            1
        } else {
            0
        }
    } else if duty == 1 {
        if i == 0 || i == 7 {
            1
        } else {
            0
        }
    } else if duty == 2 {
        if i == 0 || i >= 5 {
            1
        } else {
            0
        }
    } else {
        if i == 0 || i == 7 {
            0
        } else {
            1
        }
    }
}

/// Step `i` of a duty pattern.
pub fn duty_value(duty: u8, i: usize) -> (v: i32)
    requires
        i < 8,
    ensures
        v == duty_step(duty, i as int),
{
    if duty == 0 {
        if i == 7 {
            1
        } else {
            0
        }
    } else if duty == 1 {
        if i == 0 || i == 7 {
            1
        } else {
            0
        }
    } else if duty == 2 {
        if i == 0 || i >= 5 {
            1
        } else {
            0
        }
    } else {
        if i == 0 || i == 7 {
            0
        } else {
            1
        }
    }
}

/// The state a square channel's sample loop moves through.
pub struct PulseState {
    pub duty_index: int,
    pub last_amp: int,
    pub buf: BufState,
    pub ok: bool,
}

/// Whether a sample buffer can take an amplitude change from `last` to `amp`
/// at clock time `t`.
pub open spec fn delta_ok(buf: BufState, t: int, last: int, amp: int) -> bool {
    &&& buf.add_ok(t)
    &&& i32::MIN <= amp - last <= i32::MAX
    &&& i32::MIN <= buf.current_value + (amp - last) <= i32::MAX
}

/// The sample loop of a square channel from `time` on: every `period` clock
/// cycles up to `cycles` the next duty step sets the amplitude, and each
/// change goes into the buffer at its time. `ok` turns false where the buffer
/// or a number would overflow.
pub open spec fn pulse_loop(s: PulseState, time: int, cycles: int, period: int, duty: u8, volume: int) -> (
    PulseState,
    int,
)
    decreases (if time < cycles {
        cycles - time
    } else {
        0
    }),
{
    if time >= cycles || period <= 0 {
        (s, time)
    } else {
        let amp = duty_step(duty, s.duty_index) * volume;
        let t = (time as u32) as int;
        let s1 = if amp != s.last_amp {
            PulseState {
                buf: s.buf.added(t, (amp - s.last_amp) as i32),
                last_amp: amp,
                ok: s.ok && delta_ok(s.buf, t, s.last_amp, amp) && time + period <= usize::MAX,
                ..s
            }
        } else {
            PulseState { ok: s.ok && time + period <= usize::MAX, ..s }
        };
        pulse_loop(
            PulseState { duty_index: (s1.duty_index + 1) % 8, ..s1 },
            time + period,
            cycles,
            period,
            duty,
            volume,
        )
    }
}

/// A loop that ends well started well.
proof fn lemma_pulse_loop_ok(s: PulseState, time: int, cycles: int, period: int, duty: u8, volume: int)
    ensures
        pulse_loop(s, time, cycles, period, duty, volume).0.ok ==> s.ok,
    decreases (if time < cycles {
        cycles - time
    } else {
        0
    }),
{
    if !(time >= cycles || period <= 0) {
        let amp = duty_step(duty, s.duty_index) * volume;
        let t = (time as u32) as int;
        let s1 = if amp != s.last_amp {
            PulseState {
                buf: s.buf.added(t, (amp - s.last_amp) as i32),
                last_amp: amp,
                ok: s.ok && delta_ok(s.buf, t, s.last_amp, amp) && time + period <= usize::MAX,
                ..s
            }
        } else {
            PulseState { ok: s.ok && time + period <= usize::MAX, ..s }
        };
        lemma_pulse_loop_ok(
            PulseState { duty_index: (s1.duty_index + 1) % 8, ..s1 },
            time + period,
            cycles,
            period,
            duty,
            volume,
        );
    }
}

impl SquareChannel {
    /// The channel is silent at frequency `f`: off, disabled, without a
    /// period or volume, or never triggered.
    pub open spec fn silent_at(&self, channel_enable: bool, f: u16) -> bool {
        !self.enabled || !channel_enable || (2048 - f) * 4 == 0 || self.volume_envelope.volume == 0
            || !self.has_triggered
    }

    /// The channel is silent at its own frequency.
    pub open spec fn silent(&self, channel_enable: bool) -> bool {
        self.silent_at(channel_enable, frequency(self.options@))
    }

    /// The state the sample loop starts from.
    pub open spec fn pulse_state(&self) -> PulseState {
        PulseState { duty_index: self.duty_index as int, last_amp: self.last_amp as int, buf: self.buf@, ok: true }
    }

    /// The sample loop over `cycles` clock cycles at frequency `f` and duty
    /// pattern `d`.
    pub open spec fn pulse_run_at(&self, cycles: int, f: u16, d: u8) -> (PulseState, int) {
        pulse_loop(self.pulse_state(), self.delay as int, cycles, (2048 - f) * 4, d, self.volume_envelope.volume as int)
    }

    /// The sample loop at the channel's own frequency and duty pattern.
    pub open spec fn pulse_run(&self, cycles: int) -> (PulseState, int) {
        self.pulse_run_at(cycles, frequency(self.options@), duty(self.options@))
    }

    /// Whether `sample` can run at frequency `f` and duty pattern `d`: a
    /// silent channel can record its drop to 0, a sounding one can record
    /// every change.
    pub open spec fn sample_ok_at(&self, cycles: int, channel_enable: bool, f: u16, d: u8) -> bool {
        if self.silent_at(channel_enable, f) {
            self.last_amp != 0 ==> delta_ok(self.buf@, 0, self.last_amp as int, 0)
        } else {
            self.pulse_run_at(cycles, f, d).0.ok
        }
    }

    /// Whether `sample` can run with the channel's own options.
    pub open spec fn sample_ok(&self, cycles: int, channel_enable: bool) -> bool {
        self.sample_ok_at(cycles, channel_enable, frequency(self.options@), duty(self.options@))
    }

    /// What `sample` leaves at frequency `f` and duty pattern `d`: the
    /// buffer, the amplitude, the time into the next period and the position
    /// in the duty pattern.
    pub open spec fn sampled_at(&self, cycles: int, channel_enable: bool, f: u16, d: u8) -> (BufState, int, int, int) {
        if self.silent_at(channel_enable, f) {
            if self.last_amp != 0 {
                (self.buf@.added(0, -self.last_amp as i32), 0, 0, self.duty_index as int)
            } else {
                (self.buf@, 0, self.delay as int, self.duty_index as int)
            }
        } else {
            let (s, t) = self.pulse_run_at(cycles, f, d);
            (s.buf, s.last_amp, t - cycles, s.duty_index)
        }
    }

    /// What `sample` leaves with the channel's own options.
    pub open spec fn sampled(&self, cycles: int, channel_enable: bool) -> (BufState, int, int, int) {
        self.sampled_at(cycles, channel_enable, frequency(self.options@), duty(self.options@))
    }

    /// Whether a frame of `cycles` clock cycles, closed at clock time `end`,
    /// can be sampled at frequency `f` and duty pattern `d` and its samples
    /// fit the 1024 of `sample_buf`.
    pub open spec fn frame_ok_at(&self, cycles: int, channel_enable: bool, f: u16, d: u8, end: int) -> bool {
        let b = self.sampled_at(cycles, channel_enable, f, d).0;
        &&& self.sample_ok_at(cycles, channel_enable, f, d)
        &&& b.add_ok(end)
        &&& b.added(end, 0).samples_available <= 1024
    }

    /// `new` is this channel after a frame of `cycles` clock cycles was
    /// sampled at frequency `f` and duty pattern `d`, closed at `end`, and
    /// its samples moved into `sample_buf`.
    pub open spec fn pushed(self, new: SquareChannel, cycles: int, channel_enable: bool, f: u16, d: u8, end: int) -> bool {
        let (b, a, dl, i) = self.sampled_at(cycles, channel_enable, f, d);
        let framed = BufState { current_time: 0, ..b.added(end, 0) };
        let m = framed.samples_available;
        &&& new.buf@ == BufState { samples_available: 0, ..framed }
        &&& new.sample_buf@ == framed.samples.subrange(0, m) + self.sample_buf@.subrange(m, 1024)
        &&& new.last_amp == a
        &&& new.delay == dl
        &&& new.duty_index == i
        &&& new.enabled == self.enabled
        &&& new.volume_envelope == self.volume_envelope
        &&& new.length == self.length
        &&& new.sweep == self.sweep
        &&& new.sweep_delay == self.sweep_delay
        &&& new.sweep_frequency == self.sweep_frequency
        &&& new.has_triggered == self.has_triggered
    }

    /// Channels in the same state sample alike.
    pub proof fn lemma_same_state_samples(self, other: SquareChannel, cycles: int, channel_enable: bool, f: u16, d: u8)
        requires
            self.same_state(other),
        ensures
            self.sample_ok_at(cycles, channel_enable, f, d) == other.sample_ok_at(cycles, channel_enable, f, d),
            self.sampled_at(cycles, channel_enable, f, d) == other.sampled_at(cycles, channel_enable, f, d),
    {
        assert(self.pulse_state() == other.pulse_state());
    }

    /// Produce the wave for `cycles` clock cycles into the sample buffer. A
    /// silent channel drops its amplitude to 0 at time 0; a sounding one steps
    /// through its duty pattern once per period, from where the last frame left
    /// off.
    pub fn sample(&mut self, cycles: usize, channel_enable: bool)
        requires
            old(self).wf(),
            old(self).sample_ok(cycles as int, channel_enable),
        ensures
            final(self).wf(),
            final(self).options == old(self).options,
            final(self).enabled == old(self).enabled,
            final(self).volume_envelope == old(self).volume_envelope,
            final(self).length == old(self).length,
            final(self).sweep == old(self).sweep,
            final(self).sweep_delay == old(self).sweep_delay,
            final(self).sweep_frequency == old(self).sweep_frequency,
            final(self).has_triggered == old(self).has_triggered,
            final(self).sample_buf == old(self).sample_buf,
            ({
                let (b, a, d, i) = old(self).sampled(cycles as int, channel_enable);
                &&& final(self).buf@ == b
                &&& final(self).last_amp == a
                &&& final(self).delay == d
                &&& final(self).duty_index == i
            }),
            old(self).silent(channel_enable) && old(self).last_amp != 0 ==> {
                &&& final(self).buf@ == old(self).buf@.added(0, -old(self).last_amp as i32)
                &&& final(self).last_amp == 0
                &&& final(self).delay == 0
                &&& final(self).duty_index == old(self).duty_index
            },
            old(self).silent(channel_enable) && old(self).last_amp == 0 ==> {
                &&& final(self).buf@ == old(self).buf@
                &&& final(self).last_amp == 0
                &&& final(self).delay == old(self).delay
                &&& final(self).duty_index == old(self).duty_index
            },
            !old(self).silent(channel_enable) ==> ({
                let (s, t) = old(self).pulse_run(cycles as int);
                &&& final(self).buf@ == s.buf
                &&& final(self).last_amp == s.last_amp
                &&& final(self).duty_index == s.duty_index
                &&& final(self).delay == t - cycles
            }),
    {
        let period = self.calculate_period();
        if !self.enabled || !channel_enable || period == 0 || self.volume_envelope.volume == 0 || !self.has_triggered {
            if self.last_amp != 0 {
                self.buf.add_delta(0, -self.last_amp);
                self.last_amp = 0;
                self.delay = 0;
            }
        } else {
            let d = self.options[1] >> 6;
            let volume = self.volume_envelope.volume;
            let ghost init = old(self).pulse_run(cycles as int);
            let mut time = self.delay;
            proof {
                lemma_pulse_loop_ok(self.pulse_state(), time as int, cycles as int, period as int, d, volume as int);
            }
            while time < cycles
                invariant
                    self.wf(),
                    period > 0,
                    d == duty(old(self).options@),
                    volume == old(self).volume_envelope.volume,
                    self.options == old(self).options,
                    self.enabled == old(self).enabled,
                    self.volume_envelope == old(self).volume_envelope,
                    self.length == old(self).length,
                    self.sweep == old(self).sweep,
                    self.sweep_delay == old(self).sweep_delay,
                    self.sweep_frequency == old(self).sweep_frequency,
                    self.has_triggered == old(self).has_triggered,
                    self.sample_buf == old(self).sample_buf,
                    init.0.ok,
                    pulse_loop(self.pulse_state(), time as int, cycles as int, period as int, d, volume as int)
                        == init,
                decreases (if time < cycles {
                    cycles - time
                } else {
                    0
                }),
            {
                let amp = duty_value(d, self.duty_index) * volume as i32;
                let ghost s0 = self.pulse_state();
                let ghost t = (time as u32) as int;
                let ghost s1 = if amp != s0.last_amp {
                    PulseState {
                        buf: s0.buf.added(t, (amp - s0.last_amp) as i32),
                        last_amp: amp as int,
                        ok: s0.ok && delta_ok(s0.buf, t, s0.last_amp, amp as int) && time + period <= usize::MAX,
                        ..s0
                    }
                } else {
                    PulseState { ok: s0.ok && time + period <= usize::MAX, ..s0 }
                };
                proof {
                    lemma_pulse_loop_ok(
                        PulseState { duty_index: (s1.duty_index + 1) % 8, ..s1 },
                        time + period,
                        cycles as int,
                        period as int,
                        d,
                        volume as int,
                    );
                }
                if amp != self.last_amp {
                    self.buf.add_delta(time as u32, amp - self.last_amp);
                    self.last_amp = amp;
                }
                time += period;
                self.duty_index = (self.duty_index + 1) % 8;
            }
            self.delay = time - cycles;
        }
    }

    /// Move the samples of the frame into `sample_buf`; returns how many.
    pub fn generate_output_buffer(&mut self) -> (n: usize)
        requires
            old(self).buf@.samples_available <= 1024,
            old(self).buf@.samples_available <= old(self).buf@.samples.len(),
        ensures
            n == old(self).buf@.samples_available,
            final(self).sample_buf@ == old(self).buf@.samples.subrange(0, n as int) + old(self).sample_buf@.subrange(
                n as int,
                1024,
            ),
            final(self).buf@ == (BufState { samples_available: 0, ..old(self).buf@ }),
            final(self).same_state(SquareChannel { buf: final(self).buf, sample_buf: final(self).sample_buf, ..*old(self) }),
            final(self).options == old(self).options,
    {
        self.buf.read_samples(&mut self.sample_buf, false)
    }
}

/// The duty settings 0 to 3 are high on 1, 2, 4 and 6 of their 8 steps
/// (12.5%, 25%, 50% and 75%), each step either low (0) or high (1); setting 0
/// is high only on its last step, and setting 3 is the inverse of setting 1.
pub proof fn lemma_duty_patterns(i: int)
    requires
        0 <= i < 8,
    ensures
        duty_step(0, i) == 0 || duty_step(0, i) == 1,
        duty_step(1, i) == 0 || duty_step(1, i) == 1,
        duty_step(2, i) == 0 || duty_step(2, i) == 1,
        duty_step(3, i) == 0 || duty_step(3, i) == 1,
        duty_step(3, i) == 1 - duty_step(1, i),
        duty_step(0, i) == 1 <==> i == 7,
        duty_step(1, i) == 1 ==> duty_step(2, i) == 1,
        duty_step(0, 0) + duty_step(0, 1) + duty_step(0, 2) + duty_step(0, 3) + duty_step(0, 4) + duty_step(0, 5)
            + duty_step(0, 6) + duty_step(0, 7) == 1,
        duty_step(1, 0) + duty_step(1, 1) + duty_step(1, 2) + duty_step(1, 3) + duty_step(1, 4) + duty_step(1, 5)
            + duty_step(1, 6) + duty_step(1, 7) == 2,
        duty_step(2, 0) + duty_step(2, 1) + duty_step(2, 2) + duty_step(2, 3) + duty_step(2, 4) + duty_step(2, 5)
            + duty_step(2, 6) + duty_step(2, 7) == 4,
        duty_step(3, 0) + duty_step(3, 1) + duty_step(3, 2) + duty_step(3, 3) + duty_step(3, 4) + duty_step(3, 5)
            + duty_step(3, 6) + duty_step(3, 7) == 6,
{
}

} // verus!
