//! A sample buffer that turns amplitude changes at clock times into samples at
//! the output rate, by nearest-neighbour sampling.
//!
//! Times are kept in thousandths of a clock cycle: a sample is taken every
//! `clocks_per_sample` of those, and each sample holds the amplitude reached
//! by the deltas added before its time.
use vstd::prelude::*;

verus! {

/// Time units per clock cycle.
pub const SCALE_FACTOR: usize = 1000;

/// The state of a sample buffer.
pub struct BufState {
    pub samples: Seq<i16>,
    pub clocks_per_sample: int,
    pub samples_available: int,
    pub current_value: i16,
    pub current_time: int,
}

/// The number of samples taken on the way from `current_time` to `target`.
pub open spec fn samples_until(current_time: int, clocks_per_sample: int, target: int) -> int {
    if current_time >= target {
        0
    } else {
        (target - current_time + clocks_per_sample - 1) / clocks_per_sample
    }
}

impl BufState {
    /// An empty buffer with room for `n` samples and no sample period.
    pub open spec fn fresh(n: nat) -> BufState {
        BufState {
            samples: Seq::new(n, |i: int| 0i16),
            clocks_per_sample: 0,
            samples_available: 0,
            current_value: 0,
            current_time: 0,
        }
    }

    /// Whether a delta at clock time `t` fits: the samples before it can be
    /// taken (a sample period is set) and stored, and the time stays in range.
    pub open spec fn add_ok(self, t: int) -> bool {
        let k = samples_until(self.current_time, self.clocks_per_sample, t * 1000);
        &&& t * 1000 <= usize::MAX
        &&& (self.current_time < t * 1000 ==> self.clocks_per_sample > 0)
        &&& self.samples_available + k <= self.samples.len()
        &&& self.current_time + k * self.clocks_per_sample <= usize::MAX
    }

    /// The buffer after adding `delta` at clock time `t`: the samples up to
    /// that time are taken with the current amplitude, then the amplitude
    /// changes (wrapping to 16 bits).
    pub open spec fn added(self, t: int, delta: i32) -> BufState {
        let k = samples_until(self.current_time, self.clocks_per_sample, t * 1000);
        BufState {
            samples: Seq::new(
                self.samples.len(),
                |i: int|
                    if self.samples_available <= i < self.samples_available + k {
                        self.current_value
                    } else {
                        self.samples[i]
                    },
            ),
            samples_available: self.samples_available + k,
            current_time: self.current_time + k * self.clocks_per_sample,
            current_value: (self.current_value + delta) as i16,
            ..self
        }
    }
}

/// The buffer.
pub struct SampleBuf {
    pub samples: Vec<i16>,
    pub clocks_per_sample: usize,
    pub samples_available: usize,
    pub current_value: i16,
    pub current_time: usize,
}

impl View for SampleBuf {
    type V = BufState;

    open spec fn view(&self) -> BufState {
        BufState {
            samples: self.samples@,
            clocks_per_sample: self.clocks_per_sample as int,
            samples_available: self.samples_available as int,
            current_value: self.current_value,
            current_time: self.current_time as int,
        }
    }
}

/// Taking `k` samples of `cps` time units passes `target` exactly when `k` is
/// the count `samples_until` gives.
/// With a sample period, reaching a later time takes at least one sample.
proof fn lemma_samples_until_positive(ct: int, cps: int, target: int)
    by (nonlinear_arith)
    requires
        cps > 0,
        ct < target,
    ensures
        (target - ct + cps - 1) / cps >= 1,
{
}

/// The sample count `samples_until` gives reaches the target.
proof fn lemma_samples_until_reaches(ct: int, cps: int, target: int)
    by (nonlinear_arith)
    requires
        cps > 0,
        ct < target,
    ensures
        ct + ((target - ct + cps - 1) / cps) * cps >= target,
{
}

proof fn lemma_samples_until(ct: int, cps: int, target: int, k: int)
    by (nonlinear_arith)
    requires
        cps > 0,
        ct < target,
        0 < k,
        ct + (k - 1) * cps < target,
        ct + k * cps >= target,
    ensures
        k == (target - ct + cps - 1) / cps,
{
}

/// The samples a frame ends with do not depend on where its amplitude
/// changes fell: taking the samples up to clock time `t` leaves, together
/// with those still to come, as many samples up to a later time `u` as
/// before.
pub proof fn lemma_samples_up_to(b: BufState, t: int, delta: i32, u: int)
    requires
        b.clocks_per_sample > 0,
        0 <= t <= u,
    ensures
        ({
            let a = b.added(t, delta);
            a.samples_available + samples_until(a.current_time, a.clocks_per_sample, u * 1000)
                == b.samples_available + samples_until(b.current_time, b.clocks_per_sample, u * 1000)
        }),
{
    let ct = b.current_time;
    let c = b.clocks_per_sample;
    let t1 = t * 1000;
    let t2 = u * 1000;
    if ct < t1 {
        let k = (t1 - ct + c - 1) / c;
        lemma_samples_until_positive(ct, c, t1);
        lemma_samples_until_reaches(ct, c, t1);
        assert((k - 1) * c < t1 - ct) by (nonlinear_arith)
            requires
                k == (t1 - ct + c - 1) / c,
                c > 0,
        ;
        assert(ct + (k - 1) * c == ct + k * c - c) by (nonlinear_arith);
        if ct + k * c >= t2 {
            lemma_samples_until(ct, c, t2, k);
        } else {
            let x = t2 - ct + c - 1 - k * c;
            vstd::arithmetic::div_mod::lemma_hoist_over_denominator(x, k, c as nat);
            assert(t2 - (ct + k * c) + c - 1 == x);
        }
    }
}

impl SampleBuf {
    /// Room for `sample_count` samples, no sample period set yet.
    pub fn new(sample_count: u32) -> (b: SampleBuf)
        ensures
            b@ == BufState::fresh(sample_count as nat),
    {
        let b = SampleBuf {
            samples: vec![0; sample_count as usize],
            clocks_per_sample: 0,
            samples_available: 0,
            current_value: 0,
            current_time: 0,
        };
        assert(b.samples@ =~= Seq::new(sample_count as nat, |i: int| 0i16));
        b
    }

    /// Set the sample period, in thousandths of a clock cycle.
    pub fn set_clocks_per_sample(&mut self, clocks_per_sample: usize)
        ensures
            final(self)@ == (BufState { clocks_per_sample: clocks_per_sample as int, ..old(self)@ }),
    {
        self.clocks_per_sample = clocks_per_sample;
    }

    /// Drop the samples and the amplitude.
    pub fn clear(&mut self)
        ensures
            final(self)@ == (BufState { samples_available: 0, current_value: 0, ..old(self)@ }),
    {
        self.samples_available = 0;
        self.current_value = 0;
    }

    /// Change the amplitude by `delta` at clock time `clock_time`.
    pub fn add_delta(&mut self, clock_time: u32, delta: i32)
        requires
            old(self)@.add_ok(clock_time as int),
            i32::MIN <= old(self)@.current_value + delta <= i32::MAX,
        ensures
            final(self)@ == old(self)@.added(clock_time as int, delta),
    {
        let ghost b0 = self@;
        let ghost k = samples_until(b0.current_time, b0.clocks_per_sample, clock_time * 1000);
        let target: usize = clock_time as usize * SCALE_FACTOR;
        let mut j: usize = 0;
        while self.current_time < target
            invariant
                target == clock_time * 1000,
                b0.add_ok(clock_time as int),
                k == samples_until(b0.current_time, b0.clocks_per_sample, clock_time * 1000),
                self.samples@.len() == b0.samples.len(),
                self.clocks_per_sample == b0.clocks_per_sample,
                self.current_value == b0.current_value,
                self.current_time == b0.current_time + j * b0.clocks_per_sample,
                self.samples_available == b0.samples_available + j,
                0 <= b0.samples_available,
                0 <= b0.current_time,
                j <= k,
                j > 0 ==> b0.current_time + (j - 1) * b0.clocks_per_sample < target,
                j < k ==> self.current_time < target,
                forall|i: int|
                    0 <= i < b0.samples.len() ==> #[trigger] self.samples@[i] == if b0.samples_available <= i
                        < b0.samples_available + j {
                        b0.current_value
                    } else {
                        b0.samples[i]
                    },
            decreases k - j,
        {
            proof {
                if j == k {
                    if j == 0 {
                        if b0.current_time < target {
                            lemma_samples_until_positive(b0.current_time, b0.clocks_per_sample, target as int);
                        }
                    } else {
                        lemma_samples_until_reaches(b0.current_time, b0.clocks_per_sample, target as int);
                    }
                    assert(false);
                }
                assert(b0.current_time + (j + 1) * b0.clocks_per_sample <= b0.current_time + k
                    * b0.clocks_per_sample) by (nonlinear_arith)
                    requires
                        j + 1 <= k,
                        b0.clocks_per_sample >= 0,
                ;
                assert(b0.current_time + (j + 1) * b0.clocks_per_sample == self.current_time
                    + b0.clocks_per_sample) by (nonlinear_arith)
                    requires
                        self.current_time == b0.current_time + j * b0.clocks_per_sample,
                ;
                assert(k > 0);
                assert(b0.current_time < target);
                assert(self.samples@.len() == self.samples.len());
                assert(self.samples_available < self.samples@.len());
                assert(j + 1 <= self.samples@.len());
            }
            self.current_time += self.clocks_per_sample;
            self.samples.set(self.samples_available, self.current_value);
            self.samples_available += 1;
            j += 1;
            proof {
                if j < k {
                    assert(self.current_time < target) by {
                        if self.current_time >= target {
                            lemma_samples_until(b0.current_time, b0.clocks_per_sample, target as int, j as int);
                        }
                    }
                }
            }
        }
        proof {
            if j < k {
                assert(false);
            }
        }
        let sum: i32 = self.current_value as i32 + delta;
        self.current_value = #[verifier::truncate] (sum as i16);
        assert(self.samples@ =~= b0.added(clock_time as int, delta).samples);
    }

    /// Take the samples up to clock time `clock_duration` and start the next
    /// frame at time 0.
    pub fn end_frame(&mut self, clock_duration: u32)
        requires
            old(self)@.add_ok(clock_duration as int),
        ensures
            final(self)@ == (BufState { current_time: 0, ..old(self)@.added(clock_duration as int, 0) }),
    {
        self.add_delta(clock_duration, 0);
        self.current_time = 0;
    }

    /// Copy the samples taken into `buf` and drop them; returns how many
    /// there were.
    pub fn read_samples(&mut self, buf: &mut [i16], _stereo: bool) -> (n: usize)
        requires
            old(self)@.samples_available <= old(buf)@.len(),
            old(self)@.samples_available <= old(self)@.samples.len(),
        ensures
            n == old(self)@.samples_available,
            final(buf)@ == old(self)@.samples.subrange(0, n as int) + old(buf)@.subrange(n as int, old(buf)@.len() as int),
            final(self)@ == (BufState { samples_available: 0, ..old(self)@ }),
    {
        let n = self.samples_available;
        let mut i: usize = 0;
        while i < n
            invariant
                i <= n,
                n == self.samples_available,
                n <= buf@.len(),
                n <= self.samples@.len(),
                buf@.len() == old(buf)@.len(),
                self@ == old(self)@,
                forall|k: int| 0 <= k < i ==> buf@[k] == self.samples@[k],
                forall|k: int| i <= k < buf@.len() ==> buf@[k] == old(buf)@[k],
            decreases n - i,
        {
            buf[i] = self.samples[i];
            i += 1;
        }
        assert(buf@ =~= old(self)@.samples.subrange(0, n as int) + old(buf)@.subrange(n as int, old(buf)@.len() as int));
        self.samples_available = 0;
        n
    }
}

/// The state a channel's sample loop moves through: the position in its
/// waveform (or its shift register), its amplitude, and its buffer.
pub struct ToneState {
    pub index: int,
    pub last_amp: int,
    pub buf: BufState,
    pub ok: bool,
}

/// Whether a buffer can take an amplitude change from `last` to `amp` at
/// clock time `t`.
pub open spec fn change_ok(buf: BufState, t: int, last: int, amp: int) -> bool {
    &&& buf.add_ok(t)
    &&& i32::MIN <= amp - last <= i32::MAX
    &&& i32::MIN <= buf.current_value + (amp - last) <= i32::MAX
}

/// One step of a sample loop at `time`: the amplitude `amp_of(index)` goes
/// into the buffer if it changed, and the position moves on to
/// `next_of(index)`.
pub open spec fn tone_step(
    s: ToneState,
    time: int,
    period: int,
    amp_of: spec_fn(int) -> int,
    next_of: spec_fn(int) -> int,
) -> ToneState {
    let amp = amp_of(s.index);
    let t = (time as u32) as int;
    if amp != s.last_amp {
        ToneState {
            index: next_of(s.index),
            buf: s.buf.added(t, (amp - s.last_amp) as i32),
            last_amp: amp,
            ok: s.ok && change_ok(s.buf, t, s.last_amp, amp) && time + period <= usize::MAX,
        }
    } else {
        ToneState { index: next_of(s.index), ok: s.ok && time + period <= usize::MAX, ..s }
    }
}

/// A sample loop from `time`: one step every `period` clock cycles up to
/// `cycles`; returns the state and the time of the first step after the frame.
pub open spec fn tone_loop(
    s: ToneState,
    time: int,
    cycles: int,
    period: int,
    amp_of: spec_fn(int) -> int,
    next_of: spec_fn(int) -> int,
) -> (ToneState, int)
    decreases (if time < cycles {
        cycles - time
    } else {
        0
    }),
{
    if time >= cycles || period <= 0 {
        (s, time)
    } else {
        tone_loop(tone_step(s, time, period, amp_of, next_of), time + period, cycles, period, amp_of, next_of)
    }
}

/// A loop that ends well started well.
pub proof fn lemma_tone_loop_ok(
    s: ToneState,
    time: int,
    cycles: int,
    period: int,
    amp_of: spec_fn(int) -> int,
    next_of: spec_fn(int) -> int,
)
    ensures
        tone_loop(s, time, cycles, period, amp_of, next_of).0.ok ==> s.ok,
    decreases (if time < cycles {
        cycles - time
    } else {
        0
    }),
{
    if !(time >= cycles || period <= 0) {
        lemma_tone_loop_ok(tone_step(s, time, period, amp_of, next_of), time + period, cycles, period, amp_of, next_of);
    }
}

} // verus!
