//! Keeping the sound output rate in step with the audio queue of the frontend.
//!
//! Every frame the frontend reports how many samples are still queued. Every
//! 50 reports the average queue size is compared with the previous average,
//! and the output rate is nudged by the relative change (a computation on
//! floating-point numbers that the frontend does).
use vstd::prelude::*;

verus! {

/// Reports per average.
pub const SAMPLES_PER_AVERAGE: usize = 50;

/// The sum of the first `n` queue sizes.
pub open spec fn sum_sizes(sizes: Seq<usize>, n: int) -> int
    decreases n,
{
    if n <= 0 {
        0
    } else {
        sum_sizes(sizes, n - 1) + sizes[n - 1]
    }
}

/// The averaging state.
pub struct SoundSyncer {
    pub current_output_rate: usize,
    pub prev_buffer_sizes: [usize; 50],
    pub cur_buffer_size_index: usize,
    pub previous_buffer_avg: usize,
}

impl SoundSyncer {
    pub open spec fn wf(&self) -> bool {
        self.cur_buffer_size_index <= SAMPLES_PER_AVERAGE
    }

    /// 48000 Hz, no reports yet.
    pub fn new() -> (s: SoundSyncer)
        ensures
            s.wf(),
            s.current_output_rate == 48000,
            s.prev_buffer_sizes@ == Seq::new(50, |i: int| 0usize),
            s.cur_buffer_size_index == 0,
            s.previous_buffer_avg == 0,
    {
        let s = SoundSyncer {
            current_output_rate: 48000,
            prev_buffer_sizes: [0; 50],
            cur_buffer_size_index: 0,
            previous_buffer_avg: 0,
        };
        assert(s.prev_buffer_sizes@ =~= Seq::new(50, |i: int| 0usize));
        s
    }

    /// Record a queue size. When 50 sizes have been recorded, their average
    /// becomes the new previous average, the sizes start over, and, if there
    /// was a previous average, the pair (previous average, new average) is
    /// returned for the rate to be adjusted.
    pub fn update(&mut self, buffer_size: usize) -> (r: Option<(usize, usize)>)
        requires
            old(self).wf(),
            old(self).cur_buffer_size_index == SAMPLES_PER_AVERAGE ==> sum_sizes(old(self).prev_buffer_sizes@, 50)
                <= usize::MAX,
        ensures
            final(self).wf(),
            1 <= final(self).cur_buffer_size_index <= SAMPLES_PER_AVERAGE,
            final(self).current_output_rate == old(self).current_output_rate,
            r is Some ==> old(self).previous_buffer_avg != 0,
            old(self).cur_buffer_size_index == SAMPLES_PER_AVERAGE ==> {
                let avg = sum_sizes(old(self).prev_buffer_sizes@, 50) / 50;
                &&& final(self).previous_buffer_avg == avg
                &&& final(self).cur_buffer_size_index == 1
                &&& final(self).prev_buffer_sizes@ == old(self).prev_buffer_sizes@.update(0, buffer_size)
                &&& r == if old(self).previous_buffer_avg != 0 {
                    Some((old(self).previous_buffer_avg, avg as usize))
                } else {
                    None
                }
            },
            old(self).cur_buffer_size_index < SAMPLES_PER_AVERAGE ==> {
                &&& final(self).previous_buffer_avg == old(self).previous_buffer_avg
                &&& final(self).cur_buffer_size_index == old(self).cur_buffer_size_index + 1
                &&& final(self).prev_buffer_sizes@ == old(self).prev_buffer_sizes@.update(
                    old(self).cur_buffer_size_index as int,
                    buffer_size,
                )
                &&& r is None
            },
    {
        let mut r: Option<(usize, usize)> = None;
        if self.cur_buffer_size_index == SAMPLES_PER_AVERAGE {
            self.cur_buffer_size_index = 0;
            let avg = self.get_average_buffer_size();
            if self.previous_buffer_avg != 0 {
                r = Some((self.previous_buffer_avg, avg));
            }
            self.previous_buffer_avg = avg;
        }
        self.prev_buffer_sizes[self.cur_buffer_size_index] = buffer_size;
        self.cur_buffer_size_index += 1;
        r
    }

    /// The average of the recorded queue sizes, rounded down.
    pub fn get_average_buffer_size(&self) -> (avg: usize)
        requires
            sum_sizes(self.prev_buffer_sizes@, 50) <= usize::MAX,
        ensures
            avg == sum_sizes(self.prev_buffer_sizes@, 50) / 50,
    {
        let mut avg: usize = 0;
        let mut i: usize = 0;
        while i < SAMPLES_PER_AVERAGE
            invariant
                i <= 50,
                avg == sum_sizes(self.prev_buffer_sizes@, i as int),
                sum_sizes(self.prev_buffer_sizes@, 50) <= usize::MAX,
            decreases 50 - i,
        {
            proof {
                lemma_sum_monotone(self.prev_buffer_sizes@, i + 1, 50);
            }
            avg += self.prev_buffer_sizes[i];
            i += 1;
        }
        avg / SAMPLES_PER_AVERAGE
    }

    /// Forget the previous average, so the next one does not change the rate
    /// (after a pause).
    pub fn skip_next_frame(&mut self)
        ensures
            final(self).previous_buffer_avg == 0,
            final(self).current_output_rate == old(self).current_output_rate,
            final(self).prev_buffer_sizes == old(self).prev_buffer_sizes,
            final(self).cur_buffer_size_index == old(self).cur_buffer_size_index,
    {
        self.previous_buffer_avg = 0;
    }
}

proof fn lemma_sum_monotone(sizes: Seq<usize>, a: int, b: int)
    requires
        0 <= a <= b,
    ensures
        sum_sizes(sizes, a) <= sum_sizes(sizes, b),
    decreases b - a,
{
    if a < b {
        lemma_sum_monotone(sizes, a, b - 1);
    }
}

} // verus!
