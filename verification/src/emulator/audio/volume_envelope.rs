//! The volume envelope of a sound channel: the volume steps up or down by one
//! every `period` envelope ticks, within 0..=15.
use vstd::prelude::*;

verus! {

/// Volume and the ticks left until the next volume step.
#[derive(Copy, Clone)]
pub struct VolumeEnvelope {
    pub volume: u8,
    pub delay: u8,
}

impl VolumeEnvelope {
    pub fn new() -> (v: VolumeEnvelope)
        ensures
            v.volume == 0,
            v.delay == 0,
    {
        return VolumeEnvelope { volume: 0, delay: 0 };
    }

    /// One envelope tick. A delay of 0 means the envelope is stopped; when the
    /// delay runs out, it restarts at `period` and the volume moves one step,
    /// up when `mode` is set (to at most 15), down otherwise (to at least 0).
    pub fn step(&mut self, period: u8, mode: bool)
        ensures
            old(self).delay > 1 ==> final(self).delay == old(self).delay - 1 && final(self).volume
                == old(self).volume,
            old(self).delay == 0 ==> *final(self) == *old(self),
            old(self).delay == 1 ==> final(self).delay == period && final(self).volume == (if mode
                && old(self).volume < 15 {
                old(self).volume + 1
            } else if !mode && old(self).volume > 0 {
                old(self).volume - 1
            } else {
                old(self).volume as int
            }),
    {
        if self.delay > 1 {
            self.delay -= 1;
        } else if self.delay == 1 {
            self.delay = period;
            if mode && self.volume < 15 {
                self.volume += 1;
            } else if !mode && self.volume > 0 {
                self.volume -= 1;
            }
        }
    }
}

} // verus!
