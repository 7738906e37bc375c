//! The timer of the full machine.
//!
//! DIV (0xFF04) is a general counter that goes up every 256 clock cycles. TIMA
//! (0xFF05) is the timer counter, which goes up at the speed that TAC picks; when
//! it overflows it is reloaded from TMA (0xFF06) and a timer interrupt is
//! requested. TAC (0xFF07): bit 2 enables the timer, and bits 1 and 0 pick its
//! period: 00 is 1024 clock cycles, 01 is 16, 10 is 64 and 11 is 256.
use vstd::prelude::*;

verus! {

/// The timer registers and their cycle counters.
pub struct Timer {
    pub div: u8,
    pub tima: u8,
    pub tma: u8,
    pub tac: u8,
    pub request_interrupt: bool,
    pub div_increment_counter: u16,
    pub tima_increment_counter: u16,
    pub enabled: bool,
    pub tima_step: u16,
}

/// The TIMA period, in clock cycles, that the two low bits of TAC select.
pub open spec fn spec_tima_step(tac: u8) -> u16 {
    let sel = tac % 4;
    if sel == 0 {
        1024
    } else if sel == 1 {
        16
    } else if sel == 2 {
        64
    } else {
        256
    }
}

/// TIMA after `n` increments, starting at `tima`, with reloads from `tma` on
/// overflow; and whether any overflow happened.
pub open spec fn spec_tima_after(tima: u8, tma: u8, n: nat) -> (u8, bool)
    decreases n,
{
    if n == 0 {
        (tima, false)
    } else {
        let next = ((tima + 1) % 256) as u8;
        let (reloaded, overflow) = if next == 0 {
            (tma, true)
        } else {
            (next, false)
        };
        let (t, o) = spec_tima_after(reloaded, tma, (n - 1) as nat);
        (t, overflow || o)
    }
}

impl Timer {
    /// The period of TIMA is one of the four the hardware offers.
    pub open spec fn wf(&self) -> bool {
        self.tima_step == 16 || self.tima_step == 64 || self.tima_step == 256 || self.tima_step
            == 1024
    }

    /// All registers zero, the timer disabled, the period at 256 cycles.
    pub fn new() -> (t: Timer)
        ensures
            t == (Timer {
                div: 0,
                tima: 0,
                tma: 0,
                tac: 0,
                request_interrupt: false,
                div_increment_counter: 0,
                tima_increment_counter: 0,
                enabled: false,
                tima_step: 256,
            }),
            t.wf(),
    {
        Timer {
            div: 0,
            tima: 0,
            tma: 0,
            tac: 0,
            request_interrupt: false,
            div_increment_counter: 0,
            tima_increment_counter: 0,
            enabled: false,
            tima_step: 256,
        }
    }

    pub fn read_byte(&self, address: usize) -> (r: u8)
        requires
            0xFF04 <= address <= 0xFF07,
        ensures
            r == (if address == 0xFF04 {
                self.div
            } else if address == 0xFF05 {
                self.tima
            } else if address == 0xFF06 {
                self.tma
            } else {
                self.tac
            }),
    {
        if address == 0xFF04 {
            return self.div;
        } else if address == 0xFF05 {
            return self.tima;
        } else if address == 0xFF06 {
            return self.tma;
        } else {
            return self.tac;
        }
    }

    /// Write a timer register. Writing DIV resets it to 0.
    pub fn write_byte(&mut self, address: usize, val: u8)
        requires
            0xFF04 <= address <= 0xFF07,
        ensures
            *final(self) == (if address == 0xFF04 {
                Timer { div: 0, ..*old(self) }
            } else if address == 0xFF05 {
                Timer { tima: val, ..*old(self) }
            } else if address == 0xFF06 {
                Timer { tma: val, ..*old(self) }
            } else {
                Timer {
                    tac: val,
                    enabled: val & 0b100 == 0b100,
                    tima_step: spec_tima_step(val),
                    ..*old(self)
                }
            }),
    {
        if address == 0xFF04 {
            self.div = 0;
        } else if address == 0xFF05 {
            self.tima = val;
        } else if address == 0xFF06 {
            self.tma = val;
        } else {
            self.set_tac(val);
        }
    }

    /// Set TAC and the enable flag and period it selects.
    pub fn set_tac(&mut self, tac: u8)
        ensures
            *final(self) == (Timer {
                tac: tac,
                enabled: tac & 0b100 == 0b100,
                tima_step: spec_tima_step(tac),
                ..*old(self)
            }),
            final(self).wf(),
    {
        self.tac = tac;
        self.enabled = tac & 0b100 == 0b100;
        proof {
            assert(tac & 0b11 == tac % 4) by (bit_vector);
        }
        let sel = tac & 0b11;
        if sel == 0b00 {
            self.tima_step = 1024;
        } else if sel == 0b01 {
            self.tima_step = 16;
        } else if sel == 0b10 {
            self.tima_step = 64;
        } else {
            self.tima_step = 256;
        }
    }

    /// `new` is this timer after `cycles` clock cycles.
    pub open spec fn incremented(self, new: Timer, cycles: u16) -> bool {
        &&& (({
                let d = self.div_increment_counter + cycles;
                &&& new.div == (self.div + d / 256) % 256
                &&& new.div_increment_counter == d % 256
            }))
        &&& (self.enabled ==> ({
                let t = self.tima_increment_counter + cycles;
                let n = (t / self.tima_step as int) as nat;
                let (tima, overflow) = spec_tima_after(self.tima, self.tma, n);
                &&& new.tima == tima
                &&& new.request_interrupt == (self.request_interrupt || overflow)
                &&& new.tima_increment_counter == t % self.tima_step as int
            }))
        &&& (!self.enabled ==> new.tima == self.tima && new.request_interrupt
                == self.request_interrupt && new.tima_increment_counter == self.tima_increment_counter)
        &&& (new.tma == self.tma)
        &&& (new.tac == self.tac)
        &&& (new.enabled == self.enabled)
        &&& (new.tima_step == self.tima_step)
    }

    /// A number of clock cycles leaves the timer in one state only.
    pub proof fn lemma_incremented_unique(self, a: Timer, b: Timer, cycles: u16)
        requires
            self.incremented(a, cycles),
            self.incremented(b, cycles),
        ensures
            a == b,
    {
    }

    /// Advance the timer by a number of clock cycles. DIV goes up once per 256
    /// cycles; when enabled, TIMA goes up once per period, reloading from TMA
    /// and requesting an interrupt when it overflows.
    pub fn increment_by_cycles(&mut self, cycles: u16)
        requires
            old(self).wf(),
            old(self).div_increment_counter + cycles <= u16::MAX,
            old(self).enabled ==> old(self).tima_increment_counter + cycles <= u16::MAX,
        ensures
            final(self).wf(),
            old(self).incremented(*final(self), cycles),
    {
        let ghost d0 = self.div;
        let ghost dtotal: int = self.div_increment_counter + cycles;
        self.div_increment_counter += cycles;
        while self.div_increment_counter >= 256
            invariant
                0 <= self.div_increment_counter <= dtotal,
                (dtotal - self.div_increment_counter) % 256 == 0,
                self.div == (d0 + (dtotal - self.div_increment_counter) / 256) % 256,
                self.tima == old(self).tima,
                self.tma == old(self).tma,
                self.tac == old(self).tac,
                self.enabled == old(self).enabled,
                self.tima_step == old(self).tima_step,
                self.tima_increment_counter == old(self).tima_increment_counter,
                self.request_interrupt == old(self).request_interrupt,
            decreases self.div_increment_counter,
        {
            self.div = self.div.wrapping_add(1);
            self.div_increment_counter -= 256;
        }
        assert(dtotal / 256 == (dtotal - self.div_increment_counter) / 256) by {
            assert(self.div_increment_counter < 256);
        }
        if self.enabled {
            let ghost t0 = self.tima;
            let ghost ttotal: int = self.tima_increment_counter + cycles;
            let ghost step: int = self.tima_step as int;
            self.tima_increment_counter += cycles;
            let ghost mut k: nat = 0;
            while self.tima_increment_counter >= self.tima_step
                invariant
                    self.wf(),
                    step == self.tima_step,
                    0 <= self.tima_increment_counter <= ttotal,
                    ttotal - self.tima_increment_counter == k * step,
                    (self.tima, self.request_interrupt) == ({
                        let (t, o) = spec_tima_after(t0, old(self).tma, k);
                        (t, old(self).request_interrupt || o)
                    }),
                    self.tma == old(self).tma,
                    self.tac == old(self).tac,
                    self.enabled == old(self).enabled,
                    self.tima_step == old(self).tima_step,
                    self.div == (d0 + dtotal / 256) % 256,
                    self.div_increment_counter == dtotal % 256,
                decreases self.tima_increment_counter,
            {
                proof {
                    lemma_tima_after_step(t0, old(self).tma, k);
                }
                self.tima = self.tima.wrapping_add(1);
                if self.tima == 0 {
                    self.tima = self.tma;
                    self.request_interrupt = true;
                }
                self.tima_increment_counter -= self.tima_step;
                proof {
                    k = k + 1;
                    assert(ttotal - self.tima_increment_counter == k * step) by (nonlinear_arith)
                        requires
                            ttotal - (self.tima_increment_counter + step) == (k - 1) * step,
                    ;
                }
            }
            proof {
                assert(ttotal / step == k && ttotal % step == self.tima_increment_counter) by (
                nonlinear_arith)
                    requires
                        ttotal - self.tima_increment_counter == k * step,
                        0 <= self.tima_increment_counter < step,
                        step > 0,
                ;
            }
        }
    }
}

/// One more TIMA increment after `k` increments.
proof fn lemma_tima_after_step(tima: u8, tma: u8, k: nat)
    ensures
        ({
            let (t, o) = spec_tima_after(tima, tma, k);
            let next = ((t + 1) % 256) as u8;
            let (t2, o2) = spec_tima_after(tima, tma, k + 1);
            &&& next == 0 ==> t2 == tma && o2
            &&& next != 0 ==> t2 == next && o2 == o
        }),
    decreases k,
{
    if k > 0 {
        let next0 = ((tima + 1) % 256) as u8;
        let reloaded = if next0 == 0 {
            tma
        } else {
            next0
        };
        let ov0 = next0 == 0;
        lemma_tima_after_step(reloaded, tma, (k - 1) as nat);
        assert((k - 1) as nat + 1 == k);
        assert(spec_tima_after(tima, tma, k) == ({
            let (t, o) = spec_tima_after(reloaded, tma, (k - 1) as nat);
            (t, ov0 || o)
        }));
        assert(spec_tima_after(tima, tma, k + 1) == ({
            let (t, o) = spec_tima_after(reloaded, tma, k);
            (t, ov0 || o)
        }));
    } else {
        assert(spec_tima_after(tima, tma, 0) == (tima, false));
        let next0 = ((tima + 1) % 256) as u8;
        let reloaded = if next0 == 0 {
            tma
        } else {
            next0
        };
        assert(spec_tima_after(reloaded, tma, 0) == (reloaded, false));
    }
}

/// Counting `x` and then `b` more in periods of `d`: the whole periods add
/// up, and the remainder is that of the sum.
proof fn lemma_periods_add(x: int, b: int, d: int)
    requires
        x >= 0,
        b >= 0,
        d > 0,
    ensures
        x / d + (x % d + b) / d == (x + b) / d,
        (x % d + b) % d == (x + b) % d,
{
    let q = x / d;
    let r = x % d;
    vstd::arithmetic::div_mod::lemma_fundamental_div_mod(x, d);
    vstd::arithmetic::div_mod::lemma_fundamental_div_mod(r + b, d);
    let q2 = (r + b) / d;
    let r2 = (r + b) % d;
    assert(x + b == (q + q2) * d + r2) by (nonlinear_arith)
        requires
            x == d * q + r,
            r + b == d * q2 + r2,
    ;
    vstd::arithmetic::div_mod::lemma_fundamental_div_mod_converse(x + b, d, q + q2, r2);
}

/// `n1` increments of TIMA and then `n2` more are `n1 + n2` increments; an
/// overflow happened in the whole run when it happened in either part.
proof fn lemma_tima_after_adds(tima: u8, tma: u8, n1: nat, n2: nat)
    ensures
        ({
            let (t1, o1) = spec_tima_after(tima, tma, n1);
            let (t2, o2) = spec_tima_after(t1, tma, n2);
            spec_tima_after(tima, tma, n1 + n2) == (t2, o1 || o2)
        }),
    decreases n1,
{
    if n1 > 0 {
        let next = ((tima + 1) % 256) as u8;
        let reloaded = if next == 0 {
            tma
        } else {
            next
        };
        lemma_tima_after_adds(reloaded, tma, (n1 - 1) as nat, n2);
        assert((n1 + n2 - 1) as nat == (n1 - 1) as nat + n2);
    }
}

/// Advancing the timer by `a` cycles and then by `b` more is advancing it by
/// `a + b` cycles at once.
pub proof fn lemma_incremented_adds(t0: Timer, t1: Timer, t2: Timer, a: u16, b: u16)
    requires
        t0.wf(),
        a + b <= u16::MAX,
        t0.incremented(t1, a),
        t1.incremented(t2, b),
    ensures
        t0.incremented(t2, (a + b) as u16),
{
    lemma_periods_add(t0.div_increment_counter + a, b as int, 256);
    let big_a = (t0.div_increment_counter + a) / 256;
    let big_b = (t1.div_increment_counter + b) / 256;
    vstd::arithmetic::div_mod::lemma_add_mod_noop_right(big_b, t0.div + big_a, 256);
    assert(t2.div == (t0.div + (t0.div_increment_counter + a + b) / 256) % 256);
    if t0.enabled {
        let step = t0.tima_step as int;
        let x = t0.tima_increment_counter + a;
        lemma_periods_add(x, b as int, step);
        let n1 = (x / step) as nat;
        let n2 = ((t1.tima_increment_counter + b) / step) as nat;
        lemma_tima_after_adds(t0.tima, t0.tma, n1, n2);
        assert(n1 + n2 == ((x + b) / step) as nat);
    }
}

/// The TIMA frequencies that the two low bits of TAC select, at the 4194304
/// Hz clock: 4096 Hz, 262144 Hz, 65536 Hz and 16384 Hz.
pub proof fn lemma_tima_frequencies(tac: u8)
    ensures
        tac % 4 == 0 ==> 4194304int / (spec_tima_step(tac) as int) == 4096,
        tac % 4 == 1 ==> 4194304int / (spec_tima_step(tac) as int) == 262144,
        tac % 4 == 2 ==> 4194304int / (spec_tima_step(tac) as int) == 65536,
        tac % 4 == 3 ==> 4194304int / (spec_tima_step(tac) as int) == 16384,
{
}

} // verus!
