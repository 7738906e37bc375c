//! The minimal machine: a CPU attached to a memory map.
use vstd::prelude::*;
use crate::minimal::cpu::CPU;
use crate::minimal::memory::{Memory, MemoryView};
use crate::minimal::instructions::{machine, cycle_spec, run_spec, lemma_run_step, lemma_run_prefix_ok};

verus! {

/// The number of instructions that `Emulator::run` executes.
pub const RUN_STEPS: u64 = 63802932;

/// The machine: CPU and memory.
pub struct Emulator {
    pub cpu: CPU,
    pub memory: Memory,
}

impl Emulator {
    pub fn new() -> (em: Emulator)
        ensures
            em.cpu.regs == CPU::initial_registers(),
            em.memory@ == MemoryView::initial(),
    {
        Emulator { cpu: CPU::new(), memory: Memory::new() }
    }

    /// Run the CPU for 63802932 instructions.
    pub fn run(&mut self)
        requires
            run_spec(machine(old(self).cpu.regs, old(self).memory@), RUN_STEPS as nat).ok,
        ensures
            machine(final(self).cpu.regs, final(self).memory@) == run_spec(
                machine(old(self).cpu.regs, old(self).memory@),
                RUN_STEPS as nat,
            ),
    {
        let ghost m0 = machine(self.cpu.regs, self.memory@);
        let mut i: u64 = 1;
        while i < 63802933
            invariant
                1 <= i <= 63802933,
                run_spec(m0, RUN_STEPS as nat).ok,
                machine(self.cpu.regs, self.memory@) == run_spec(m0, (i - 1) as nat),
            decreases 63802933 - i,
        {
            proof {
                lemma_run_step(m0, (i - 1) as nat);
                lemma_run_prefix_ok(m0, i as nat, RUN_STEPS as nat);
            }
            self.step();
            i = i + 1;
        }
    }

    /// Execute one instruction.
    pub fn step(&mut self)
        requires
            cycle_spec(machine(old(self).cpu.regs, old(self).memory@)).ok,
        ensures
            machine(final(self).cpu.regs, final(self).memory@) == cycle_spec(
                machine(old(self).cpu.regs, old(self).memory@),
            ),
    {
        self.cpu.cycle(&mut self.memory);
    }
}

} // verus!
