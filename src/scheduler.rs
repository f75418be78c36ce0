use vstd::prelude::*;
use crate::cpu::Cpu;
use crate::execute::cpu_ran;
use crate::memory_gb::MemoryMap;
use crate::ppu::{Ppu, ppu_ran};

verus! {

/// What one scheduler step ran: the CPU for some machine cycles, or the PPU for
/// some dots (`PpuUnlock` when the PPU ran to free a CPU that made no progress).
#[derive(Clone, Copy, PartialEq, Eq, Structural, Debug)]
pub enum Slice {
    Cpu(u8),
    Ppu(u32),
    PpuUnlock(u32),
}

/// The dot-debt scheduler. The CPU runs up a debt of dots; the PPU pays it
/// down. `cpu_locked` is set when a CPU pass spent no dots (a halted CPU with
/// nothing to wake it), and makes the next step run the PPU regardless of the
/// debt, so that the machine always progresses.
pub struct Scheduler {
    pub debt: i32,
    pub cpu_locked: bool,
}

pub const DEBT_BOUND: i32 = 100000;

impl Scheduler {
    pub open spec fn wf(&self) -> bool {
        -DEBT_BOUND < self.debt < DEBT_BOUND
    }

    /// No debt, nothing locked.
    pub fn new() -> (r: Scheduler)
        ensures
            r.wf(),
            r.debt == 0,
            !r.cpu_locked,
    {
        Scheduler { debt: 0, cpu_locked: false }
    }

    /// One scheduling decision and the work it picks. With no debt and no lock
    /// the CPU runs one pass and its dots (4 per machine cycle) are added to the
    /// debt; a pass of 0 cycles sets the lock. With the lock set the PPU runs one
    /// granule, the lock is cleared and the debt is left alone. Otherwise the
    /// PPU runs one granule and its dots are taken off the debt.
    pub fn step(&mut self, cpu: &mut Cpu, ppu: &mut Ppu, memory: &mut MemoryMap) -> (r: Slice)
        requires
            old(self).wf(),
            old(cpu).wf(),
            old(ppu).wf(),
            old(memory).wf(),
        ensures
            final(self).wf(),
            final(cpu).wf(),
            final(ppu).wf(),
            final(memory).wf(),
            (old(self).debt <= 0 && !old(self).cpu_locked) ==> ({
                &&& r matches Slice::Cpu(c)
                &&& final(self).debt == old(self).debt + 4 * c
                &&& final(self).cpu_locked == (c == 0)
                &&& cpu_ran(old(cpu), old(memory)@, final(cpu), final(memory)@, c)
                &&& *final(ppu) == *old(ppu)
            }),
            old(self).cpu_locked ==> ({
                &&& r matches Slice::PpuUnlock(d)
                &&& !final(self).cpu_locked
                &&& final(self).debt == old(self).debt
                &&& ppu_ran(old(ppu), old(memory)@, final(ppu), final(memory)@, d)
                &&& *final(cpu) == *old(cpu)
            }),
            (old(self).debt > 0 && !old(self).cpu_locked) ==> ({
                &&& r matches Slice::Ppu(d)
                &&& final(self).debt == old(self).debt - d
                &&& !final(self).cpu_locked
                &&& ppu_ran(old(ppu), old(memory)@, final(ppu), final(memory)@, d)
                &&& *final(cpu) == *old(cpu)
            }),
    {
        if self.debt <= 0 && !self.cpu_locked {
            let cycles = cpu.run(memory);
            self.debt = self.debt + 4 * cycles as i32;
            self.cpu_locked = cycles == 0;
            Slice::Cpu(cycles)
        } else if self.cpu_locked {
            let dots = ppu.run(memory);
            self.cpu_locked = false;
            Slice::PpuUnlock(dots)
        } else {
            let dots = ppu.run(memory);
            self.debt = self.debt - dots as i32;
            Slice::Ppu(dots)
        }
    }
}

} // verus!
