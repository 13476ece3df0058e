//! The machine as a whole: CPU, bus and pixel processor driven frame by frame.
use vstd::prelude::*;
use crate::cpu::Cpu;
use crate::isa::{lemma_step_cycles, step_spec};
use crate::mmu::{MemView, Mmu};
use crate::ppu::{Ppu, tick_spec};

verus! {

/// Cycles in one frame: 154 scanlines of 456 dots.
pub const CYCLES_PER_FRAME: u32 = 70224;

/// The whole machine as plain values.
pub struct MachineView {
    pub cpu: Cpu,
    pub mem: MemView,
    pub framebuffer: Seq<u8>,
    pub ly: u8,
    pub dot: u32,
}

/// One CPU step, then the pixel processor ticked by the cycles it took.
pub open spec fn machine_step(s: MachineView) -> (MachineView, u32) {
    let (cpu, m1, cycles) = step_spec(s.cpu, s.mem);
    let (framebuffer, ly, dot, mem) = tick_spec(s.framebuffer, s.ly, s.dot, m1, cycles);
    (MachineView { cpu, mem, framebuffer, ly, dot }, cycles)
}

/// Machine steps from `s`, with `done` cycles already run, until a frame's
/// worth of cycles has run: the state reached and the cycles run in all.
pub open spec fn run_frame_spec(s: MachineView, done: nat) -> (MachineView, nat)
    decreases CYCLES_PER_FRAME + 24 - done,
{
    if done >= CYCLES_PER_FRAME {
        (s, done)
    } else {
        proof {
            lemma_step_cycles(s.cpu, s.mem);
            assert(machine_step(s).1 >= 4);
        }
        let (s1, cycles) = machine_step(s);
        run_frame_spec(s1, (done + cycles) as nat)
    }
}

/// A DMG Game Boy: the CPU, the bus it owns, and the pixel processor.
pub struct GameBoy {
    pub cpu: Cpu,
    pub mmu: Mmu,
    pub ppu: Ppu,
}

impl View for GameBoy {
    type V = MachineView;

    open spec fn view(&self) -> MachineView {
        MachineView {
            cpu: self.cpu,
            mem: self.mmu@,
            framebuffer: self.ppu.framebuffer@,
            ly: self.ppu.ly,
            dot: self.ppu.dot,
        }
    }
}

impl GameBoy {
    pub open spec fn wf(&self) -> bool {
        self.cpu.wf() && self.mmu.wf() && self.ppu.wf()
    }

    /// A machine in its post-boot state over `rom` and the saved `extram`.
    pub fn new(rom: Vec<u8>, extram: Vec<u8>) -> (r: Self)
        ensures
            r.wf(),
            r.mmu@ == MemView::boot(rom@, extram@),
            r.cpu.a == 0x01 && r.cpu.f == 0xB0 && r.cpu.pc == 0x0100 && r.cpu.sp == 0xFFFE,
            r.cpu.b == 0x00 && r.cpu.c == 0x13 && r.cpu.d == 0x00 && r.cpu.e == 0xD8,
            r.cpu.h == 0x01 && r.cpu.l == 0x4D,
            !r.cpu.ime && !r.cpu.halted && r.cpu.illegal.is_none(),
            r.ppu.ly == 0 && r.ppu.dot == 0,
    {
        GameBoy { cpu: Cpu::new(), mmu: Mmu::new(rom, extram), ppu: Ppu::new() }
    }

    /// Runs CPU steps, each followed by a PPU tick of its cycles, until at
    /// least one frame's worth of cycles has run; returns the cycles run.
    pub fn run_frame(&mut self) -> (cycles: u32)
        requires
            old(self).wf(),
        ensures
            final(self).wf(),
            (final(self)@, cycles as nat) == run_frame_spec(old(self)@, 0),
    {
        let mut cycles: u32 = 0;
        while cycles < CYCLES_PER_FRAME
            invariant
                self.wf(),
                cycles <= CYCLES_PER_FRAME + 24,
                run_frame_spec(self@, cycles as nat) == run_frame_spec(old(self)@, 0),
            decreases CYCLES_PER_FRAME + 24 - cycles,
        {
            proof {
                lemma_step_cycles(self.cpu, self.mmu@);
            }
            let c = self.cpu.step(&mut self.mmu);
            self.ppu.tick(c, &mut self.mmu);
            cycles = cycles + c;
        }
        cycles
    }
}

} // verus!
