//! The machine: processor, bus and timer stepped together, frame by frame.
use vstd::prelude::*;
use crate::cpu::Cpu;
use crate::cpu::decode::lemma_step_cycles;
use crate::mmu::Mmu;
use crate::timer::Timer;

verus! {

/// Cycles in one video frame.
pub const CYCLES_PER_FRAME: u32 = 70224;

/// The processor, the bus and the timer, and the cycles of the last instruction.
pub struct System {
    pub cpu: Cpu,
    pub mmu: Mmu,
    pub timer: Timer,
    pub cycles: u32,
}

/// The cycles of the frame still to run after `done` of them.
pub open spec fn frame_left(done: int) -> nat {
    if done >= CYCLES_PER_FRAME {
        0
    } else {
        (CYCLES_PER_FRAME - done) as nat
    }
}

impl System {
    /// The cycles that the instruction at PC takes.
    pub open spec fn step_cycles(self) -> u32 {
        (self.cpu.step_cpu(self.mmu, self.timer).cycles.wrapping_sub(self.cpu.cycles)) as u32
    }

    /// `s1` is the machine after one instruction and the timer tick for its
    /// cycles, the timer's interrupt request going to IF (I/O register 0x0F).
    #[verifier::opaque]
    pub open spec fn after_step(self, s1: System) -> bool {
        let k = self.step_cycles();
        exists|mm: Mmu, tt: Timer|
            {
                &&& #[trigger] self.cpu.step_mem(self.mmu, self.timer, mm, tt)
                &&& s1.cpu == self.cpu.step_cpu(self.mmu, self.timer)
                &&& s1.cycles == k
                &&& (s1.timer, s1.mmu.io_registers@[0x0F]) == tt.ticked(k, mm.io_registers@[0x0F])
                &&& s1.mmu == Mmu {
                    io_registers: vstd::array::spec_array_update(
                        mm.io_registers,
                        0x0F,
                        s1.mmu.io_registers@[0x0F],
                    ),
                    ..mm
                }
            }
    }

    /// Whether the rest of a frame runs, `done` cycles of it being past:
    /// every instruction reached before the frame's cycles are spent can run.
    pub open spec fn frame_ok(self, done: int) -> bool
        decreases frame_left(done),
    {
        if done >= CYCLES_PER_FRAME {
            true
        } else {
            &&& self.cpu.step_can(self.mmu, self.timer)
            &&& forall|mid: System|
                #![trigger self.after_step(mid)]
                self.after_step(mid) && mid.cycles > 0 ==> mid.frame_ok(done + mid.cycles)
        }
    }

    /// `s1` is the machine at the end of the frame, `done` cycles of it
    /// being past: instructions run until the frame's cycles are spent.
    pub open spec fn frame_rel(self, done: int, s1: System) -> bool
        decreases frame_left(done),
    {
        if done >= CYCLES_PER_FRAME {
            s1 == self
        } else {
            exists|mid: System|
                #![trigger self.after_step(mid)]
                self.after_step(mid) && mid.cycles > 0 && mid.frame_rel(done + mid.cycles, s1)
        }
    }

    /// A machine around `mmu` with a processor and timer at power-on.
    pub fn new(mmu: Mmu) -> (r: Self)
        ensures
            r.cpu == Cpu::spec_new(),
            r.mmu == mmu,
            r.timer == (Timer { div: 0, tima: 0, tma: 0, tac: 0 }),
            r.cycles == 0,
    {
        System { cpu: Cpu::new(), mmu, timer: Timer::new(), cycles: 0 }
    }

    /// Runs one instruction and then the timer for its cycles.
    fn step(&mut self)
        requires
            old(self).cpu.step_can(old(self).mmu, old(self).timer),
        ensures
            old(self).after_step(*final(self)),
            4 <= final(self).cycles <= 24,
    {
        proof {
            lemma_step_cycles(self.cpu, self.mmu, self.timer);
            reveal(System::after_step);
        }
        let ghost s0 = *self;
        self.cycles = self.cpu.step(&mut self.mmu, &mut self.timer);
        let ghost mm = self.mmu;
        let ghost tt = self.timer;
        let mut interrupt_flag = self.mmu.io_registers[0x0F];
        self.timer.tick(self.cycles, &mut interrupt_flag);
        self.mmu.io_registers[0x0F] = interrupt_flag;
        assert(s0.cpu.step_mem(s0.mmu, s0.timer, mm, tt));
        assert(self.mmu == Mmu {
            io_registers: vstd::array::spec_array_update(mm.io_registers, 0x0F, self.mmu.io_registers@[0x0F]),
            ..mm
        });
    }

    /// Runs instructions, each followed by its timer tick, until the cycles
    /// of one frame (70224) are spent: the instructions run take 70224 to
    /// 70247 cycles in all, and the frame stops at the first instruction
    /// that reaches 70224.
    pub fn step_frame(&mut self)
        requires
            old(self).frame_ok(0),
        ensures
            old(self).frame_rel(0, *final(self)),
            CYCLES_PER_FRAME <= final(self).cpu.cycles.wrapping_sub(old(self).cpu.cycles)
                <= CYCLES_PER_FRAME + 23,
            final(self).cpu.cycles.wrapping_sub(old(self).cpu.cycles) - final(self).cycles
                < CYCLES_PER_FRAME,
    {
        let mut frame_cycles: u32 = 0;
        while frame_cycles < CYCLES_PER_FRAME
            invariant
                self.frame_ok(frame_cycles as int),
                forall|s1: System| #[trigger]
                    self.frame_rel(frame_cycles as int, s1) ==> old(self).frame_rel(0, s1),
            decreases frame_left(frame_cycles as int),
        {
            let ghost cur = *self;
            let ghost done = frame_cycles as int;
            self.step();
            proof { lemma_frame_step(cur, *self, done); }
            frame_cycles = frame_cycles + self.cycles;
            assert forall|s1: System| #[trigger] self.frame_rel(frame_cycles as int, s1) implies old(self).frame_rel(0, s1) by {
                assert(cur.frame_rel(done, s1));
            }
        }
        assert(self.frame_rel(frame_cycles as int, *self));
        proof {
            lemma_frame_total(*old(self), 0, *self);
        }
    }
}

/// The cycles of the rest of a frame, `done` of them being past: the
/// instructions that run take the frame to 70224 to 70247 cycles, and the
/// last of them is the first to reach 70224.
pub proof fn lemma_frame_total(s: System, done: int, s1: System)
    requires
        0 <= done < CYCLES_PER_FRAME,
        s.frame_ok(done),
        s.frame_rel(done, s1),
    ensures
        CYCLES_PER_FRAME <= done + s1.cpu.cycles.wrapping_sub(s.cpu.cycles) <= CYCLES_PER_FRAME + 23,
        done + s1.cpu.cycles.wrapping_sub(s.cpu.cycles) - s1.cycles < CYCLES_PER_FRAME,
    decreases frame_left(done),
{
    let mid = choose|mid: System|
        #![trigger s.after_step(mid)]
        s.after_step(mid) && mid.cycles > 0 && mid.frame_rel(done + mid.cycles, s1);
    lemma_step_cycles(s.cpu, s.mmu, s.timer);
    reveal(System::after_step);
    let k = mid.cycles;
    assert(mid.cpu.cycles == s.cpu.cycles.wrapping_add(k as u64));
    if done + k >= CYCLES_PER_FRAME {
        assert(s1 == mid);
    } else {
        assert(mid.frame_ok(done + k));
        lemma_frame_total(mid, done + k, s1);
    }
}

/// One instruction inside a frame: the rest of the frame from the next
/// machine is the rest from the current one, and it still runs.
proof fn lemma_frame_step(cur: System, next: System, done: int)
    requires
        done < CYCLES_PER_FRAME,
        cur.frame_ok(done),
        cur.after_step(next),
        next.cycles > 0,
    ensures
        next.frame_ok(done + next.cycles),
        forall|s1: System| next.frame_rel(done + next.cycles, s1) ==> cur.frame_rel(done, s1),
{
    assert forall|s1: System| next.frame_rel(done + next.cycles, s1) implies cur.frame_rel(done, s1) by {
        assert(cur.after_step(next) && next.cycles > 0 && next.frame_rel(done + next.cycles, s1));
    }
}

} // verus!
