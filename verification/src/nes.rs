//! The cycle-stepped co-scheduler: one `step` is one CPU cycle, inside
//! which the instruction engine loads or fires and the picture unit is
//! clocked three times. A frame is exactly 29,780 such cycles.
//!
//! An instruction's effects land exactly once, on the final cycle of its
//! window: the decode phase arms `cycles_left` with the instruction's full
//! price, every cycle pays one off, and the tick that finds the countdown
//! at one executes. An interrupt raised by the picture unit adds its seven
//! cycles to the running countdown, not to a queue.

use vstd::prelude::*;

use crate::bus::{rd_bus, rd_val, Bus, BusM};
use crate::util::combine16;
use crate::cpu::{exec_model, flags_byte, load_model, reset_model, Cpu};
use crate::errors::EmuError;
use crate::ppu::{tick_model, Ppu, PpuM};

verus! {

/// One CPU cycle per `step` call; this many steps make one video frame.
pub const CYCLES_PER_FRAME: usize = 29780;

pub struct Nes {
    pub bus: Bus,
    pub cpu: Cpu,
    pub ppu: Ppu,
    /// Cycles still owed on the instruction in flight.
    pub cycles_left: u64,
    /// Total cycles charged since power-on.
    pub cycles: u64,
}

/// Mathematical model of the whole machine.
#[verifier::ext_equal]
pub struct NesM {
    pub bus: BusM,
    pub cpu: Cpu,
    pub ppu: PpuM,
    pub cycles_left: u64,
    pub cycles: u64,
}

impl View for Nes {
    type V = NesM;

    open spec fn view(&self) -> NesM {
        NesM {
            bus: self.bus@,
            cpu: self.cpu,
            ppu: self.ppu@,
            cycles_left: self.cycles_left,
            cycles: self.cycles,
        }
    }
}

impl NesM {
    pub open spec fn wf(self) -> bool {
        &&& self.bus.wf()
        &&& self.ppu.wf()
    }
}

/// The host's controller byte published to the bus.
pub open spec fn set_input(m: NesM, input: u8) -> NesM {
    NesM { bus: BusM { input: input, ..m.bus }, ..m }
}

/// One CPU cycle. At countdown one the pending instruction fires; at zero
/// the next one is decoded and the countdown armed with its price. Then
/// the picture unit runs three dots, any interrupt charge joining the
/// countdown, and one cycle is paid off. The second component is false
/// exactly when the cycle hit a fatal fault.
pub open spec fn step_engine(m: NesM) -> (NesM, bool) {
    if m.cycles_left == 1 {
        let e = exec_model(m.cpu, m.bus, m.ppu);
        (NesM { cpu: e.cpu, bus: e.bus, ppu: e.ppu, ..m }, e.ok)
    } else if m.cycles_left == 0 {
        let l = load_model(m.cpu, m.bus);
        if l.known {
            (
                NesM {
                    cpu: l.cpu,
                    bus: l.bus,
                    cycles_left: l.cycles as u64,
                    cycles: (m.cycles + l.cycles) as u64,
                    ..m
                },
                true,
            )
        } else {
            (NesM { cpu: l.cpu, bus: l.bus, ..m }, false)
        }
    } else {
        (m, true)
    }
}

/// The three picture dots of one CPU cycle, any interrupt charge joining
/// the countdown, and the cycle paid off.
pub open spec fn step_dots(m1: NesM) -> NesM {
    let t1 = tick_model(m1.ppu, m1.bus, m1.cpu);
    let t2 = tick_model(t1.0, t1.1, t1.2);
    let t3 = tick_model(t2.0, t2.1, t2.2);
    let extra = t1.3 + t2.3 + t3.3;
    let m2 = NesM {
        ppu: t3.0,
        bus: t3.1,
        cpu: t3.2,
        cycles_left: (m1.cycles_left + extra) as u64,
        cycles: (m1.cycles + extra) as u64,
        ..m1
    };
    NesM { cycles_left: (m2.cycles_left - 1) as u64, ..m2 }
}

pub open spec fn step_model(m: NesM) -> (NesM, bool) {
    let s1 = step_engine(m);
    if !s1.1 {
        s1
    } else {
        (step_dots(s1.0), true)
    }
}

/// `k` cycles run in sequence, stopping at the first fault.
pub open spec fn run_model(m: NesM, k: nat) -> (NesM, bool)
    decreases k,
{
    if k == 0 {
        (m, true)
    } else {
        let s = step_model(m);
        if !s.1 {
            s
        } else {
            run_model(s.0, (k - 1) as nat)
        }
    }
}

impl Nes {
    pub fn new() -> (r: Nes)
        ensures
            r@.wf(),
            r@.cycles_left == 0,
            r@.cycles == 0,
            r@.bus.cpu_mem == Seq::new(0x10000nat, |i: int| 0u8),
            r@.bus.ppu_mem == Seq::new(0x4000nat, |i: int| 0u8),
            r@.bus.input == 0,
            r@.bus.polling == false,
            r@.cpu.a == 0 && r@.cpu.x == 0 && r@.cpu.y == 0,
            r@.cpu.pc == 0x34,
            r@.cpu.stack_pointer == 0xFD,
            r@.cpu.i && !r@.cpu.c && !r@.cpu.z && !r@.cpu.d && !r@.cpu.b && !r@.cpu.o
                && !r@.cpu.n,
            r@.ppu.cycle == 0 && r@.ppu.line == 0,
            r@.ppu.status == (crate::ppu::Status {
                vblank: false,
                hit: false,
                overflow: false,
                bus: 0,
            }),
            r@.ppu.control.nmi == false,
            r@.ppu.addr == 0,
            r@.ppu.w == false,
            r@.ppu.sprite_index == 0,
            r@.ppu.oam == Seq::new(256, |i: int| 0u8),
            r@.ppu.frame == Seq::new((240 * 256) as nat, |i: int| 0u8),
    {
        Nes { bus: Bus::new(), cpu: Cpu::new(), ppu: Ppu::new(), cycles_left: 0, cycles: 0 }
    }

    /// Power-on or explicit reset: the program counter comes from the
    /// vector at 0xFFFC, the stack pointer is forced to 0xFD, the flag
    /// byte reads 0x24, and seven cycles are charged.
    pub fn reset(&mut self)
        requires
            old(self)@.wf(),
            old(self)@.cycles + 7 <= u64::MAX,
        ensures
            final(self)@.wf(),
            final(self)@.cpu == reset_model(old(self)@.cpu, old(self)@.bus).0,
            final(self)@.bus == reset_model(old(self)@.cpu, old(self)@.bus).1,
            final(self)@.ppu == old(self)@.ppu,
            final(self)@.cycles_left == 7,
            final(self)@.cycles == old(self)@.cycles + 7,
            final(self)@.cpu.pc == combine16(
                rd_val(old(self)@.bus, 0xFFFC),
                rd_val(rd_bus(old(self)@.bus, 0xFFFC), 0xFFFD),
            ),
            final(self)@.cpu.stack_pointer == 0xFD,
            final(self)@.cpu.i,
            flags_byte(final(self)@.cpu) == 0x24,
    {
        self.cpu.Reset(&mut self.bus);
        self.cycles_left = 7;
        self.cycles = self.cycles + 7;
    }

    /// The instruction-engine half of one cycle: fire at countdown one,
    /// decode and arm at countdown zero.
    #[verifier::rlimit(100)]
    #[verifier::spinoff_prover]
    fn step_engine_exec(&mut self) -> (r: Result<(), EmuError>)
        requires
            old(self)@.wf(),
            old(self)@.cycles < 0xFFFF_FFFF_FFFF,
        ensures
            final(self)@.wf(),
            ({
                let s = step_engine(old(self)@);
                &&& final(self)@ == s.0
                &&& (r matches Ok(u) ==> s.1)
                &&& (r matches Err(e) ==> !s.1)
            }),
            final(self)@.cycles_left <= old(self)@.cycles_left + 9,
            final(self)@.cycles <= old(self)@.cycles + 9,
            r matches Ok(u) ==> final(self)@.cycles_left >= 1,
    {
        if self.cycles_left == 1 {
            match self.cpu.execute_instruction(&mut self.bus, &mut self.ppu) {
                Ok(u) => u,
                Err(e) => {
                    return Err(e);
                },
            }
        } else if self.cycles_left == 0 {
            match self.cpu.load_instruction(&mut self.bus) {
                Ok(c) => {
                    self.cycles_left = c as u64;
                    self.cycles = self.cycles + c as u64;
                },
                Err(e) => {
                    return Err(e);
                },
            }
        }
        Ok(())
    }

    /// The picture half of one cycle: three dots, the interrupt charge
    /// joining the countdown, one cycle paid off.
    #[verifier::rlimit(100)]
    #[verifier::spinoff_prover]
    fn step_dots_exec(&mut self)
        requires
            old(self)@.wf(),
            old(self)@.cycles_left >= 1,
            old(self)@.cycles_left < 0xFFFF_FFFF_F,
            old(self)@.cycles < 0xFFFF_FFFF_FFFF_F,
        ensures
            final(self)@.wf(),
            final(self)@ == step_dots(old(self)@),
            final(self)@.cycles_left <= old(self)@.cycles_left + 21,
            final(self)@.cycles <= old(self)@.cycles + 21,
    {
        let t1 = self.ppu.tick(&mut self.bus, &mut self.cpu);
        self.cycles_left = self.cycles_left + t1 as u64;
        self.cycles = self.cycles + t1 as u64;
        let t2 = self.ppu.tick(&mut self.bus, &mut self.cpu);
        self.cycles_left = self.cycles_left + t2 as u64;
        self.cycles = self.cycles + t2 as u64;
        let t3 = self.ppu.tick(&mut self.bus, &mut self.cpu);
        self.cycles_left = self.cycles_left + t3 as u64;
        self.cycles = self.cycles + t3 as u64;
        self.cycles_left = self.cycles_left - 1;
    }

    /// One CPU cycle of the machine, per the scheduler's fixed order:
    /// instruction engine first, then three picture dots, then the
    /// countdown pays one cycle.
    #[verifier::rlimit(100)]
    #[verifier::spinoff_prover]
    pub fn step(&mut self) -> (r: Result<(), EmuError>)
        requires
            old(self)@.wf(),
            old(self)@.cycles_left < 0xFFFF_FFFF,
            old(self)@.cycles < 0xFFFF_FFFF_FFFF,
        ensures
            final(self)@.wf(),
            ({
                let s = step_model(old(self)@);
                &&& final(self)@ == s.0
                &&& (r matches Ok(u) ==> s.1)
                &&& (r matches Err(e) ==> !s.1)
            }),
            final(self)@.cycles_left <= old(self)@.cycles_left + 30,
            final(self)@.cycles <= old(self)@.cycles + 30,
    {
        match self.step_engine_exec() {
            Ok(u) => u,
            Err(e) => {
                return Err(e);
            },
        }
        proof {
            assert(self@.cycles_left >= 1);
        }
        self.step_dots_exec();
        Ok(())
    }

    /// One video frame: the host's input byte is published, then exactly
    /// 29,780 CPU cycles run. A fatal fault stops the frame where it
    /// stands.
    #[verifier::rlimit(100)]
    #[verifier::spinoff_prover]
    pub fn run_frame(&mut self, input: u8) -> (r: Result<(), EmuError>)
        requires
            old(self)@.wf(),
            old(self)@.cycles_left < 0xF000_0000,
            old(self)@.cycles < 0xFFFF_0000_0000,
        ensures
            final(self)@.wf(),
            ({
                let f = run_model(set_input(old(self)@, input), CYCLES_PER_FRAME as nat);
                &&& final(self)@ == f.0
                &&& (r matches Ok(u) ==> f.1)
                &&& (r matches Err(e) ==> !f.1)
            }),
    {
        self.bus.input = input;
        proof {
            assert(self@ =~= set_input(old(self)@, input));
        }
        let ghost m0 = self@;
        let mut i: usize = 0;
        while i < CYCLES_PER_FRAME
            invariant
                i <= CYCLES_PER_FRAME,
                self@.wf(),
                self@.cycles_left <= m0.cycles_left + 30 * i,
                self@.cycles <= m0.cycles + 30 * i,
                m0.cycles_left < 0xF000_0000,
                m0.cycles < 0xFFFF_0000_0000,
                m0 == set_input(old(self)@, input),
                run_model(m0, CYCLES_PER_FRAME as nat) == run_model(
                    self@,
                    (CYCLES_PER_FRAME - i) as nat,
                ),
            decreases CYCLES_PER_FRAME - i,
        {
            let ghost mprev = self@;
            match self.step() {
                Ok(u) => u,
                Err(e) => {
                    proof {
                        assert(run_model(mprev, (CYCLES_PER_FRAME - i) as nat) == step_model(
                            mprev,
                        ));
                    }
                    return Err(e);
                },
            }
            proof {
                assert(run_model(mprev, (CYCLES_PER_FRAME - i) as nat) == run_model(
                    self@,
                    (CYCLES_PER_FRAME - i - 1) as nat,
                ));
            }
            i = i + 1;
        }
        Ok(())
    }
}

} // verus!
