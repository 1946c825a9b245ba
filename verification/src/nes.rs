use vstd::prelude::*;

use crate::bus::Bus;
use crate::cartridge::{Cartridge, CartridgeId};
use crate::cheat::GameGenieCode;
use crate::controller::ControllerButtons;
use crate::cpu::{
    can_tick, is_write_cycle_op, lemma_program_len, lemma_tick_keeps, tick_spec, Cpu, CpuCycleKind,
    CpuProgram, CpuState, MicrocodeCursor,
};
use crate::frame::Frame;
use crate::mapper::SaveRamError;
use crate::nes_bus::{ppu_of, NesCpuBus, NesCpuBusState};
use crate::ppu::{dot_position, lemma_tick_moves_one_dot, PpuView};

verus! {

/// PPU dots per CPU cycle.
pub const PPU_TICKS_PER_CPU_CYCLE: u8 = 3;

/// Where the scheduler stands within a CPU cycle: about to start one, or
/// with some of its PPU dots still to run.
#[derive(Debug, Clone, Copy, PartialEq, Eq, Structural)]
pub enum SchedulerPhase {
    ReadyForCpuCycle,
    CompletingCpuCycle { ppu_ticks_remaining: u8 },
}

/// What stopped the scheduler: a whole CPU cycle ran, or a frame ended.
#[derive(Debug, Clone, Copy, PartialEq, Eq, Structural)]
pub enum SchedulerEvent {
    CpuCycleComplete,
    FrameBoundary,
}

/// Controller buttons held throughout one emulated frame interval.
#[derive(Debug, Clone, Copy, PartialEq, Eq, Structural)]
pub struct InputFrame {
    pub controller1: ControllerButtons,
    pub controller2: ControllerButtons,
}

impl InputFrame {
    pub fn new(controller1: ControllerButtons, controller2: ControllerButtons) -> (f: Self)
        ensures
            f == (InputFrame { controller1, controller2 }),
    {
        Self { controller1, controller2 }
    }
}

impl Default for InputFrame {
    fn default() -> (f: Self)
        ensures
            f == (InputFrame { controller1: ControllerButtons(0), controller2: ControllerButtons(0) }),
    {
        Self { controller1: ControllerButtons(0), controller2: ControllerButtons(0) }
    }
}

/// The RAM a frontend may read and change: the console's work RAM, and the
/// cartridge's PRG RAM if it has any, with whether a battery keeps it.
pub struct RamRegionsMut<'a> {
    pub system: &'a mut [u8],
    pub prg: Option<&'a mut [u8]>,
    pub prg_is_battery_backed: bool,
}

/// The machine stopped because the CPU fetched an opcode it has no program for.
#[derive(Debug, Clone, Copy, PartialEq, Eq, Structural)]
pub enum NesError {
    UnimplementedOpcode(u8),
}

/// Whether the CPU's next cycle reads or writes.
pub open spec fn cycle_kind(cpu: Cpu) -> CpuCycleKind {
    match cpu.state {
        CpuState::Fetch => CpuCycleKind::Read,
        CpuState::Exec(cursor) => if is_write_cycle_op(cursor.op()) {
            CpuCycleKind::Write
        } else {
            CpuCycleKind::Read
        },
    }
}

/// Between instructions: the PPU's NMI is taken (and cleared) first, then an
/// IRQ from the APU or cartridge unless the CPU masks it.
pub open spec fn interrupt_taken(cpu: Cpu, bus: NesCpuBus) -> (Cpu, NesCpuBus) {
    let bus1 = NesCpuBus { ppu: ppu_of(PpuView { nmi_pending: false, ..bus.ppu@ }), ..bus };
    let irq = bus.apu.frame_interrupt_flag || bus.apu.dmc.interrupt_flag
        || bus.cartridge.board.spec_irq_asserted();
    if bus.ppu@.nmi_pending {
        (
            Cpu { state: CpuState::Exec(MicrocodeCursor { program: CpuProgram::Nmi, next_op: 0 }), ..cpu },
            bus1,
        )
    } else if irq && !cpu.status.interrupt_disable {
        (
            Cpu { state: CpuState::Exec(MicrocodeCursor { program: CpuProgram::Irq, next_op: 0 }), ..cpu },
            bus1,
        )
    } else {
        (cpu, bus1)
    }
}

/// An order on the scheduler phases that every step inside a CPU cycle lowers.
pub open spec fn phase_rank(phase: SchedulerPhase) -> nat {
    match phase {
        SchedulerPhase::ReadyForCpuCycle => 256,
        SchedulerPhase::CompletingCpuCycle { ppu_ticks_remaining } => ppu_ticks_remaining as nat,
    }
}

/// An order on the phases that also covers the end of a CPU cycle, where the
/// PPU has run its three dots.
pub open spec fn cycle_rank(phase: SchedulerPhase) -> nat {
    match phase {
        SchedulerPhase::ReadyForCpuCycle => 4,
        SchedulerPhase::CompletingCpuCycle { ppu_ticks_remaining } => if ppu_ticks_remaining == 0 {
            5
        } else {
            ppu_ticks_remaining as nat
        },
    }
}

/// The `f64` bits of the default audio sample rate, 44100 Hz.
pub const DEFAULT_SAMPLE_RATE_BITS: u64 = 0x40E5_8880_0000_0000;

/// The console: CPU, bus and the scheduler that interleaves the CPU with
/// three PPU dots per cycle.
pub struct Nes {
    pub cpu: Cpu,
    pub bus: NesCpuBus,
    pub phase: SchedulerPhase,
    pub at_frame_boundary: bool,
    /// The bits of the audio sample rate (an `f64`) the machine runs at; a
    /// checkpoint belongs to machines with the same rate.
    pub sample_rate_bits: u64,
}

impl Nes {
    pub open spec fn wf(self) -> bool {
        &&& self.cpu.wf()
        &&& self.bus.wf()
        &&& phase_ok(self.phase)
    }

    /// Dots left before the PPU's frame ends, weighted so that every step of
    /// the scheduler short of a frame boundary lowers it.
    pub open spec fn frame_measure(self) -> nat {
        let left = 262 * 341 - dot_position(self.bus.ppu@);
        if left < 0 {
            0
        } else {
            (left * 10 + cycle_rank(self.phase)) as nat
        }
    }

    /// The start of a CPU cycle: DMA takes the bus if it runs or can halt the
    /// CPU now; otherwise the CPU takes a pending interrupt (between
    /// instructions) and runs its cycle. The state after, and the opcode if
    /// the CPU fetched one without a program.
    #[verifier::opaque]
    pub open spec fn spec_cycle_begun(self) -> (Nes, Option<u8>) {
        let (bus1, dma_owns) = if self.bus.spec_dma_running() {
            (self.bus, true)
        } else {
            self.bus.spec_halt_attempted(cycle_kind(self.cpu))
        };
        let next = SchedulerPhase::CompletingCpuCycle { ppu_ticks_remaining: 3 };
        if dma_owns {
            (Nes { bus: bus1.spec_dma_bus_action(), phase: next, ..self }, None)
        } else {
            let (cpu2, bus2) = if self.cpu.state is Fetch {
                interrupt_taken(self.cpu, bus1)
            } else {
                (self.cpu, bus1)
            };
            if can_tick(cpu2, bus2) {
                let (cpu3, bus3, _) = tick_spec(cpu2, bus2);
                (Nes { cpu: cpu3, bus: bus3, phase: next, ..self }, None)
            } else {
                (
                    Nes { cpu: cpu2, bus: bus2.spec_after_read(cpu2.pc), ..self },
                    Some(bus2.spec_read_value(cpu2.pc)),
                )
            }
        }
    }

    /// One step of the scheduler: start a CPU cycle, run one PPU dot of it,
    /// or finish it. The state after, the event it reports, and the opcode
    /// if the CPU stopped.
    #[verifier::opaque]
    pub open spec fn spec_step(self) -> (Nes, Option<SchedulerEvent>, Option<u8>) {
        match self.phase {
            SchedulerPhase::ReadyForCpuCycle => {
                let (n, err) = self.spec_cycle_begun();
                (n, None, err)
            },
            SchedulerPhase::CompletingCpuCycle { ppu_ticks_remaining } => if ppu_ticks_remaining
                == 0 {
                (
                    Nes {
                        bus: self.bus.spec_cycle_finished(),
                        phase: SchedulerPhase::ReadyForCpuCycle,
                        ..self
                    },
                    Some(SchedulerEvent::CpuCycleComplete),
                    None,
                )
            } else {
                let (bus1, done) = self.bus.spec_ppu_ticked();
                (
                    Nes {
                        bus: bus1,
                        phase: SchedulerPhase::CompletingCpuCycle {
                            ppu_ticks_remaining: (ppu_ticks_remaining - 1) as u8,
                        },
                        at_frame_boundary: done || self.at_frame_boundary,
                        ..self
                    },
                    if done {
                        Some(SchedulerEvent::FrameBoundary)
                    } else {
                        None
                    },
                    None,
                )
            },
        }
    }

    /// Steps until one reports an event or the CPU stops.
    pub open spec fn spec_run_to_event(self) -> (Nes, Result<SchedulerEvent, u8>)
        decreases phase_rank(self.phase),
    {
        let (n, event, err) = self.spec_step();
        match err {
            Some(opcode) => (n, Err(opcode)),
            None => match event {
                Some(e) => (n, Ok(e)),
                None => if phase_rank(n.phase) < phase_rank(self.phase) {
                    n.spec_run_to_event()
                } else {
                    (n, Ok(SchedulerEvent::CpuCycleComplete))
                },
            },
        }
    }

    /// What `advance_scheduler` does: clear the frame-boundary mark, then step
    /// to the next event.
    pub open spec fn spec_advance(self) -> (Nes, Result<SchedulerEvent, u8>) {
        Nes { at_frame_boundary: false, ..self }.spec_run_to_event()
    }

    /// What `tick` does: advance through frame boundaries to the end of the
    /// CPU cycle; `seen` records whether a frame ended on the way.
    pub open spec fn spec_tick_from(self, seen: bool) -> (Nes, Result<bool, u8>)
        decreases phase_rank(self.phase),
    {
        let (n, r) = self.spec_advance();
        match r {
            Err(opcode) => (n, Err(opcode)),
            Ok(SchedulerEvent::CpuCycleComplete) => (n, Ok(seen)),
            Ok(SchedulerEvent::FrameBoundary) => if phase_rank(n.phase) < phase_rank(self.phase) {
                n.spec_tick_from(true)
            } else {
                (n, Ok(true))
            },
        }
    }

    /// Advances until a frame ends (or the CPU stops).
    pub open spec fn spec_run_until_frame(self) -> (Nes, Result<(), u8>)
        decreases self.frame_measure(),
    {
        let (n, r) = self.spec_advance();
        match r {
            Err(opcode) => (n, Err(opcode)),
            Ok(SchedulerEvent::FrameBoundary) => (n, Ok(())),
            Ok(SchedulerEvent::CpuCycleComplete) => if n.frame_measure() < self.frame_measure() {
                n.spec_run_until_frame()
            } else {
                (n, Ok(()))
            },
        }
    }
}

/// The PPU's dot, as a pair of line and dot within the line.
pub open spec fn ppu_dot(b: NesCpuBus) -> (usize, usize) {
    (b.ppu.scanline, b.ppu.cycle)
}

/// CPU reads and writes leave the PPU on the same dot.
proof fn lemma_bus_access_keeps_dot(b: NesCpuBus, a: u16, v: u8)
    ensures
        ppu_dot(b.spec_after_read(a)) == ppu_dot(b),
        ppu_dot(b.spec_after_write(a, v)) == ppu_dot(b),
{
}

/// Starting a CPU cycle leaves the PPU on the same dot.
proof fn lemma_cycle_begun_keeps_dot(n: Nes)
    ensures
        ppu_dot(n.spec_cycle_begun().0.bus) == ppu_dot(n.bus),
        n.spec_cycle_begun().1 is None ==> n.spec_cycle_begun().0.phase
            == (SchedulerPhase::CompletingCpuCycle { ppu_ticks_remaining: 3 }),
{
    reveal(Nes::spec_cycle_begun);
    let dot = ppu_dot(n.bus);
    let keep = |b: NesCpuBus| ppu_dot(b) == dot;
    assert forall|b: NesCpuBus, a: u16| keep(b) implies keep(#[trigger] b.after_read(a)) by {
        lemma_bus_access_keeps_dot(b, a, 0);
    }
    assert forall|b: NesCpuBus, a: u16, v: u8| keep(b) implies keep(#[trigger] b.after_write(a, v)) by {
        lemma_bus_access_keeps_dot(b, a, v);
    }
    let (bus1, dma_owns) = if n.bus.spec_dma_running() {
        (n.bus, true)
    } else {
        n.bus.spec_halt_attempted(cycle_kind(n.cpu))
    };
    assert(ppu_dot(bus1) == dot);
    if dma_owns {
        let j = bus1.spec_dmc_joined();
        let (b2, used) = j.spec_dmc_dma_ticked();
        if let Some(dma) = j.dmc_dma {
            lemma_bus_access_keeps_dot(NesCpuBus { dmc_dma: None, ..j }, dma.addr, 0);
        }
        assert(ppu_dot(b2) == dot);
        if let Some(dma) = b2.oam_dma {
            if let crate::nes_bus::OamDmaStep::Read { offset } = dma.step {
                let addr = ((dma.page as u16) << 8u16) | offset as u16;
                lemma_bus_access_keeps_dot(b2, addr, 0);
            }
        }
    } else {
        let (cpu2, bus2) = if n.cpu.state is Fetch {
            interrupt_taken(n.cpu, bus1)
        } else {
            (n.cpu, bus1)
        };
        assert(keep(bus2));
        lemma_tick_keeps(cpu2, bus2, keep);
        lemma_bus_access_keeps_dot(bus2, cpu2.pc, 0);
    }
}

/// The PPU's dot stays within the frame.
pub open spec fn dot_in_frame(b: NesCpuBus) -> bool {
    b.ppu.cycle <= 340 && b.ppu.scanline <= 261
}

/// The phase is one the scheduler can be in.
pub open spec fn phase_ok(phase: SchedulerPhase) -> bool {
    phase is ReadyForCpuCycle || phase_rank(phase) <= 3
}

/// A scheduler step that reports no event keeps the dot in the frame and
/// lowers the frame measure; one that finishes a CPU cycle does too.
proof fn lemma_step_lowers_measure(n: Nes)
    requires
        dot_in_frame(n.bus),
        phase_ok(n.phase),
    ensures
        ({
            let (m, event, err) = n.spec_step();
            &&& err is None ==> dot_in_frame(m.bus) && phase_ok(m.phase)
            &&& err is None && event is None ==> m.frame_measure() < n.frame_measure()
                && phase_rank(m.phase) < phase_rank(n.phase)
            &&& err is None && event == Some(SchedulerEvent::CpuCycleComplete) ==> m.frame_measure()
                < n.frame_measure() && m.phase is ReadyForCpuCycle
            &&& event == Some(SchedulerEvent::FrameBoundary) ==> phase_rank(m.phase) < phase_rank(n.phase)
                && m.at_frame_boundary && m.bus.ppu.scanline == 0 && m.bus.ppu.cycle == 0
        }),
{
    reveal(Nes::spec_step);
    match n.phase {
        SchedulerPhase::ReadyForCpuCycle => {
            lemma_cycle_begun_keeps_dot(n);
        },
        SchedulerPhase::CompletingCpuCycle { ppu_ticks_remaining } => {
            if ppu_ticks_remaining != 0 {
                lemma_tick_moves_one_dot(n.bus.ppu@, n.bus.cartridge);
            }
        },
    }
}

/// Stepping to an event keeps the dot in the frame; a finished CPU cycle
/// lowers the frame measure, and a frame boundary lowers the phase rank.
proof fn lemma_run_to_event(n: Nes)
    requires
        dot_in_frame(n.bus),
        phase_ok(n.phase),
    ensures
        ({
            let (m, r) = n.spec_run_to_event();
            &&& r is Ok ==> dot_in_frame(m.bus) && phase_ok(m.phase)
            &&& r == Ok::<SchedulerEvent, u8>(SchedulerEvent::CpuCycleComplete) ==> m.frame_measure()
                < n.frame_measure()
            &&& r == Ok::<SchedulerEvent, u8>(SchedulerEvent::FrameBoundary) ==> phase_rank(m.phase)
                < phase_rank(n.phase) && m.at_frame_boundary && m.bus.ppu.scanline == 0
                && m.bus.ppu.cycle == 0
        }),
    decreases phase_rank(n.phase),
{
    lemma_step_lowers_measure(n);
    let (m, event, err) = n.spec_step();
    if err is None && event is None {
        lemma_run_to_event(m);
    }
}

/// The library's error for an opcode the CPU stopped on.
pub open spec fn stopped<T>(r: Result<T, u8>) -> Result<T, NesError> {
    match r {
        Ok(v) => Ok(v),
        Err(opcode) => Err(NesError::UnimplementedOpcode(opcode)),
    }
}

impl Nes {
    /// Powers on with `cartridge` inserted at the default sample rate,
    /// 44100 Hz, and runs the reset sequence.
    pub fn new(cartridge: Cartridge) -> (nes: Self)
        requires
            cartridge.wf(),
        ensures
            nes.wf(),
            nes.phase is ReadyForCpuCycle,
            !nes.at_frame_boundary,
            nes.bus.cartridge == cartridge,
            nes.bus.ram@ == crate::bytes::zeros(0x0800),
            nes.bus.cycle_count == 0,
            nes.bus.oam_dma is None && nes.bus.dmc_dma is None,
            nes.bus.apu == crate::apu::Apu::new_spec(),
            nes.bus.ppu@.cycle == 0 && nes.bus.ppu@.scanline == 0,
            nes.bus.game_genie_codes@.len() == 0,
            nes.sample_rate_bits == DEFAULT_SAMPLE_RATE_BITS,
            nes.cpu == (Cpu {
                pc: crate::cpu::word(
                    nes.bus.spec_read_value(0xFFFD),
                    nes.bus.spec_read_value(0xFFFC),
                ),
                ..Cpu::new_spec()
            }),
    {
        Self::new_with_sample_rate_bits(cartridge, DEFAULT_SAMPLE_RATE_BITS)
    }

    /// Powers on with `cartridge` inserted, for audio at the sample rate whose
    /// `f64` bits are `sample_rate_bits`, and runs the reset sequence: the
    /// CPU starts at the address the cartridge holds at `$FFFC`/`$FFFD`.
    pub fn new_with_sample_rate_bits(cartridge: Cartridge, sample_rate_bits: u64) -> (nes: Self)
        requires
            cartridge.wf(),
        ensures
            nes.wf(),
            nes.phase is ReadyForCpuCycle,
            !nes.at_frame_boundary,
            nes.bus.cartridge == cartridge,
            nes.bus.ram@ == crate::bytes::zeros(0x0800),
            nes.bus.cycle_count == 0,
            nes.bus.oam_dma is None && nes.bus.dmc_dma is None,
            nes.bus.apu == crate::apu::Apu::new_spec(),
            nes.bus.ppu@.cycle == 0 && nes.bus.ppu@.scanline == 0,
            nes.bus.game_genie_codes@.len() == 0,
            nes.sample_rate_bits == sample_rate_bits,
            nes.cpu == (Cpu {
                pc: crate::cpu::word(
                    nes.bus.spec_read_value(0xFFFD),
                    nes.bus.spec_read_value(0xFFFC),
                ),
                ..Cpu::new_spec()
            }),
    {
        let mut cpu = Cpu::new();
        let mut bus = NesCpuBus::new(cartridge);
        cpu.reset(&mut bus);
        Nes { cpu, bus, phase: SchedulerPhase::ReadyForCpuCycle, at_frame_boundary: false, sample_rate_bits }
    }

    fn service_interrupt(&mut self)
        requires
            old(self).wf(),
            old(self).cpu.state is Fetch,
        ensures
            final(self).wf(),
            (final(self).cpu, final(self).bus) == interrupt_taken(old(self).cpu, old(self).bus),
            final(self).phase == old(self).phase,
            final(self).at_frame_boundary == old(self).at_frame_boundary,
            final(self).sample_rate_bits == old(self).sample_rate_bits,
    {
        proof {
            lemma_program_len(CpuProgram::Nmi);
            lemma_program_len(CpuProgram::Irq);
        }
        if self.bus.take_nmi() {
            self.cpu.start_nmi();
        } else if self.bus.irq_asserted() && !self.cpu.status.interrupt_disable {
            self.cpu.start_irq();
        }
    }

    fn begin_cpu_cycle(&mut self) -> (err: Option<u8>)
        requires
            old(self).wf(),
        ensures
            final(self).wf(),
            (*final(self), err) == old(self).spec_cycle_begun(),
    {
        proof {
            reveal(Nes::spec_cycle_begun);
        }
        let dma_owns_cycle = if self.bus.dma_running() {
            true
        } else {
            let kind = self.cpu.next_cycle_kind();
            self.bus.try_start_dma_halt(kind)
        };

        if dma_owns_cycle {
            self.bus.perform_dma_bus_action();
        } else {
            if self.cpu.can_start_interrupt() {
                self.service_interrupt();
            }
            match self.cpu.try_tick(&mut self.bus) {
                Ok(_) => {},
                Err(opcode) => {
                    return Some(opcode);
                },
            }
        }

        self.phase = SchedulerPhase::CompletingCpuCycle {
            ppu_ticks_remaining: PPU_TICKS_PER_CPU_CYCLE,
        };
        None
    }

    /// Runs the scheduler to its next event: the end of a CPU cycle (with its
    /// three PPU dots) or the end of a frame, which can fall within a cycle.
    pub fn advance_scheduler(&mut self) -> (r: Result<SchedulerEvent, NesError>)
        requires
            old(self).wf(),
        ensures
            final(self).wf(),
            (*final(self), r) == (old(self).spec_advance().0, stopped(old(self).spec_advance().1)),
    {
        self.at_frame_boundary = false;
        let ghost target = self.spec_run_to_event();
        loop
            invariant
                self.wf(),
                self.spec_run_to_event() == target,
                target == old(self).spec_advance(),
            decreases phase_rank(self.phase),
        {
            proof {
                lemma_step_lowers_measure(*self);
            }
            let (event, err) = self.scheduler_step();
            if let Some(opcode) = err {
                return Err(NesError::UnimplementedOpcode(opcode));
            }
            if let Some(e) = event {
                return Ok(e);
            }
        }
    }

    /// One step of the scheduler.
    fn scheduler_step(&mut self) -> (r: (Option<SchedulerEvent>, Option<u8>))
        requires
            old(self).wf(),
        ensures
            final(self).wf(),
            (*final(self), r.0, r.1) == old(self).spec_step(),
    {
        proof {
            reveal(Nes::spec_step);
        }
        match self.phase {
            SchedulerPhase::ReadyForCpuCycle => {
                let err = self.begin_cpu_cycle();
                (None, err)
            },
            SchedulerPhase::CompletingCpuCycle { ppu_ticks_remaining } => {
                if ppu_ticks_remaining == 0 {
                    self.bus.finish_cpu_cycle();
                    self.phase = SchedulerPhase::ReadyForCpuCycle;
                    return (Some(SchedulerEvent::CpuCycleComplete), None);
                }
                self.phase = SchedulerPhase::CompletingCpuCycle {
                    ppu_ticks_remaining: ppu_ticks_remaining - 1,
                };
                if self.bus.tick_ppu() {
                    self.at_frame_boundary = true;
                    (Some(SchedulerEvent::FrameBoundary), None)
                } else {
                    (None, None)
                }
            },
        }
    }

    /// Runs one CPU cycle to its end; returns whether a frame ended during it.
    pub fn tick(&mut self) -> (r: Result<bool, NesError>)
        requires
            old(self).wf(),
        ensures
            final(self).wf(),
            (*final(self), r) == (
                old(self).spec_tick_from(false).0,
                stopped(old(self).spec_tick_from(false).1),
            ),
    {
        let mut frame_complete = false;
        let ghost target = self.spec_tick_from(false);
        loop
            invariant
                self.wf(),
                self.spec_tick_from(frame_complete) == target,
                target == old(self).spec_tick_from(false),
            decreases phase_rank(self.phase),
        {
            proof {
                lemma_run_to_event(Nes { at_frame_boundary: false, ..*self });
            }
            match self.advance_scheduler() {
                Err(e) => {
                    return Err(e);
                },
                Ok(SchedulerEvent::FrameBoundary) => {
                    frame_complete = true;
                },
                Ok(SchedulerEvent::CpuCycleComplete) => {
                    return Ok(frame_complete);
                },
            }
        }
    }

    /// Holds `input` on the controllers and runs until the PPU ends a frame.
    pub fn run_frame(&mut self, input: InputFrame) -> (r: Result<(), NesError>)
        requires
            old(self).wf(),
        ensures
            final(self).wf(),
            ({
                let start = Nes {
                    bus: NesCpuBus {
                        input1: input.controller1,
                        input2: input.controller2,
                        ..old(self).bus
                    },
                    ..*old(self)
                };
                (*final(self), r) == (
                    start.spec_run_until_frame().0,
                    stopped(start.spec_run_until_frame().1),
                )
            }),
    {
        self.bus.set_controller1(input.controller1);
        self.bus.set_controller2(input.controller2);
        let ghost target = self.spec_run_until_frame();
        let ghost start = *self;
        loop
            invariant
                self.wf(),
                self.spec_run_until_frame() == target,
                target == start.spec_run_until_frame(),
                start == (Nes {
                    bus: NesCpuBus {
                        input1: input.controller1,
                        input2: input.controller2,
                        ..old(self).bus
                    },
                    ..*old(self)
                }),
            decreases self.frame_measure(),
        {
            proof {
                lemma_run_to_event(Nes { at_frame_boundary: false, ..*self });
            }
            match self.advance_scheduler() {
                Err(e) => {
                    return Err(e);
                },
                Ok(SchedulerEvent::FrameBoundary) => {
                    return Ok(());
                },
                Ok(SchedulerEvent::CpuCycleComplete) => {},
            }
        }
    }

    /// The picture the PPU has drawn so far.
    pub fn frame(&self) -> (f: &Frame)
        ensures
            *f == self.bus.ppu.frame,
    {
        self.bus.frame()
    }

    /// The console's 2 KiB of work RAM.
    pub fn system_ram(&self) -> (r: &[u8])
        ensures
            r@ == self.bus.ram@,
    {
        self.bus.system_ram()
    }

    /// The console's work RAM, for a frontend to inspect or change.
    pub fn system_ram_mut(&mut self) -> (r: &mut [u8])
        ensures
            r@ == old(self).bus.ram@,
            final(r)@ == final(self).bus.ram@,
            *final(self) == (Nes {
                bus: NesCpuBus { ram: final(self).bus.ram, ..old(self).bus },
                ..*old(self)
            }),
    {
        self.bus.system_ram_mut()
    }

    /// The battery-backed RAM, if any, for a frontend to inspect or change.
    pub fn save_ram_mut(&mut self) -> (r: Option<&mut [u8]>)
        requires
            old(self).wf(),
        ensures
            final(self).wf(),
            r is Some <==> old(self).bus.cartridge.spec_save_ram() is Some,
            r matches Some(bytes) ==> Some(bytes@) == old(self).bus.cartridge.spec_save_ram(),
            r matches Some(bytes) ==> Some(final(bytes)@) == final(self).bus.cartridge.spec_save_ram(),
            *final(self) == (Nes {
                bus: NesCpuBus { cartridge: final(self).bus.cartridge, ..old(self).bus },
                ..*old(self)
            }),
    {
        self.bus.save_ram_mut()
    }

    /// The work RAM and the cartridge's PRG RAM, for a frontend to read and change.
    pub fn ram_regions_mut(&mut self) -> (r: RamRegionsMut<'_>)
        requires
            old(self).wf(),
        ensures
            r.system@ == old(self).bus.ram@,
            final(r.system)@ == final(self).bus.ram@,
            r.prg is Some <==> old(self).bus.cartridge.board.spec_save_ram() is Some,
            r.prg matches Some(bytes) ==> Some(bytes@) == old(self).bus.cartridge.board.spec_save_ram(),
            r.prg matches Some(bytes) ==> Some(final(bytes)@)
                == final(self).bus.cartridge.board.spec_save_ram(),
            r.prg_is_battery_backed == old(self).bus.cartridge.has_battery,
            final(self).wf(),
            *final(self) == (Nes {
                bus: NesCpuBus {
                    ram: final(self).bus.ram,
                    cartridge: Cartridge {
                        board: final(self).bus.cartridge.board,
                        ..old(self).bus.cartridge
                    },
                    ..old(self).bus
                },
                ..*old(self)
            }),
    {
        let (system, prg, prg_is_battery_backed) = self.bus.ram_regions_mut();
        RamRegionsMut { system, prg, prg_is_battery_backed }
    }

    /// The cartridge's battery-backed RAM, if it has any.
    pub fn save_ram(&self) -> (r: Option<&[u8]>)
        ensures
            match r {
                Some(bytes) => self.bus.cartridge.spec_save_ram() == Some(bytes@),
                None => self.bus.cartridge.spec_save_ram() is None,
            },
    {
        self.bus.save_ram()
    }

    /// Replaces the battery-backed RAM with `data`.
    pub fn load_save_ram(&mut self, data: &[u8]) -> (r: Result<(), SaveRamError>)
        requires
            old(self).wf(),
        ensures
            final(self).wf(),
            final(self).cpu == old(self).cpu,
            final(self).phase == old(self).phase,
            final(self).bus.ram == old(self).bus.ram,
            Cartridge::load_save_ram_post(old(self).bus.cartridge, final(self).bus.cartridge, data@, r),
    {
        self.bus.load_save_ram(data)
    }

    /// Makes `codes` the active Game Genie codes.
    pub fn set_game_genie_codes(&mut self, codes: Vec<GameGenieCode>)
        ensures
            *final(self) == (Nes {
                bus: NesCpuBus { game_genie_codes: codes, ..old(self).bus },
                ..*old(self)
            }),
    {
        self.bus.set_game_genie_codes(codes);
    }
}

/// Running until a frame ends stops exactly on the frame boundary: the PPU
/// stands on the first dot of the next frame, and the machine is at a frame
/// boundary (where a checkpoint can be taken).
pub proof fn lemma_run_until_frame_stops_on_boundary(n: Nes)
    requires
        dot_in_frame(n.bus),
        phase_ok(n.phase),
    ensures
        n.spec_run_until_frame().1 is Ok ==> {
            let m = n.spec_run_until_frame().0;
            &&& m.at_frame_boundary
            &&& m.bus.ppu.scanline == 0
            &&& m.bus.ppu.cycle == 0
        },
    decreases n.frame_measure(),
{
    let start = Nes { at_frame_boundary: false, ..n };
    lemma_run_to_event(start);
    let (m, r) = n.spec_advance();
    if r == Ok::<SchedulerEvent, u8>(SchedulerEvent::CpuCycleComplete) {
        lemma_run_until_frame_stops_on_boundary(m);
    }
}

/// What a frame checkpoint keeps: the CPU, the bus's running state and the
/// scheduler phase.
#[derive(Clone, Copy, PartialEq, Eq)]
pub struct MachineState {
    pub cpu: Cpu,
    pub bus: NesCpuBusState,
    pub phase: SchedulerPhase,
}

impl MachineState {
    pub open spec fn wf(self) -> bool {
        &&& self.cpu.wf()
        &&& self.bus.wf()
        &&& phase_ok(self.phase)
    }
}

/// The machine a checkpoint belongs to: the cartridge image it runs and the
/// bits of its audio sample rate.
#[derive(Clone, Copy, Debug, PartialEq, Eq)]
pub struct MachineCompatibility {
    pub cartridge: CartridgeId,
    pub sample_rate_bits: u64,
}

/// Why a frame checkpoint could not be taken or put back.
#[derive(Debug, Clone, Copy, PartialEq, Eq, Structural)]
pub enum FrameCheckpointError {
    NotAtFrameBoundary,
    IncompatibleMachine,
}

/// The machine's state at a frame boundary, with the cartridge it belongs to.
pub struct FrameCheckpoint {
    compatibility: MachineCompatibility,
    state: MachineState,
}

impl FrameCheckpoint {
    /// A checkpoint holds a state the machine's operations accept.
    #[verifier::type_invariant]
    spec fn inv(self) -> bool {
        self.state.wf()
    }

    pub closed spec fn spec_compatibility(self) -> MachineCompatibility {
        self.compatibility
    }

    pub closed spec fn spec_machine_state(self) -> MachineState {
        self.state
    }

    /// A checkpoint of `state` for a machine running the cartridge that
    /// `compatibility` names.
    pub(crate) fn from_parts(compatibility: MachineCompatibility, state: MachineState) -> (c: FrameCheckpoint)
        requires
            state.wf(),
        ensures
            c.spec_compatibility() == compatibility,
            c.spec_machine_state() == state,
    {
        FrameCheckpoint { compatibility, state }
    }

    pub fn compatibility(&self) -> (c: MachineCompatibility)
        ensures
            c == self.spec_compatibility(),
    {
        self.compatibility
    }

    pub fn state(&self) -> (s: &MachineState)
        ensures
            *s == self.spec_machine_state(),
    {
        &self.state
    }
}

impl Nes {
    pub open spec fn spec_machine_state(self) -> MachineState {
        MachineState { cpu: self.cpu, bus: self.bus.spec_state(), phase: self.phase }
    }

    /// The machine after a checkpoint's state is put back: the cartridge's
    /// ROM and the Game Genie codes stay, the frame is blank, and the machine
    /// stands at a frame boundary.
    pub open spec fn with_machine_state(self, s: MachineState) -> Nes {
        Nes { cpu: s.cpu, bus: self.bus.with_state(s.bus), phase: s.phase, at_frame_boundary: true, ..self }
    }

    /// The state at the frame boundary the machine stands on; there is none
    /// between boundaries.
    pub fn capture_frame_checkpoint(&self) -> (r: Result<FrameCheckpoint, FrameCheckpointError>)
        requires
            self.wf(),
        ensures
            match r {
                Ok(checkpoint) => self.at_frame_boundary && checkpoint.spec_machine_state()
                    == self.spec_machine_state() && checkpoint.spec_compatibility()
                    == (MachineCompatibility {
                        cartridge: self.bus.cartridge.id,
                        sample_rate_bits: self.sample_rate_bits,
                    }),
                Err(e) => !self.at_frame_boundary && e == FrameCheckpointError::NotAtFrameBoundary,
            },
    {
        if !self.at_frame_boundary {
            return Err(FrameCheckpointError::NotAtFrameBoundary);
        }
        Ok(
            FrameCheckpoint {
                compatibility: MachineCompatibility {
                    cartridge: self.bus.cartridge.id,
                    sample_rate_bits: self.sample_rate_bits,
                },
                state: MachineState { cpu: self.cpu, bus: self.bus.state(), phase: self.phase },
            },
        )
    }

    /// Puts back a checkpoint taken from a machine running the same cartridge
    /// image; any other checkpoint is refused and the machine left as it was.
    pub fn restore_frame_checkpoint(&mut self, checkpoint: &FrameCheckpoint) -> (r: Result<
        (),
        FrameCheckpointError,
    >)
        requires
            old(self).wf(),
        ensures
            final(self).wf(),
            r is Ok <==> (checkpoint.spec_compatibility().cartridge.0@ == old(
                self,
            ).bus.cartridge.id.0@ && checkpoint.spec_compatibility().sample_rate_bits == old(
                self,
            ).sample_rate_bits && old(self).bus.cartridge.board.spec_fits(
                checkpoint.spec_machine_state().bus.board,
            )),
            r is Ok ==> *final(self) == old(self).with_machine_state(checkpoint.spec_machine_state()),
            r is Err ==> *final(self) == *old(self) && r == Err::<(), FrameCheckpointError>(
                FrameCheckpointError::IncompatibleMachine,
            ),
    {
        proof {
            use_type_invariant(checkpoint);
        }
        let compatibility = checkpoint.compatibility();
        let state = checkpoint.state();
        if !compatibility.cartridge.same_as(&self.bus.cartridge.id)
            || compatibility.sample_rate_bits != self.sample_rate_bits || !self.bus.state_fits(
            &state.bus,
        ) {
            return Err(FrameCheckpointError::IncompatibleMachine);
        }
        self.cpu = state.cpu;
        self.bus.restore_state(state.bus);
        self.phase = state.phase;
        self.at_frame_boundary = true;
        Ok(())
    }
}

/// Restoring a checkpoint and taking one again gives back the state that was
/// restored.
pub proof fn lemma_checkpoint_round_trip(n: Nes, from: Nes)
    requires
        n.bus.cartridge.board.spec_fits(from.spec_machine_state().bus.board),
    ensures
        n.with_machine_state(from.spec_machine_state()).spec_machine_state() == from.spec_machine_state(),
{
    n.bus.cartridge.board.lemma_state_round_trip(from.spec_machine_state().bus.board);
}

/// A checkpoint taken from a machine can always be put back into it: its
/// compatibility is the machine's own and its board state fits the board.
pub proof fn lemma_own_checkpoint_restorable(n: Nes)
    requires
        n.wf(),
    ensures
        n.bus.cartridge.board.spec_fits(n.spec_machine_state().bus.board),
{
    n.bus.cartridge.board.lemma_own_state_fits();
}

} // verus!
