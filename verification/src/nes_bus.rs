use vstd::prelude::*;

use crate::apu::dmc::{sample_loaded, Dmc, DmcDmaKind, DmcDmaRequest};
use crate::apu::{apu_ticked, register_written, status_byte, Apu};
use crate::bus::Bus;
use crate::cartridge::Cartridge;
use crate::cheat::GameGenieCode;
use crate::controller::{shift_after_reads, ControllerButtons, ControllerPort};
use crate::cpu::CpuCycleKind;
use crate::frame::{blank_frame, Frame};
use crate::mapper::{Board, BoardState, SaveRamError};
use crate::ppu::{
    cpu_read_view, cpu_write_view, lemma_view_determines, tick_view, write_oam_data_view,
    Control, Mask, Ppu, PpuView, SpriteSlot, Status,
};

verus! {

/// Which half of the two-cycle DMA rhythm a CPU cycle falls on.
#[derive(Clone, Copy, Debug, PartialEq, Eq, Structural)]
pub enum DmaCycle {
    Get,
    Put,
}

impl DmaCycle {
    pub open spec fn spec_next(self) -> DmaCycle {
        match self {
            DmaCycle::Get => DmaCycle::Put,
            DmaCycle::Put => DmaCycle::Get,
        }
    }

    pub fn next(self) -> (n: Self)
        ensures
            n == self.spec_next(),
    {
        match self {
            DmaCycle::Get => DmaCycle::Put,
            DmaCycle::Put => DmaCycle::Get,
        }
    }
}

/// A sprite DMA copying page `page` into OAM.
#[derive(Clone, Copy, Debug, PartialEq, Eq, Structural)]
pub struct OamDma {
    pub page: u8,
    pub step: OamDmaStep,
}

/// The next bus action of a sprite DMA.
#[derive(Clone, Copy, Debug, PartialEq, Eq, Structural)]
pub enum OamDmaStep {
    PendingHalt,
    Halt,
    Read { offset: u8 },
    Write { offset: u8, value: u8 },
}

impl OamDma {
    pub open spec fn spec_is_running(self) -> bool {
        !(self.step is PendingHalt)
    }

    pub fn is_running(&self) -> (b: bool)
        ensures
            b == self.spec_is_running(),
    {
        match self.step {
            OamDmaStep::PendingHalt => false,
            _ => true,
        }
    }
}

/// A sample fetch for the delta modulation channel from `addr`.
#[derive(Clone, Copy, Debug, PartialEq, Eq, Structural)]
pub struct DmcDma {
    pub addr: u16,
    pub step: DmcDmaStep,
}

/// Cycles left before a load fetch starts waiting for its halt phase.
#[derive(Clone, Copy, Debug, PartialEq, Eq, Structural)]
pub enum DmcLoadDelay {
    One,
    Two,
    Three,
}

/// Where a sample fetch stands.
#[derive(Clone, Copy, Debug, PartialEq, Eq, Structural)]
pub enum DmcDmaStep {
    LoadDelay(DmcLoadDelay),
    WaitForHaltPhase(DmaCycle),
    AttemptingHalt,
    Halt,
    Dummy,
    Get,
}

impl DmcDma {
    pub open spec fn spec_is_running(self) -> bool {
        self.step is Halt || self.step is Dummy || self.step is Get
    }

    pub fn is_running(&self) -> (b: bool)
        ensures
            b == self.spec_is_running(),
    {
        match self.step {
            DmcDmaStep::Halt | DmcDmaStep::Dummy | DmcDmaStep::Get => true,
            _ => false,
        }
    }
}

/// The byte a read of `addr` sees through the Game Genie codes: the first code
/// that applies decides, else the ROM byte `original`.
pub open spec fn genie_value(codes: Seq<GameGenieCode>, addr: u16, original: u8) -> u8
    decreases codes.len(),
{
    if codes.len() == 0 {
        original
    } else {
        match codes[0].spec_apply(addr, original) {
            Some(v) => v,
            None => genie_value(codes.drop_first(), addr, original),
        }
    }
}

/// A controller port after a read, and the bit the read returned.
pub open spec fn port_read(p: ControllerPort, buttons: ControllerButtons) -> (ControllerPort, u8) {
    if p.strobe {
        (p, buttons.0 & 1)
    } else {
        (ControllerPort { shift: shift_after_reads(p.shift, 1), strobe: false }, p.shift & 1)
    }
}

/// A controller port after a `$4016` write of `value`.
pub open spec fn port_strobed(p: ControllerPort, value: u8, buttons: ControllerButtons) -> ControllerPort {
    ControllerPort {
        strobe: value & 1 != 0,
        shift: if p.strobe || value & 1 != 0 {
            buttons.0
        } else {
            p.shift
        },
    }
}

/// The PPU whose view is `v` (registers from its values, memories from its sequences).
pub open spec fn ppu_of(v: PpuView) -> Ppu {
    Ppu {
        ctrl: Control(v.ctrl),
        mask: Mask(v.mask),
        status: Status(v.status),
        oam_addr: v.oam_addr,
        oam: choose|a: [u8; 0x100]| a@ == v.oam,
        read_buffer: v.read_buffer,
        v: v.v,
        t: v.t,
        x: v.x,
        w: v.w,
        vram: choose|a: [u8; 0x1000]| a@ == v.vram,
        palette: choose|a: [u8; 0x20]| a@ == v.palette,
        cycle: v.cycle,
        scanline: v.scanline,
        nmi_pending: v.nmi_pending,
        bg: v.bg,
        sprites: choose|a: [Option<SpriteSlot>; 8]| a@ == v.sprites,
        odd_frame: v.odd_frame,
        frame: Frame { pixels: choose|a: [u8; 184320]| a@ == v.frame },
    }
}

/// The cartridge after a CPU write at `addr` on CPU cycle `cycle`.
pub open spec fn cart_cpu_written(c: Cartridge, addr: u16, value: u8, cycle: u64) -> Cartridge {
    choose|d: Cartridge|
        d.has_battery == c.has_battery && d.id == c.id && Board::cpu_write_post(
            c.board,
            d.board,
            addr,
            value,
            cycle,
        )
}

/// The cartridge after the PPU writes `value` to its bus at `addr`.
pub open spec fn cart_ppu_written(c: Cartridge, addr: u16, value: u8) -> Cartridge {
    choose|d: Cartridge|
        d.has_battery == c.has_battery && d.id == c.id && Board::ppu_write_post(
            c.board,
            d.board,
            addr,
            value,
        )
}

proof fn lemma_ppu_of(q: Ppu, v: PpuView)
    requires
        q@ == v,
    ensures
        ppu_of(v) == q,
{
    let c = ppu_of(v);
    assert(c.oam@ == v.oam);
    assert(c.vram@ == v.vram);
    assert(c.palette@ == v.palette);
    assert(c.sprites@ == v.sprites);
    assert(c.frame.pixels@ == v.frame);
    lemma_view_determines(c, q);
}

proof fn lemma_cart_cpu_written(c: Cartridge, d: Cartridge, addr: u16, value: u8, cycle: u64)
    requires
        d.has_battery == c.has_battery,
        d.id == c.id,
        Board::cpu_write_post(c.board, d.board, addr, value, cycle),
    ensures
        cart_cpu_written(c, addr, value, cycle) == d,
{
    let e = cart_cpu_written(c, addr, value, cycle);
    assert(e.has_battery == c.has_battery && e.id == c.id && Board::cpu_write_post(
        c.board,
        e.board,
        addr,
        value,
        cycle,
    ));
    Board::lemma_cpu_write_post_unique(c.board, d.board, e.board, addr, value, cycle);
}

proof fn lemma_cart_ppu_written(c: Cartridge, d: Cartridge, addr: u16, value: u8)
    requires
        d.has_battery == c.has_battery,
        d.id == c.id,
        Board::ppu_write_post(c.board, d.board, addr, value),
    ensures
        cart_ppu_written(c, addr, value) == d,
{
    let e = cart_ppu_written(c, addr, value);
    assert(e.has_battery == c.has_battery && e.id == c.id && Board::ppu_write_post(
        c.board,
        e.board,
        addr,
        value,
    ));
    Board::lemma_ppu_write_post_unique(c.board, d.board, e.board, addr, value);
}

/// The console's CPU address space: 2 KiB of RAM mirrored to `$1FFF`, the PPU
/// registers mirrored to `$3FFF`, the APU and controller ports, sprite DMA at
/// `$4014`, and the cartridge from `$4020`; plus the two DMA engines that take
/// the bus from the CPU.
pub struct NesCpuBus {
    pub ram: [u8; 0x0800],
    pub cartridge: Cartridge,
    pub cycle_count: u64,
    pub ppu: Ppu,
    pub dma_cycle: DmaCycle,
    pub oam_dma: Option<OamDma>,
    pub dmc_dma: Option<DmcDma>,
    pub port1: ControllerPort,
    pub port2: ControllerPort,
    pub input1: ControllerButtons,
    pub input2: ControllerButtons,
    pub apu: Apu,
    pub game_genie_codes: Vec<GameGenieCode>,
}

impl NesCpuBus {
    /// The components are each in a state their own operations accept.
    pub open spec fn wf(self) -> bool {
        &&& self.cartridge.wf()
        &&& self.ppu.wf()
        &&& self.apu.wf()
    }

    /// RAM repeats every 2 KiB up to `$1FFF`.
    pub open spec fn ram_index(addr: u16) -> int {
        (addr % 0x0800) as int
    }

    /// The byte a CPU read of `addr` returns.
    pub open spec fn spec_read_value(self, addr: u16) -> u8 {
        if addr <= 0x1FFF {
            self.ram@[Self::ram_index(addr)]
        } else if addr <= 0x3FFF {
            cpu_read_view(self.ppu@, self.cartridge, addr).1
        } else if addr == 0x4015 {
            status_byte(self.apu)
        } else if addr == 0x4016 {
            0x40 | port_read(self.port1, self.input1).1
        } else if addr == 0x4017 {
            0x40 | port_read(self.port2, self.input2).1
        } else if addr <= 0x401F {
            0
        } else {
            let original = match self.cartridge.board.spec_cpu_read(addr) {
                Some(v) => v,
                None => 0,
            };
            if addr >= 0x8000 {
                genie_value(self.game_genie_codes@, addr, original)
            } else {
                original
            }
        }
    }

    /// The bus after a CPU read of `addr`.
    pub open spec fn spec_after_read(self, addr: u16) -> Self {
        if 0x2000 <= addr <= 0x3FFF {
            NesCpuBus {
                ppu: ppu_of(cpu_read_view(self.ppu@, self.cartridge, addr).0),
                ..self
            }
        } else if addr == 0x4015 {
            NesCpuBus { apu: Apu { frame_interrupt_flag: false, ..self.apu }, ..self }
        } else if addr == 0x4016 {
            NesCpuBus { port1: port_read(self.port1, self.input1).0, ..self }
        } else if addr == 0x4017 {
            NesCpuBus { port2: port_read(self.port2, self.input2).0, ..self }
        } else {
            self
        }
    }

    /// The bus after a CPU write of `value` to `addr`.
    pub open spec fn spec_after_write(self, addr: u16, value: u8) -> Self {
        if addr <= 0x1FFF {
            NesCpuBus {
                ram: vstd::array::spec_array_update(self.ram, Self::ram_index(addr), value),
                ..self
            }
        } else if addr <= 0x3FFF {
            let a = (self.ppu@.v % 0x4000) as u16;
            NesCpuBus {
                ppu: ppu_of(cpu_write_view(self.ppu@, self.cartridge, addr, value)),
                cartridge: if addr % 8 == 7 && a < 0x2000 {
                    cart_ppu_written(self.cartridge, a, value)
                } else {
                    self.cartridge
                },
                ..self
            }
        } else if addr == 0x4014 {
            NesCpuBus { oam_dma: Some(OamDma { page: value, step: OamDmaStep::PendingHalt }), ..self }
        } else if addr == 0x4016 {
            NesCpuBus {
                port1: port_strobed(self.port1, value, self.input1),
                port2: port_strobed(self.port2, value, self.input2),
                ..self
            }
        } else if addr <= 0x4013 || addr == 0x4015 || addr == 0x4017 {
            NesCpuBus { apu: register_written(self.apu, addr, value), ..self }
        } else if addr <= 0x401F {
            self
        } else {
            NesCpuBus {
                cartridge: cart_cpu_written(self.cartridge, addr, value, self.cycle_count),
                ..self
            }
        }
    }

    /// A write to `$4014` starts a sprite DMA of page `page`, waiting for its halt.
    fn schedule_oam_dma(&mut self, page: u8)
        ensures
            *final(self) == (NesCpuBus {
                oam_dma: Some(OamDma { page, step: OamDmaStep::PendingHalt }),
                ..*old(self)
            }),
    {
        self.oam_dma = Some(OamDma { page, step: OamDmaStep::PendingHalt });
    }

    fn read_port(port: &mut ControllerPort, buttons: ControllerButtons) -> (value: u8)
        ensures
            (*final(port), value) == (port_read(*old(port), buttons).0, 0x40 | port_read(*old(port), buttons).1),
    {
        0x40 | port.read(buttons)
    }

    fn apply_game_genie(&self, address: u16, original: u8) -> (value: u8)
        ensures
            value == genie_value(self.game_genie_codes@, address, original),
    {
        let mut i: usize = 0;
        assert(self.game_genie_codes@.subrange(0, self.game_genie_codes@.len() as int)
            =~= self.game_genie_codes@);
        while i < self.game_genie_codes.len()
            invariant
                i <= self.game_genie_codes@.len(),
                genie_value(self.game_genie_codes@, address, original) == genie_value(
                    self.game_genie_codes@.subrange(i as int, self.game_genie_codes@.len() as int),
                    address,
                    original,
                ),
            decreases self.game_genie_codes@.len() - i,
        {
            let ghost rest = self.game_genie_codes@.subrange(i as int, self.game_genie_codes@.len() as int);
            assert(rest.drop_first() =~= self.game_genie_codes@.subrange(
                i as int + 1,
                self.game_genie_codes@.len() as int,
            ));
            if let Some(v) = self.game_genie_codes[i].apply(address, original) {
                return v;
            }
            i += 1;
        }
        original
    }

    /// A CPU-side read that does not itself advance the DMA engines.
    fn read_without_dma(&mut self, addr: u16) -> (value: u8)
        requires
            old(self).wf(),
        ensures
            final(self).wf(),
            value == old(self).spec_read_value(addr),
            *final(self) == old(self).spec_after_read(addr),
    {
        if addr <= 0x1FFF {
            self.ram[(addr % 0x0800) as usize]
        } else if addr <= 0x3FFF {
            let ghost pre = self.ppu;
            let v = self.ppu.cpu_read(addr, &mut self.cartridge);
            proof {
                lemma_ppu_of(self.ppu, cpu_read_view(pre@, self.cartridge, addr).0);
            }
            v
        } else if addr == 0x4015 {
            self.apu.read_status()
        } else if addr == 0x4016 {
            Self::read_port(&mut self.port1, self.input1)
        } else if addr == 0x4017 {
            Self::read_port(&mut self.port2, self.input2)
        } else if addr <= 0x401F {
            0
        } else {
            let original = match self.cartridge.cpu_read(addr) {
                Some(v) => v,
                None => 0,
            };
            if addr >= 0x8000 {
                self.apply_game_genie(addr, original)
            } else {
                original
            }
        }
    }

    fn write_bus(&mut self, addr: u16, value: u8)
        requires
            old(self).wf(),
        ensures
            final(self).wf(),
            *final(self) == old(self).spec_after_write(addr, value),
    {
        if addr <= 0x1FFF {
            self.ram[(addr % 0x0800) as usize] = value;
        } else if addr <= 0x3FFF {
            let ghost pre_ppu = self.ppu;
            let ghost pre_cart = self.cartridge;
            self.ppu.cpu_write(addr, value, &mut self.cartridge);
            proof {
                lemma_ppu_of(self.ppu, cpu_write_view(pre_ppu@, pre_cart, addr, value));
                let a = (pre_ppu@.v % 0x4000) as u16;
                if addr % 8 == 7 && a < 0x2000 {
                    lemma_cart_ppu_written(pre_cart, self.cartridge, a, value);
                }
            }
        } else if addr == 0x4014 {
            self.schedule_oam_dma(value);
        } else if addr == 0x4016 {
            self.port1.write_strobe(value, self.input1);
            self.port2.write_strobe(value, self.input2);
        } else if addr <= 0x4013 || addr == 0x4015 || addr == 0x4017 {
            self.apu.write_register(addr, value);
        } else if addr <= 0x401F {
        } else {
            let ghost pre_cart = self.cartridge;
            self.cartridge.cpu_write(addr, value, self.cycle_count);
            proof {
                lemma_cart_cpu_written(pre_cart, self.cartridge, addr, value, self.cycle_count);
            }
        }
    }
}

/// The sample fetch after one more cycle of waiting on DMA phase `phase`.
pub open spec fn dmc_waited(dma: Option<DmcDma>, phase: DmaCycle) -> Option<DmcDma> {
    match dma {
        None => None,
        Some(d) => Some(
            DmcDma {
                step: match d.step {
                    DmcDmaStep::LoadDelay(DmcLoadDelay::Three) => DmcDmaStep::LoadDelay(DmcLoadDelay::Two),
                    DmcDmaStep::LoadDelay(DmcLoadDelay::Two) => DmcDmaStep::LoadDelay(DmcLoadDelay::One),
                    DmcDmaStep::LoadDelay(DmcLoadDelay::One) => DmcDmaStep::WaitForHaltPhase(DmaCycle::Get),
                    DmcDmaStep::WaitForHaltPhase(p) => if p == phase {
                        DmcDmaStep::AttemptingHalt
                    } else {
                        d.step
                    },
                    _ => d.step,
                },
                ..d
            },
        ),
    }
}

/// A sample fetch attempting its halt gets it.
pub open spec fn dmc_started(dma: Option<DmcDma>) -> Option<DmcDma> {
    match dma {
        Some(d) => if d.step is AttemptingHalt {
            Some(DmcDma { step: DmcDmaStep::Halt, ..d })
        } else {
            dma
        },
        None => None,
    }
}

/// A sprite DMA waiting for its halt gets it.
pub open spec fn oam_halted(dma: Option<OamDma>) -> Option<OamDma> {
    match dma {
        Some(d) => if d.step is PendingHalt {
            Some(OamDma { step: OamDmaStep::Halt, ..d })
        } else {
            dma
        },
        None => None,
    }
}

pub open spec fn oam_dma_running(dma: Option<OamDma>) -> bool {
    dma matches Some(d) && d.spec_is_running()
}

pub open spec fn dmc_dma_running(dma: Option<DmcDma>) -> bool {
    dma matches Some(d) && d.spec_is_running()
}

/// The fetch a DMC request starts, as a function of the current DMA phase.
pub open spec fn dmc_scheduled(request: DmcDmaRequest, phase: DmaCycle) -> DmcDma {
    DmcDma {
        addr: request.addr,
        step: match request.kind {
            DmcDmaKind::Load => match phase {
                DmaCycle::Get => DmcDmaStep::LoadDelay(DmcLoadDelay::Three),
                DmaCycle::Put => DmcDmaStep::LoadDelay(DmcLoadDelay::Two),
            },
            DmcDmaKind::Reload => DmcDmaStep::WaitForHaltPhase(DmaCycle::Put),
        },
    }
}

impl NesCpuBus {
    /// Either DMA engine holds the bus this cycle.
    pub open spec fn spec_dma_running(self) -> bool {
        oam_dma_running(self.oam_dma) || dmc_dma_running(self.dmc_dma)
    }

    /// The bus after a CPU cycle of kind `kind` offers the DMA engines a halt,
    /// and whether one took it.
    pub open spec fn spec_halt_attempted(self, kind: CpuCycleKind) -> (Self, bool) {
        let b1 = NesCpuBus { dmc_dma: dmc_waited(self.dmc_dma, self.dma_cycle), ..self };
        let oam_wants = b1.oam_dma matches Some(d) && d.step is PendingHalt;
        let dmc_wants = b1.dmc_dma matches Some(d) && d.step is AttemptingHalt;
        if !oam_wants && !dmc_wants {
            (b1, false)
        } else if kind == CpuCycleKind::Write {
            (b1, false)
        } else {
            (NesCpuBus { oam_dma: oam_halted(b1.oam_dma), dmc_dma: dmc_started(b1.dmc_dma), ..b1 }, true)
        }
    }

    /// A sample fetch that finds the CPU already halted by sprite DMA joins in.
    pub open spec fn spec_dmc_joined(self) -> Self {
        if !oam_dma_running(self.oam_dma) || dmc_dma_running(self.dmc_dma) {
            self
        } else {
            NesCpuBus { dmc_dma: dmc_started(dmc_waited(self.dmc_dma, self.dma_cycle)), ..self }
        }
    }

    /// One cycle of the sample fetch, and whether it used the bus.
    pub open spec fn spec_dmc_dma_ticked(self) -> (Self, bool) {
        match self.dmc_dma {
            None => (self, false),
            Some(dma) => match dma.step {
                DmcDmaStep::Halt => (NesCpuBus { dmc_dma: Some(DmcDma { step: DmcDmaStep::Dummy, ..dma }), ..self }, false),
                DmcDmaStep::Dummy => (NesCpuBus { dmc_dma: Some(DmcDma { step: DmcDmaStep::Get, ..dma }), ..self }, false),
                DmcDmaStep::Get => if self.dma_cycle == DmaCycle::Get {
                    let value = self.spec_read_value(dma.addr);
                    let b1 = NesCpuBus { dmc_dma: None, ..self }.spec_after_read(dma.addr);
                    let apu = if b1.apu.dmc.bytes_remaining > 0 {
                        Apu { dmc: sample_loaded(b1.apu.dmc, value), ..b1.apu }
                    } else {
                        b1.apu
                    };
                    (NesCpuBus { apu: apu, ..b1 }, true)
                } else {
                    (self, false)
                },
                _ => (self, false),
            },
        }
    }

    /// One cycle of sprite DMA, which waits while the sample fetch holds the bus.
    pub open spec fn spec_oam_dma_ticked(self, dmc_used_bus: bool) -> Self {
        match self.oam_dma {
            None => self,
            Some(dma) => match dma.step {
                OamDmaStep::PendingHalt | OamDmaStep::Halt => NesCpuBus {
                    oam_dma: Some(OamDma { step: OamDmaStep::Read { offset: 0 }, ..dma }),
                    ..self
                },
                OamDmaStep::Read { offset } => if self.dma_cycle == DmaCycle::Get && !dmc_used_bus {
                    let addr = ((dma.page as u16) << 8u16) | offset as u16;
                    let value = self.spec_read_value(addr);
                    NesCpuBus {
                        oam_dma: Some(OamDma { step: OamDmaStep::Write { offset, value }, ..dma }),
                        ..self.spec_after_read(addr)
                    }
                } else {
                    self
                },
                OamDmaStep::Write { offset, value } => if self.dma_cycle == DmaCycle::Put {
                    NesCpuBus {
                        ppu: ppu_of(write_oam_data_view(self.ppu@, value)),
                        oam_dma: if offset == 0xFF {
                            None
                        } else {
                            Some(OamDma { step: OamDmaStep::Read { offset: (offset + 1) as u8 }, ..dma })
                        },
                        ..self
                    }
                } else {
                    self
                },
            },
        }
    }

    /// A cycle in which DMA owns the bus.
    pub open spec fn spec_dma_bus_action(self) -> Self {
        let b1 = self.spec_dmc_joined();
        let (b2, used) = b1.spec_dmc_dma_ticked();
        b2.spec_oam_dma_ticked(used)
    }

    /// The end of a CPU cycle: the APU advances, a sample request it raised
    /// is scheduled, the DMA phase flips and the cycle counter counts.
    pub open spec fn spec_cycle_finished(self) -> Self {
        let apu1 = apu_ticked(self.apu);
        let apu2 = Apu { dmc: Dmc { dma_request: None, ..apu1.dmc }, ..apu1 };
        let dmc_dma = match apu1.dmc.dma_request {
            Some(request) => if self.dmc_dma is Some {
                self.dmc_dma
            } else {
                Some(dmc_scheduled(request, self.dma_cycle))
            },
            None => self.dmc_dma,
        };
        NesCpuBus {
            apu: apu2,
            dmc_dma: dmc_dma,
            dma_cycle: self.dma_cycle.spec_next(),
            cycle_count: (if self.cycle_count == u64::MAX { 0 } else { self.cycle_count + 1 }) as u64,
            ..self
        }
    }

    /// One PPU dot: the bus after it and whether a frame ended.
    pub open spec fn spec_ppu_ticked(self) -> (Self, bool) {
        let (v, done) = tick_view(self.ppu@, self.cartridge);
        (NesCpuBus { ppu: ppu_of(v), ..self }, done)
    }

    /// Powers on with `cartridge` inserted: RAM clear, no DMA, the DMA phase on Get.
    pub fn new(cartridge: Cartridge) -> (bus: Self)
        requires
            cartridge.wf(),
        ensures
            bus.wf(),
            bus.cartridge == cartridge,
            bus.ram@ == crate::bytes::zeros(0x0800),
            bus.cycle_count == 0,
            bus.dma_cycle == DmaCycle::Get,
            bus.oam_dma is None,
            bus.dmc_dma is None,
            bus.port1 == (ControllerPort { shift: 0, strobe: false }),
            bus.port2 == (ControllerPort { shift: 0, strobe: false }),
            bus.input1 == ControllerButtons(0),
            bus.input2 == ControllerButtons(0),
            bus.apu == Apu::new_spec(),
            bus.ppu@.cycle == 0 && bus.ppu@.scanline == 0 && bus.ppu@.ctrl == 0 && bus.ppu@.mask == 0,
            bus.game_genie_codes@.len() == 0,
    {
        let ram = [0u8; 0x0800];
        assert(ram@ =~= crate::bytes::zeros(0x0800));
        NesCpuBus {
            ram,
            cartridge,
            cycle_count: 0,
            ppu: Ppu::new(),
            dma_cycle: DmaCycle::Get,
            oam_dma: None,
            dmc_dma: None,
            port1: ControllerPort::default(),
            port2: ControllerPort::default(),
            input1: ControllerButtons(0),
            input2: ControllerButtons(0),
            apu: Apu::new(),
            game_genie_codes: Vec::new(),
        }
    }

    /// Advance the PPU one dot; returns whether a frame ended.
    pub fn tick_ppu(&mut self) -> (frame_done: bool)
        requires
            old(self).wf(),
        ensures
            final(self).wf(),
            (*final(self), frame_done) == old(self).spec_ppu_ticked(),
    {
        let ghost pre = *self;
        let done = self.ppu.tick(&mut self.cartridge);
        proof {
            lemma_ppu_of(self.ppu, tick_view(pre.ppu@, pre.cartridge).0);
        }
        done
    }

    pub fn finish_cpu_cycle(&mut self)
        requires
            old(self).wf(),
        ensures
            final(self).wf(),
            *final(self) == old(self).spec_cycle_finished(),
    {
        self.apu.tick();
        if let Some(request) = self.apu.take_dmc_dma_request() {
            self.schedule_dmc_dma(request);
        }
        self.advance_dma_cycle(1);
        self.cycle_count = self.cycle_count.wrapping_add(1);
    }

    pub fn system_ram(&self) -> (r: &[u8])
        ensures
            r@ == self.ram@,
    {
        self.ram.as_slice()
    }

    pub fn system_ram_mut(&mut self) -> (r: &mut [u8])
        ensures
            r@ == old(self).ram@,
            final(r)@ == final(self).ram@,
            *final(self) == (NesCpuBus { ram: final(self).ram, ..*old(self) }),
    {
        &mut self.ram
    }

    pub fn save_ram_mut(&mut self) -> (r: Option<&mut [u8]>)
        requires
            old(self).wf(),
        ensures
            final(self).wf(),
            r is Some <==> old(self).cartridge.spec_save_ram() is Some,
            r matches Some(bytes) ==> Some(bytes@) == old(self).cartridge.spec_save_ram(),
            r matches Some(bytes) ==> Some(final(bytes)@) == final(self).cartridge.spec_save_ram(),
            *final(self) == (NesCpuBus { cartridge: final(self).cartridge, ..*old(self) }),
            final(self).cartridge.has_battery == old(self).cartridge.has_battery,
            final(self).cartridge.id == old(self).cartridge.id,
    {
        self.cartridge.save_ram_mut()
    }

    /// The work RAM, the cartridge's PRG RAM if it has any (battery backed
    /// or not), and whether that PRG RAM is battery backed.
    pub fn ram_regions_mut(&mut self) -> (r: (&mut [u8], Option<&mut [u8]>, bool))
        requires
            old(self).wf(),
        ensures
            r.0@ == old(self).ram@,
            final(r.0)@ == final(self).ram@,
            r.1 is Some <==> old(self).cartridge.board.spec_save_ram() is Some,
            r.1 matches Some(bytes) ==> Some(bytes@) == old(self).cartridge.board.spec_save_ram(),
            r.1 matches Some(bytes) ==> Some(final(bytes)@) == final(self).cartridge.board.spec_save_ram(),
            r.2 == old(self).cartridge.has_battery,
            final(self).wf(),
            *final(self) == (NesCpuBus {
                ram: final(self).ram,
                cartridge: final(self).cartridge,
                ..*old(self)
            }),
            final(self).cartridge == (Cartridge { board: final(self).cartridge.board, ..old(self).cartridge }),
    {
        let prg_is_battery_backed = self.cartridge.has_battery;
        let prg = self.cartridge.board.save_ram_mut();
        (&mut self.ram, prg, prg_is_battery_backed)
    }

    pub fn set_game_genie_codes(&mut self, codes: Vec<GameGenieCode>)
        ensures
            *final(self) == (NesCpuBus { game_genie_codes: codes, ..*old(self) }),
    {
        self.game_genie_codes = codes;
    }

    pub fn dma_running(&self) -> (b: bool)
        ensures
            b == self.spec_dma_running(),
    {
        let oam_running = match &self.oam_dma {
            Some(dma) => dma.is_running(),
            None => false,
        };
        let dmc_running = match &self.dmc_dma {
            Some(dma) => dma.is_running(),
            None => false,
        };
        oam_running || dmc_running
    }

    /// Offer the DMA engines a halt of the CPU on a cycle of kind `cpu_cycle`;
    /// a write cycle cannot be halted. Returns whether DMA takes the cycle.
    pub fn try_start_dma_halt(&mut self, cpu_cycle: CpuCycleKind) -> (halted: bool)
        ensures
            (*final(self), halted) == old(self).spec_halt_attempted(cpu_cycle),
    {
        self.advance_dmc_waiting();

        let oam_wants_halt = match &self.oam_dma {
            Some(dma) => dma.step == OamDmaStep::PendingHalt,
            None => false,
        };
        let dmc_wants_halt = match &self.dmc_dma {
            Some(dma) => dma.step == DmcDmaStep::AttemptingHalt,
            None => false,
        };

        if !oam_wants_halt && !dmc_wants_halt {
            return false;
        }

        if cpu_cycle == CpuCycleKind::Write {
            return false;
        }

        if let Some(oam) = self.oam_dma {
            if oam.step == OamDmaStep::PendingHalt {
                self.oam_dma = Some(OamDma { step: OamDmaStep::Halt, ..oam });
            }
        }

        self.start_dmc_if_attempting();
        true
    }

    fn advance_dmc_waiting(&mut self)
        ensures
            *final(self) == (NesCpuBus { dmc_dma: dmc_waited(old(self).dmc_dma, old(self).dma_cycle), ..*old(self) }),
    {
        let dma_cycle = self.dma_cycle;
        if let Some(dma) = self.dmc_dma {
            let step = match dma.step {
                DmcDmaStep::LoadDelay(DmcLoadDelay::Three) => DmcDmaStep::LoadDelay(DmcLoadDelay::Two),
                DmcDmaStep::LoadDelay(DmcLoadDelay::Two) => DmcDmaStep::LoadDelay(DmcLoadDelay::One),
                DmcDmaStep::LoadDelay(DmcLoadDelay::One) => DmcDmaStep::WaitForHaltPhase(DmaCycle::Get),
                DmcDmaStep::WaitForHaltPhase(phase) => if dma_cycle == phase {
                    DmcDmaStep::AttemptingHalt
                } else {
                    dma.step
                },
                step => step,
            };
            self.dmc_dma = Some(DmcDma { step, ..dma });
        }
    }

    fn start_dmc_if_attempting(&mut self)
        ensures
            *final(self) == (NesCpuBus { dmc_dma: dmc_started(old(self).dmc_dma), ..*old(self) }),
    {
        if let Some(dma) = self.dmc_dma {
            if dma.step == DmcDmaStep::AttemptingHalt {
                self.dmc_dma = Some(DmcDma { step: DmcDmaStep::Halt, ..dma });
            }
        }
    }

    /// The bus work of a cycle that DMA owns.
    pub fn perform_dma_bus_action(&mut self)
        requires
            old(self).wf(),
        ensures
            final(self).wf(),
            *final(self) == old(self).spec_dma_bus_action(),
    {
        self.maybe_start_dmc_dma_if_cpu_already_halted();
        let dmc_used_bus = self.tick_dmc_dma_cycle();
        self.tick_oam_dma_cycle(dmc_used_bus);
    }

    fn tick_dmc_dma_cycle(&mut self) -> (used_bus: bool)
        requires
            old(self).wf(),
        ensures
            final(self).wf(),
            (*final(self), used_bus) == old(self).spec_dmc_dma_ticked(),
    {
        let dma = match self.dmc_dma {
            Some(dma) => dma,
            None => {
                return false;
            },
        };
        match dma.step {
            DmcDmaStep::Halt => {
                self.dmc_dma = Some(DmcDma { step: DmcDmaStep::Dummy, ..dma });
                false
            },
            DmcDmaStep::Dummy => {
                self.dmc_dma = Some(DmcDma { step: DmcDmaStep::Get, ..dma });
                false
            },
            DmcDmaStep::Get => {
                if self.dma_cycle == DmaCycle::Get {
                    self.dmc_dma = None;
                    let value = self.read_without_dma(dma.addr);
                    if self.apu.dmc.bytes_remaining > 0 {
                        self.apu.finish_dmc_dma(value);
                    }
                    true
                } else {
                    false
                }
            },
            _ => false,
        }
    }

    fn tick_oam_dma_cycle(&mut self, dmc_used_bus: bool)
        requires
            old(self).wf(),
        ensures
            final(self).wf(),
            *final(self) == old(self).spec_oam_dma_ticked(dmc_used_bus),
    {
        let dma = match self.oam_dma {
            Some(dma) => dma,
            None => {
                return;
            },
        };
        match dma.step {
            OamDmaStep::PendingHalt | OamDmaStep::Halt => {
                self.oam_dma = Some(OamDma { step: OamDmaStep::Read { offset: 0 }, ..dma });
            },
            OamDmaStep::Read { offset } => {
                if self.dma_cycle == DmaCycle::Get && !dmc_used_bus {
                    let addr = ((dma.page as u16) << 8u16) | offset as u16;
                    let value = self.read_without_dma(addr);
                    self.oam_dma = Some(OamDma { step: OamDmaStep::Write { offset, value }, ..dma });
                }
            },
            OamDmaStep::Write { offset, value } => {
                if self.dma_cycle == DmaCycle::Put {
                    let ghost pre = self.ppu;
                    self.ppu.write_oam_dma_byte(value);
                    proof {
                        lemma_ppu_of(self.ppu, write_oam_data_view(pre@, value));
                    }
                    self.oam_dma = if offset == 0xFF {
                        None
                    } else {
                        Some(OamDma { step: OamDmaStep::Read { offset: offset + 1 }, ..dma })
                    };
                }
            },
        }
    }

    /// Whether the PPU raised an NMI since the last call; clears it.
    pub fn take_nmi(&mut self) -> (pending: bool)
        ensures
            pending == old(self).ppu@.nmi_pending,
            *final(self) == (NesCpuBus {
                ppu: ppu_of(PpuView { nmi_pending: false, ..old(self).ppu@ }),
                ..*old(self)
            }),
    {
        let ghost pre = self.ppu;
        let pending = self.ppu.take_nmi();
        proof {
            lemma_ppu_of(self.ppu, PpuView { nmi_pending: false, ..pre@ });
        }
        pending
    }

    /// The APU or the cartridge holds the IRQ line low.
    pub fn irq_asserted(&self) -> (b: bool)
        ensures
            b == (self.apu.frame_interrupt_flag || self.apu.dmc.interrupt_flag
                || self.cartridge.board.spec_irq_asserted()),
    {
        self.apu.irq_asserted() || self.cartridge.irq_asserted()
    }

    /// Schedule the sample fetch the DMC asked for, unless one is already under way.
    pub fn schedule_dmc_dma(&mut self, request: DmcDmaRequest)
        ensures
            *final(self) == (NesCpuBus {
                dmc_dma: if old(self).dmc_dma is Some {
                    old(self).dmc_dma
                } else {
                    Some(dmc_scheduled(request, old(self).dma_cycle))
                },
                ..*old(self)
            }),
    {
        if self.dmc_dma.is_some() {
            return;
        }
        let step = match request.kind {
            DmcDmaKind::Load => match self.dma_cycle {
                DmaCycle::Get => DmcDmaStep::LoadDelay(DmcLoadDelay::Three),
                DmaCycle::Put => DmcDmaStep::LoadDelay(DmcLoadDelay::Two),
            },
            DmcDmaKind::Reload => DmcDmaStep::WaitForHaltPhase(DmaCycle::Put),
        };
        self.dmc_dma = Some(DmcDma { addr: request.addr, step });
    }

    fn maybe_start_dmc_dma_if_cpu_already_halted(&mut self)
        ensures
            *final(self) == old(self).spec_dmc_joined(),
    {
        let oam_running = match &self.oam_dma {
            Some(dma) => dma.is_running(),
            None => false,
        };
        let dmc_running = match &self.dmc_dma {
            Some(dma) => dma.is_running(),
            None => false,
        };
        if !oam_running || dmc_running {
            return;
        }
        self.advance_dmc_waiting();
        self.start_dmc_if_attempting();
    }

    /// The DMA phase flips on every odd cycle count.
    fn advance_dma_cycle(&mut self, cycles: usize)
        ensures
            *final(self) == (NesCpuBus {
                dma_cycle: if cycles % 2 != 0 {
                    old(self).dma_cycle.spec_next()
                } else {
                    old(self).dma_cycle
                },
                ..*old(self)
            }),
    {
        if cycles % 2 != 0 {
            self.dma_cycle = self.dma_cycle.next();
        }
    }

    pub fn set_controller1(&mut self, buttons: ControllerButtons)
        ensures
            *final(self) == (NesCpuBus { input1: buttons, ..*old(self) }),
    {
        self.input1 = buttons;
    }

    pub fn set_controller2(&mut self, buttons: ControllerButtons)
        ensures
            *final(self) == (NesCpuBus { input2: buttons, ..*old(self) }),
    {
        self.input2 = buttons;
    }

    pub fn save_ram(&self) -> (r: Option<&[u8]>)
        ensures
            match r {
                Some(bytes) => self.cartridge.spec_save_ram() == Some(bytes@),
                None => self.cartridge.spec_save_ram() is None,
            },
    {
        self.cartridge.save_ram()
    }

    pub fn frame(&self) -> (f: &Frame)
        ensures
            *f == self.ppu.frame,
    {
        &self.ppu.frame
    }

    pub fn load_save_ram(&mut self, data: &[u8]) -> (r: Result<(), SaveRamError>)
        requires
            old(self).wf(),
        ensures
            final(self).wf(),
            *final(self) == (NesCpuBus { cartridge: final(self).cartridge, ..*old(self) }),
            Cartridge::load_save_ram_post(old(self).cartridge, final(self).cartridge, data@, r),
    {
        self.cartridge.load_save_ram(data)
    }
}

/// What the bus changes as the machine runs: RAM, the board's running
/// state, the PPU (its frame left out, as blank), the DMA engines, the
/// controller ports and held buttons, and the APU.
#[derive(Clone, Copy, PartialEq, Eq)]
pub struct NesCpuBusState {
    pub ram: [u8; 0x0800],
    pub board: BoardState,
    pub cycle_count: u64,
    pub ppu: Ppu,
    pub dma_cycle: DmaCycle,
    pub oam_dma: Option<OamDma>,
    pub dmc_dma: Option<DmcDma>,
    pub port1: ControllerPort,
    pub port2: ControllerPort,
    pub input1: ControllerButtons,
    pub input2: ControllerButtons,
    pub apu: Apu,
}

impl NesCpuBusState {
    /// The components are in states their operations accept.
    pub open spec fn wf(self) -> bool {
        self.ppu.wf() && self.apu.wf()
    }
}

impl NesCpuBus {
    pub open spec fn spec_state(self) -> NesCpuBusState {
        NesCpuBusState {
            ram: self.ram,
            board: self.cartridge.board.spec_state(),
            cycle_count: self.cycle_count,
            ppu: Ppu { frame: blank_frame(), ..self.ppu },
            dma_cycle: self.dma_cycle,
            oam_dma: self.oam_dma,
            dmc_dma: self.dmc_dma,
            port1: self.port1,
            port2: self.port2,
            input1: self.input1,
            input2: self.input2,
            apu: self.apu,
        }
    }

    /// The bus with its running state replaced by `s`; the cartridge's ROM
    /// and the Game Genie codes stay.
    pub open spec fn with_state(self, s: NesCpuBusState) -> NesCpuBus {
        NesCpuBus {
            ram: s.ram,
            cartridge: Cartridge { board: self.cartridge.board.with_state(s.board), ..self.cartridge },
            cycle_count: s.cycle_count,
            ppu: s.ppu,
            dma_cycle: s.dma_cycle,
            oam_dma: s.oam_dma,
            dmc_dma: s.dmc_dma,
            port1: s.port1,
            port2: s.port2,
            input1: s.input1,
            input2: s.input2,
            apu: s.apu,
            ..self
        }
    }

    pub fn state(&self) -> (s: NesCpuBusState)
        ensures
            s == self.spec_state(),
    {
        NesCpuBusState {
            ram: self.ram,
            board: self.cartridge.board_state(),
            cycle_count: self.cycle_count,
            ppu: Ppu { frame: Frame::new(), ..self.ppu },
            dma_cycle: self.dma_cycle,
            oam_dma: self.oam_dma,
            dmc_dma: self.dmc_dma,
            port1: self.port1,
            port2: self.port2,
            input1: self.input1,
            input2: self.input2,
            apu: self.apu,
        }
    }

    /// Whether `s` can be put back into this bus: its board state fits the board.
    pub fn state_fits(&self, s: &NesCpuBusState) -> (b: bool)
        requires
            self.wf(),
        ensures
            b == self.cartridge.board.spec_fits(s.board),
    {
        self.cartridge.board.fits(&s.board)
    }

    pub fn restore_state(&mut self, s: NesCpuBusState)
        requires
            old(self).cartridge.board.spec_fits(s.board),
            s.wf(),
        ensures
            *final(self) == old(self).with_state(s),
            final(self).wf(),
    {
        self.ram = s.ram;
        self.cartridge.restore_board_state(s.board);
        self.cycle_count = s.cycle_count;
        self.ppu = s.ppu;
        self.dma_cycle = s.dma_cycle;
        self.oam_dma = s.oam_dma;
        self.dmc_dma = s.dmc_dma;
        self.port1 = s.port1;
        self.port2 = s.port2;
        self.input1 = s.input1;
        self.input2 = s.input2;
        self.apu = s.apu;
    }
}

/// A byte written to work RAM reads back at every mirror of its address.
pub proof fn lemma_ram_mirrors(b: NesCpuBus, addr: u16, mirror: u16, value: u8)
    requires
        addr <= 0x1FFF,
        mirror <= 0x1FFF,
        addr % 0x0800 == mirror % 0x0800,
    ensures
        b.spec_after_write(addr, value).spec_read_value(mirror) == value,
{
}

impl Bus for NesCpuBus {
    open spec fn bus_wf(&self) -> bool {
        self.wf()
    }

    open spec fn read_value(&self, addr: u16) -> u8 {
        self.spec_read_value(addr)
    }

    open spec fn after_read(&self, addr: u16) -> Self {
        self.spec_after_read(addr)
    }

    open spec fn after_write(&self, addr: u16, value: u8) -> Self {
        self.spec_after_write(addr, value)
    }

    fn read(&mut self, addr: u16) -> (value: u8) {
        self.read_without_dma(addr)
    }

    fn write(&mut self, addr: u16, value: u8) {
        self.write_bus(addr, value)
    }
}

/// One CPU cycle in which DMA holds the bus: the DMA's work, then the end of
/// the cycle.
pub open spec fn dma_cycle_step(b: NesCpuBus) -> NesCpuBus {
    b.spec_dma_bus_action().spec_cycle_finished()
}

/// The bus after `k` such cycles.
pub open spec fn dma_cycles(b: NesCpuBus, k: nat) -> NesCpuBus
    decreases k,
{
    if k == 0 {
        b
    } else {
        dma_cycle_step(dma_cycles(b, (k - 1) as nat))
    }
}

/// The cycles a sprite DMA holds the CPU, its halt cycle included: 513 when
/// the halt falls on a put cycle, 514 when it falls on a get cycle and the
/// first read has to wait one cycle for a get.
pub open spec fn oam_dma_length(halt_phase: DmaCycle) -> nat {
    if halt_phase == DmaCycle::Put {
        513
    } else {
        514
    }
}

/// Where a sprite DMA of `page` that halted on phase `start` stands after
/// `k` of its cycles: no sample fetch can interfere, and the reads (on get
/// cycles) and writes (on put cycles) alternate through the page.
pub open spec fn oam_dma_progress(b: NesCpuBus, page: u8, start: DmaCycle, k: nat) -> bool {
    let wait: int = if start == DmaCycle::Put {
        0
    } else {
        1
    };
    let j = k - 1 - wait;
    &&& b.dmc_dma is None
    &&& b.apu.dmc.bytes_remaining == 0
    &&& b.apu.dmc.dma_request is None
    &&& if k == 0 {
        b.oam_dma == Some(OamDma { page, step: OamDmaStep::Halt }) && b.dma_cycle == start
    } else if j < 0 {
        b.oam_dma == Some(OamDma { page, step: OamDmaStep::Read { offset: 0 } }) && b.dma_cycle
            == DmaCycle::Put
    } else if k < oam_dma_length(start) {
        if j % 2 == 0 {
            b.oam_dma == Some(OamDma { page, step: OamDmaStep::Read { offset: (j / 2) as u8 } })
                && b.dma_cycle == DmaCycle::Get
        } else {
            &&& b.oam_dma matches Some(d) && d.page == page && (d.step matches OamDmaStep::Write {
                offset,
                ..
            } && offset == (j - 1) / 2)
            &&& b.dma_cycle == DmaCycle::Put
        }
    } else {
        b.oam_dma is None
    }
}

proof fn lemma_apu_tick_keeps_dmc_idle(a: Apu)
    requires
        a.dmc.bytes_remaining == 0,
        a.dmc.dma_request is None,
    ensures
        apu_ticked(a).dmc.bytes_remaining == 0,
        apu_ticked(a).dmc.dma_request is None,
{
}

proof fn lemma_oam_dma_step(b: NesCpuBus, page: u8, start: DmaCycle, k: nat)
    requires
        oam_dma_progress(b, page, start, k),
        k < oam_dma_length(start),
    ensures
        oam_dma_progress(dma_cycle_step(b), page, start, k + 1),
{
    assert(b.spec_dmc_joined() == b);
    let b1 = b.spec_oam_dma_ticked(false);
    assert(b.spec_dma_bus_action() == b1);
    assert(b1.dmc_dma is None);
    assert(b1.apu.dmc == b.apu.dmc);
    assert(b1.dma_cycle == b.dma_cycle);
    lemma_apu_tick_keeps_dmc_idle(b1.apu);
    let b2 = b1.spec_cycle_finished();
    assert(b2.oam_dma == b1.oam_dma);
    assert(b2.dmc_dma is None);
    assert(b2.dma_cycle == b1.dma_cycle.spec_next());
}

proof fn lemma_oam_dma_progress(b: NesCpuBus, page: u8, start: DmaCycle, k: nat)
    requires
        oam_dma_progress(b, page, start, 0),
        k <= oam_dma_length(start),
    ensures
        oam_dma_progress(dma_cycles(b, k), page, start, k),
    decreases k,
{
    if k > 0 {
        lemma_oam_dma_progress(b, page, start, (k - 1) as nat);
        lemma_oam_dma_step(dma_cycles(b, (k - 1) as nat), page, start, (k - 1) as nat);
    }
}

/// A sprite DMA with no sample fetch able to interfere (no fetch under way
/// and no sample bytes left to play) holds the CPU for exactly
/// `oam_dma_length` cycles from its halt cycle: 513 when the halt falls on a
/// put cycle, 514 when it falls on a get cycle. It is running after every
/// earlier cycle and done after the last.
pub proof fn lemma_oam_dma_length(b: NesCpuBus, page: u8, k: nat)
    requires
        b.oam_dma == Some(OamDma { page, step: OamDmaStep::Halt }),
        b.dmc_dma is None,
        b.apu.dmc.bytes_remaining == 0,
        b.apu.dmc.dma_request is None,
        k <= oam_dma_length(b.dma_cycle),
    ensures
        oam_dma_running(dma_cycles(b, k).oam_dma) == (k < oam_dma_length(b.dma_cycle)),
{
    lemma_oam_dma_progress(b, page, b.dma_cycle, k);
}

/// The port after `k` reads with `buttons` held.
pub open spec fn port_after_reads(p: ControllerPort, buttons: ControllerButtons, k: nat) -> ControllerPort
    decreases k,
{
    if k == 0 {
        p
    } else {
        port_read(port_after_reads(p, buttons, (k - 1) as nat), buttons).0
    }
}

/// Strobing a port (a write with bit 0 set, then one with bit 0 clear) and
/// reading it: the reads report the buttons held at the strobe one per read,
/// A, B, Select, Start, Up, Down, Left, Right (bits 0 to 7), and then ones.
pub proof fn lemma_controller_read_sequence(
    p: ControllerPort,
    high: u8,
    low: u8,
    buttons: ControllerButtons,
    k: nat,
)
    requires
        high & 1 != 0,
        low & 1 == 0,
    ensures
        ({
            let latched = port_strobed(port_strobed(p, high, buttons), low, buttons);
            port_read(port_after_reads(latched, buttons, k), buttons).1 == if k < 8 {
                (buttons.0 >> (k as u8)) & 1
            } else {
                1
            }
        }),
{
    let latched = port_strobed(port_strobed(p, high, buttons), low, buttons);
    lemma_port_reads_shift(latched, buttons, k);
    crate::controller::lemma_latched_reads(buttons.0, k);
}

proof fn lemma_port_reads_shift(p: ControllerPort, buttons: ControllerButtons, k: nat)
    requires
        !p.strobe,
    ensures
        port_after_reads(p, buttons, k) == (ControllerPort { shift: shift_after_reads(p.shift, k), strobe: false }),
    decreases k,
{
    if k > 0 {
        lemma_port_reads_shift(p, buttons, (k - 1) as nat);
        reveal_with_fuel(shift_after_reads, 2);
    }
}

/// The address sprite DMA of `page` reads its byte `offset` from.
pub open spec fn dma_addr(page: u8, offset: u8) -> u16 {
    ((page as u16) << 8u16) | offset as u16
}

proof fn lemma_dma_addr_value(page: u8, offset: u8)
    by (bit_vector)
    ensures
        dma_addr(page, offset) == page as u16 * 256 + offset as u16,
{
}

/// Writing OAM data through the view gives a PPU whose view is that write.
proof fn lemma_oam_write_view(q: Ppu, value: u8)
    ensures
        ppu_of(write_oam_data_view(q@, value))@ == write_oam_data_view(q@, value),
{
    let v = write_oam_data_view(q@, value);
    let a = vstd::array::spec_array_update(q.oam, q.oam_addr as int, value);
    vstd::array::axiom_spec_array_update(q.oam, q.oam_addr as int, value);
    assert(a@ == v.oam);
    assert(q.vram@ == v.vram);
    assert(q.palette@ == v.palette);
    assert(q.sprites@ == v.sprites);
    assert(q.frame.pixels@ == v.frame);
    assert(ppu_of(v)@ =~= v);
}

/// The bytes of the DMA page that `w` writes have copied, starting at OAM
/// address `o`, from a bus whose page reads `b0` gives.
pub open spec fn oam_copied(b: NesCpuBus, b0: NesCpuBus, page: u8, o: int, w: int) -> bool {
    &&& b.ram == b0.ram
    &&& b.cartridge == b0.cartridge
    &&& b.game_genie_codes@ == b0.game_genie_codes@
    &&& b.ppu@.oam.len() == 256
    &&& b.ppu@.oam_addr == (o + w) % 256
    &&& forall|i: int|
        0 <= i < w ==> #[trigger] b.ppu@.oam[(o + i) % 256] == b0.spec_read_value(dma_addr(page, i as u8))
}

/// The number of bytes a sprite DMA that halted on `start` has written after
/// `k` of its cycles.
pub open spec fn oam_dma_written(start: DmaCycle, k: nat) -> int {
    let wait: int = if start == DmaCycle::Put {
        0
    } else {
        1
    };
    let j = k - 1 - wait;
    if j < 0 {
        0
    } else if k >= oam_dma_length(start) {
        256
    } else if j % 2 == 0 {
        j / 2
    } else {
        (j - 1) / 2
    }
}

/// The whole copy state after `k` cycles: where the DMA stands, how much it
/// has copied, and that a byte read and not yet written is the page's byte.
pub open spec fn oam_dma_copy_progress(b: NesCpuBus, b0: NesCpuBus, page: u8, start: DmaCycle, k: nat) -> bool {
    &&& oam_dma_progress(b, page, start, k)
    &&& oam_copied(b, b0, page, b0.ppu@.oam_addr as int, oam_dma_written(start, k))
    &&& match b.oam_dma {
        Some(d) => match d.step {
            OamDmaStep::Write { offset, value } => value == b0.spec_read_value(dma_addr(page, offset)),
            _ => true,
        },
        None => true,
    }
}

/// A page of plain memory or cartridge space: reading it has no side effect.
pub open spec fn quiet_page(page: u8) -> bool {
    page < 0x20 || page > 0x40
}

proof fn lemma_cycle_finished_keeps_memory(b: NesCpuBus)
    ensures
        b.spec_cycle_finished().ppu == b.ppu,
        b.spec_cycle_finished().ram == b.ram,
        b.spec_cycle_finished().cartridge == b.cartridge,
        b.spec_cycle_finished().game_genie_codes == b.game_genie_codes,
        b.spec_cycle_finished().oam_dma == b.oam_dma,
{
}

proof fn lemma_quiet_read(b: NesCpuBus, b0: NesCpuBus, page: u8, offset: u8)
    requires
        quiet_page(page),
        b.ram == b0.ram,
        b.cartridge == b0.cartridge,
        b.game_genie_codes@ == b0.game_genie_codes@,
    ensures
        b.spec_after_read(dma_addr(page, offset)) == b,
        b.spec_read_value(dma_addr(page, offset)) == b0.spec_read_value(dma_addr(page, offset)),
{
    lemma_dma_addr_value(page, offset);
}

proof fn lemma_oam_write_keeps_copy(b: NesCpuBus, b0: NesCpuBus, page: u8, o: int, w: int, value: u8)
    requires
        oam_copied(b, b0, page, o, w),
        0 <= o < 256,
        0 <= w < 256,
        value == b0.spec_read_value(dma_addr(page, w as u8)),
    ensures
        oam_copied(
            NesCpuBus { ppu: ppu_of(write_oam_data_view(b.ppu@, value)), ..b },
            b0,
            page,
            o,
            w + 1,
        ),
{
    lemma_oam_write_view(b.ppu, value);
    let v1 = write_oam_data_view(b.ppu@, value);
    assert forall|i: int| 0 <= i < w + 1 implies #[trigger] v1.oam[(o + i) % 256] == b0.spec_read_value(
        dma_addr(page, i as u8),
    ) by {
        if i < w {
            assert(b.ppu@.oam[(o + i) % 256] == b0.spec_read_value(dma_addr(page, i as u8)));
            assert((o + i) % 256 != (o + w) % 256);
        }
    }
}

#[verifier::spinoff_prover]
#[verifier::rlimit(40)]
proof fn lemma_oam_dma_copy_step(b: NesCpuBus, b0: NesCpuBus, page: u8, start: DmaCycle, k: nat)
    requires
        quiet_page(page),
        oam_dma_copy_progress(b, b0, page, start, k),
        k < oam_dma_length(start),
    ensures
        oam_dma_copy_progress(dma_cycle_step(b), b0, page, start, k + 1),
{
    lemma_oam_dma_step(b, page, start, k);
    assert(b.spec_dmc_joined() == b);
    let b1 = b.spec_oam_dma_ticked(false);
    assert(b.spec_dma_bus_action() == b1);
    lemma_cycle_finished_keeps_memory(b1);
    let o = b0.ppu@.oam_addr as int;
    let w = oam_dma_written(start, k);
    let d = b.oam_dma->0;
    match d.step {
        OamDmaStep::Read { offset } => {
            lemma_quiet_read(b, b0, page, offset);
        },
        OamDmaStep::Write { offset, value } => {
            if b.dma_cycle == DmaCycle::Put {
                lemma_oam_write_keeps_copy(b, b0, page, o, w, value);
            }
        },
        _ => {},
    }
}

proof fn lemma_oam_dma_copy_progress(b: NesCpuBus, page: u8, k: nat)
    requires
        quiet_page(page),
        oam_dma_copy_progress(b, b, page, b.dma_cycle, 0),
        k <= oam_dma_length(b.dma_cycle),
    ensures
        oam_dma_copy_progress(dma_cycles(b, k), b, page, b.dma_cycle, k),
    decreases k,
{
    if k > 0 {
        lemma_oam_dma_copy_progress(b, page, (k - 1) as nat);
        lemma_oam_dma_copy_step(dma_cycles(b, (k - 1) as nat), b, page, b.dma_cycle, (k - 1) as nat);
    }
}

/// A whole sprite DMA from a page of plain memory or cartridge space, with no
/// sample fetch able to interfere, copies the page's 256 bytes into OAM in
/// order, starting at the OAM address it began with, which it ends back at.
#[verifier::spinoff_prover]
pub proof fn lemma_oam_dma_copies_page(b: NesCpuBus, page: u8, i: u8)
    requires
        quiet_page(page),
        b.oam_dma == Some(OamDma { page, step: OamDmaStep::Halt }),
        b.dmc_dma is None,
        b.apu.dmc.bytes_remaining == 0,
        b.apu.dmc.dma_request is None,
    ensures
        ({
            let e = dma_cycles(b, oam_dma_length(b.dma_cycle));
            &&& e.ppu@.oam[(b.ppu@.oam_addr + i) % 256] == b.spec_read_value(dma_addr(page, i))
            &&& e.ppu@.oam_addr == b.ppu@.oam_addr
            &&& e.oam_dma is None
        }),
{
    let len = oam_dma_length(b.dma_cycle);
    lemma_oam_dma_copy_progress(b, page, len);
    let e = dma_cycles(b, len);
    assert(oam_dma_written(b.dma_cycle, len) == 256);
    assert(oam_copied(e, b, page, b.ppu@.oam_addr as int, 256));
    assert(e.ppu@.oam[(b.ppu@.oam_addr + i) % 256] == b.spec_read_value(dma_addr(page, (i as int) as u8)));
}

} // verus!
