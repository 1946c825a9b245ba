use vstd::prelude::*;

use crate::bytes::{copy_bytes, zero_bank, zeros};
use crate::cartridge::CartridgeError;
use crate::mapper::mmc3::Mmc3State;
use crate::mapper::txrom::{prg_size_error, validate_prg};
use crate::mapper::Mirroring;

verus! {

/// Mapper 119: an MMC3 whose CHR bank bit 6 selects 8 KiB of CHR RAM instead
/// of CHR ROM.
pub struct Tqrom {
    pub resources: TqromResources,
    pub state: TqromState,
}

pub struct TqromResources {
    pub prg_rom: Vec<u8>,
    pub chr_rom: Vec<u8>,
}

#[derive(Debug, Clone, Copy, PartialEq, Eq)]
pub struct TqromState {
    pub mmc3: Mmc3State,
    pub mirroring: Mirroring,
    pub chr_ram: [u8; 0x2000],
}

/// Where a pattern-table access lands: CHR ROM or CHR RAM, and the offset.
#[derive(Debug, Clone, Copy, PartialEq, Eq, Structural)]
pub enum ChrTarget {
    Rom(usize),
    Ram(usize),
}

/// The error TQROM raises for PRG and CHR sizes it cannot hold, if any.
pub open spec fn tqrom_size_error(prg_len: nat, chr_len: nat) -> Option<CartridgeError> {
    if prg_size_error(prg_len, 0x20000) is Some {
        prg_size_error(prg_len, 0x20000)
    } else if chr_len == 0 || chr_len % 0x2000 != 0 || chr_len > 0x10000 {
        Some(CartridgeError::UnsupportedChrRomSize(chr_len as usize))
    } else {
        None
    }
}

impl Tqrom {
    pub open spec fn wf(self) -> bool {
        let prg_len = self.resources.prg_rom@.len();
        let chr_len = self.resources.chr_rom@.len();
        &&& prg_len >= 0x8000 && prg_len <= 0x20000 && prg_len % 0x2000 == 0
        &&& chr_len > 0 && chr_len % 0x2000 == 0 && chr_len <= 0x10000
        &&& self.state.chr_ram@.len() == 0x2000
    }

    pub open spec fn fresh(self, prg: Seq<u8>, chr: Seq<u8>, mirroring: Mirroring) -> bool {
        &&& self.resources.prg_rom@ == prg
        &&& self.resources.chr_rom@ == chr
        &&& self.state.mmc3 == Mmc3State::spec_new()
        &&& self.state.mirroring == mirroring
        &&& self.state.chr_ram@ == zeros(0x2000)
    }

    pub open spec fn spec_chr_target(self, addr: u16) -> Option<ChrTarget> {
        match self.state.mmc3.spec_chr_bank(addr) {
            Some((bank, offset)) => if bank & 0x40 != 0 {
                Some(ChrTarget::Ram(((bank % 8) as int * 0x0400 + offset) as usize))
            } else {
                Some(
                    ChrTarget::Rom(
                        (((bank % 64) as int % (self.resources.chr_rom@.len() / 0x0400) as int)
                            * 0x0400 + offset) as usize,
                    ),
                )
            },
            None => None,
        }
    }

    pub open spec fn spec_cpu_read(self, addr: u16) -> Option<u8> {
        match self.state.mmc3.spec_prg_rom_offset(addr, self.resources.prg_rom@.len() as int) {
            Some(o) => Some(self.resources.prg_rom@[o as int]),
            None => None,
        }
    }

    pub open spec fn spec_ppu_read(self, addr: u16) -> Option<u8> {
        match self.spec_chr_target(addr) {
            Some(ChrTarget::Rom(o)) => Some(self.resources.chr_rom@[o as int]),
            Some(ChrTarget::Ram(o)) => Some(self.state.chr_ram@[o as int]),
            None => None,
        }
    }

    pub open spec fn chr_ram_after_ppu_write(self, addr: u16, value: u8) -> Seq<u8> {
        match self.spec_chr_target(addr) {
            Some(ChrTarget::Ram(o)) => self.state.chr_ram@.update(o as int, value),
            _ => self.state.chr_ram@,
        }
    }

    pub fn new(prg: &[u8], chr: &[u8], mirroring: Mirroring) -> (r: Result<Self, CartridgeError>)
        ensures
            match r {
                Ok(board) => tqrom_size_error(prg@.len(), chr@.len()) is None && board.wf()
                    && board.fresh(prg@, chr@, mirroring),
                Err(e) => tqrom_size_error(prg@.len(), chr@.len()) == Some(e),
            },
    {
        match validate_prg(prg, 0x20000) {
            Ok(()) => {},
            Err(e) => return Err(e),
        }
        if chr.len() == 0 || chr.len() % 0x2000 != 0 || chr.len() > 0x10000 {
            return Err(CartridgeError::UnsupportedChrRomSize(chr.len()));
        }
        Ok(Tqrom {
            resources: TqromResources { prg_rom: copy_bytes(prg), chr_rom: copy_bytes(chr) },
            state: TqromState { mmc3: Mmc3State::new(), mirroring, chr_ram: zero_bank() },
        })
    }

    fn chr_target(&self, addr: u16) -> (r: Option<ChrTarget>)
        requires
            self.wf(),
        ensures
            r == self.spec_chr_target(addr),
            r matches Some(ChrTarget::Rom(o)) ==> o < self.resources.chr_rom@.len(),
            r matches Some(ChrTarget::Ram(o)) ==> o < 0x2000,
    {
        let (bank, offset) = match self.state.mmc3.chr_bank(addr) {
            Some(pair) => pair,
            None => return None,
        };
        if bank & 0x40 != 0 {
            let b = (bank % 8) as usize;
            Some(ChrTarget::Ram(b * 0x0400 + offset))
        } else {
            let bank_count = self.resources.chr_rom.len() / 0x0400;
            let b = (bank % 64) as usize % bank_count;
            assert(b * 0x0400 + 0x0400 <= bank_count * 0x0400) by (nonlinear_arith)
                requires b < bank_count;
            Some(ChrTarget::Rom(b * 0x0400 + offset))
        }
    }

    pub fn mirroring(&self) -> (m: Mirroring)
        ensures
            m == self.state.mirroring,
    {
        self.state.mirroring
    }

    pub fn cpu_read(&self, addr: u16) -> (r: Option<u8>)
        requires
            self.wf(),
        ensures
            r == self.spec_cpu_read(addr),
    {
        match self.state.mmc3.prg_rom_offset(addr, self.resources.prg_rom.len()) {
            Some(o) => Some(self.resources.prg_rom[o]),
            None => None,
        }
    }

    pub open spec fn cpu_write_post(pre: Self, post: Self, addr: u16, value: u8, cycle: u64) -> bool {
        &&& post.wf()
        &&& post.resources == pre.resources
        &&& post.state.chr_ram == pre.state.chr_ram
        &&& post.state.mirroring == if 0xA000 <= addr < 0xC000 && addr % 2 == 0 {
            if value & 1 == 0 { Mirroring::Vertical } else { Mirroring::Horizontal }
        } else {
            pre.state.mirroring
        }
        &&& post.state.mmc3 == if addr >= 0x8000 && !(0xA000 <= addr < 0xC000 && addr % 2
            == 0) {
            pre.state.mmc3.spec_write_register(addr, value)
        } else {
            pre.state.mmc3
        }
    }

    pub fn cpu_write(&mut self, addr: u16, value: u8, cpu_cycle: u64)
        requires
            old(self).wf(),
        ensures
            Self::cpu_write_post(*old(self), *final(self), addr, value, cpu_cycle),

    {
        if 0xA000 <= addr && addr < 0xC000 && addr % 2 == 0 {
            self.state.mirroring = if value & 1 == 0 {
                Mirroring::Vertical
            } else {
                Mirroring::Horizontal
            };
        } else if addr >= 0x8000 {
            self.state.mmc3.write_register(addr, value);
        }
    }

    pub fn ppu_read(&self, addr: u16) -> (r: Option<u8>)
        requires
            self.wf(),
        ensures
            r == self.spec_ppu_read(addr),
    {
        match self.chr_target(addr) {
            Some(ChrTarget::Rom(o)) => Some(self.resources.chr_rom[o]),
            Some(ChrTarget::Ram(o)) => Some(self.state.chr_ram[o]),
            None => None,
        }
    }

    pub open spec fn ppu_write_post(pre: Self, post: Self, addr: u16, value: u8) -> bool {
        &&& post.wf()
        &&& post.resources == pre.resources
        &&& post.state.mmc3 == pre.state.mmc3
        &&& post.state.mirroring == pre.state.mirroring
        &&& post.state.chr_ram@ == pre.chr_ram_after_ppu_write(addr, value)
    }

    pub fn ppu_write(&mut self, addr: u16, value: u8)
        requires
            old(self).wf(),
        ensures
            Self::ppu_write_post(*old(self), *final(self), addr, value),

    {
        if let Some(ChrTarget::Ram(o)) = self.chr_target(addr) {
            self.state.chr_ram[o] = value;
        }
    }

    pub open spec fn observe_post(pre: Self, post: Self, addr: u16, ppu_cycle: u64) -> bool {
        &&& post.wf()
        &&& post.resources == pre.resources
        &&& post.state.chr_ram == pre.state.chr_ram
        &&& post.state.mirroring == pre.state.mirroring
        &&& post.state.mmc3 == pre.state.mmc3.spec_observe_ppu_addr(addr, ppu_cycle)
    }

    pub fn observe_ppu_addr(&mut self, addr: u16, ppu_cycle: u64)
        requires
            old(self).wf(),
        ensures
            Self::observe_post(*old(self), *final(self), addr, ppu_cycle),

    {
        self.state.mmc3.observe_ppu_addr(addr, ppu_cycle);
    }

    pub fn irq_asserted(&self) -> (b: bool)
        ensures
            b == self.state.mmc3.irq_pending,
    {
        self.state.mmc3.irq_asserted()
    }
}

} // verus!
