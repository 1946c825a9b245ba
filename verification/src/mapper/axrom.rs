use vstd::prelude::*;

use crate::bytes::{copy_bytes, zero_bank, zeros};
use crate::cartridge::CartridgeError;
use crate::mapper::Mirroring;

verus! {

pub const PRG_BANK_SIZE: usize = 0x8000;
pub const MAX_PRG_ROM_SIZE: usize = 0x40000;

/// Mapper 7: a switchable 32 KiB PRG bank and one-screen mirroring chosen by
/// the same register; 8 KiB of CHR RAM.
pub struct Axrom {
    pub resources: AxromResources,
    pub state: AxromState,
}

pub struct AxromResources {
    pub prg_rom: Vec<u8>,
}

#[derive(Debug, Clone, Copy, PartialEq, Eq)]
pub struct AxromState {
    pub bank_select: u8,
    pub chr_ram: [u8; 0x2000],
}

/// The error AxROM raises for PRG and CHR sizes it cannot hold, if any.
pub open spec fn axrom_size_error(prg_len: nat, chr_len: nat) -> Option<CartridgeError> {
    if prg_len == 0 || prg_len % 0x8000 != 0 || prg_len > 0x40000 {
        Some(CartridgeError::UnsupportedPrgRomSize(prg_len as usize))
    } else if chr_len != 0 {
        Some(CartridgeError::UnsupportedChrRomSize(chr_len as usize))
    } else {
        None
    }
}

impl Axrom {
    pub open spec fn wf(self) -> bool {
        let prg_len = self.resources.prg_rom@.len();
        &&& prg_len > 0 && prg_len % 0x8000 == 0 && prg_len <= 0x40000
        &&& self.state.chr_ram@.len() == 0x2000
    }

    pub open spec fn fresh(self, prg: Seq<u8>) -> bool {
        &&& self.resources.prg_rom@ == prg
        &&& self.state.bank_select == 0
        &&& self.state.chr_ram@ == zeros(0x2000)
    }

    pub open spec fn spec_mirroring(self) -> Mirroring {
        if self.state.bank_select & 0x10 == 0 {
            Mirroring::SingleScreenLower
        } else {
            Mirroring::SingleScreenUpper
        }
    }

    pub open spec fn spec_cpu_read(self, addr: u16) -> Option<u8> {
        let prg = self.resources.prg_rom@;
        let bank_count = prg.len() / 0x8000;
        if addr >= 0x8000 {
            Some(prg[((self.state.bank_select % 8) as int % bank_count as int) * 0x8000 + addr - 0x8000])
        } else {
            None
        }
    }

    pub open spec fn spec_ppu_read(self, addr: u16) -> Option<u8> {
        if addr < 0x2000 {
            Some(self.state.chr_ram@[addr as int])
        } else {
            None
        }
    }

    pub fn new(prg: &[u8], chr: &[u8]) -> (r: Result<Self, CartridgeError>)
        ensures
            match r {
                Ok(board) => axrom_size_error(prg@.len(), chr@.len()) is None && board.wf()
                    && board.fresh(prg@),
                Err(e) => axrom_size_error(prg@.len(), chr@.len()) == Some(e),
            },
    {
        if prg.len() == 0 || prg.len() % PRG_BANK_SIZE != 0 || prg.len() > MAX_PRG_ROM_SIZE {
            return Err(CartridgeError::UnsupportedPrgRomSize(prg.len()));
        }
        if chr.len() != 0 {
            return Err(CartridgeError::UnsupportedChrRomSize(chr.len()));
        }
        Ok(Axrom {
            resources: AxromResources { prg_rom: copy_bytes(prg) },
            state: AxromState { bank_select: 0, chr_ram: zero_bank() },
        })
    }

    pub fn mirroring(&self) -> (m: Mirroring)
        ensures
            m == self.spec_mirroring(),
    {
        if self.state.bank_select & 0x10 == 0 {
            Mirroring::SingleScreenLower
        } else {
            Mirroring::SingleScreenUpper
        }
    }

    pub fn cpu_read(&self, addr: u16) -> (r: Option<u8>)
        requires
            self.wf(),
        ensures
            r == self.spec_cpu_read(addr),
    {
        if addr < 0x8000 {
            return None;
        }
        let bank_count = self.resources.prg_rom.len() / PRG_BANK_SIZE;
        let bank = (self.state.bank_select % 8) as usize % bank_count;
        assert(bank * 0x8000 + 0x8000 <= bank_count * 0x8000) by (nonlinear_arith)
            requires bank < bank_count;
        Some(self.resources.prg_rom[bank * PRG_BANK_SIZE + (addr - 0x8000) as usize])
    }

    /// Writes to `$8000-$FFFF` keep bits 0-2 (PRG bank) and bit 4 (screen page).
    pub open spec fn cpu_write_post(pre: Self, post: Self, addr: u16, value: u8, cycle: u64) -> bool {
        &&& post.wf()
        &&& post.resources == pre.resources
        &&& post.state.chr_ram == pre.state.chr_ram
        &&& post.state.bank_select == if addr >= 0x8000 {
            value & 0x17
        } else {
            pre.state.bank_select
        }
    }

    pub fn cpu_write(&mut self, addr: u16, value: u8, cpu_cycle: u64)
        requires
            old(self).wf(),
        ensures
            Self::cpu_write_post(*old(self), *final(self), addr, value, cpu_cycle),

    {
        if addr >= 0x8000 {
            self.state.bank_select = value & 0x17;
        }
    }

    pub fn ppu_read(&self, addr: u16) -> (r: Option<u8>)
        requires
            self.wf(),
        ensures
            r == self.spec_ppu_read(addr),
    {
        if addr >= 0x2000 {
            return None;
        }
        Some(self.state.chr_ram[addr as usize])
    }

    pub open spec fn ppu_write_post(pre: Self, post: Self, addr: u16, value: u8) -> bool {
        &&& post.wf()
        &&& post.resources == pre.resources
        &&& post.state.bank_select == pre.state.bank_select
        &&& post.state.chr_ram@ == if addr < 0x2000 {
            pre.state.chr_ram@.update(addr as int, value)
        } else {
            pre.state.chr_ram@
        }
    }

    pub fn ppu_write(&mut self, addr: u16, value: u8)
        requires
            old(self).wf(),
        ensures
            Self::ppu_write_post(*old(self), *final(self), addr, value),

    {
        if addr < 0x2000 {
            self.state.chr_ram[addr as usize] = value;
        }
    }
}

} // verus!
