use vstd::prelude::*;

use crate::bytes::{copy_bytes, copy_into_bank, zero_bank, zeros};
use crate::cartridge::CartridgeError;
use crate::mapper::mmc3::{Mmc3PrgRamControl, Mmc3State};
use crate::mapper::txrom::{prg_size_error, validate_prg};
use crate::mapper::{nametable_offset, Mirroring, SaveRamError};

verus! {

/// Mapper 118: an MMC3 whose CHR bank bit 7 selects the console nametable page
/// for each quarter of the nametable window.
pub struct TxSrom {
    pub resources: TxSromResources,
    pub state: TxSromState,
}

pub struct TxSromResources {
    pub prg_rom: Vec<u8>,
    pub chr_rom: Vec<u8>,
}

#[derive(Debug, Clone, Copy, PartialEq, Eq)]
pub struct TxSromState {
    pub mmc3: Mmc3State,
    pub prg_ram: [u8; 0x2000],
    pub prg_ram_control: Mmc3PrgRamControl,
}

/// The error TxSROM raises for PRG and CHR sizes it cannot hold, if any.
pub open spec fn txsrom_size_error(prg_len: nat, chr_len: nat) -> Option<CartridgeError> {
    if prg_size_error(prg_len, 0x80000) is Some {
        prg_size_error(prg_len, 0x80000)
    } else if chr_len == 0 || chr_len % 0x2000 != 0 || chr_len > 0x20000 {
        Some(CartridgeError::UnsupportedChrRomSize(chr_len as usize))
    } else {
        None
    }
}

impl TxSrom {
    pub open spec fn wf(self) -> bool {
        let prg_len = self.resources.prg_rom@.len();
        let chr_len = self.resources.chr_rom@.len();
        &&& prg_len >= 0x8000 && prg_len <= 0x80000 && prg_len % 0x2000 == 0
        &&& self.state.prg_ram@.len() == 0x2000
        &&& chr_len > 0 && chr_len % 0x2000 == 0 && chr_len <= 0x20000
    }

    pub open spec fn fresh(self, prg: Seq<u8>, chr: Seq<u8>) -> bool {
        &&& self.resources.prg_rom@ == prg
        &&& self.resources.chr_rom@ == chr
        &&& self.state.mmc3 == Mmc3State::spec_new()
        &&& self.state.prg_ram@ == zeros(0x2000)
        &&& self.state.prg_ram_control == (Mmc3PrgRamControl { enabled: true, write_protect: false })
    }

    /// Nametable RAM index for `addr >= $2000`: bit 7 of the CHR bank that the
    /// same offset selects in the first pattern table chooses the 1 KiB page.
    pub open spec fn spec_nametable_index(self, addr: u16) -> int {
        let offset = nametable_offset(addr);
        let (bank, _) = self.state.mmc3.spec_chr_bank(offset as u16).unwrap();
        (bank / 128) * 0x0400 + offset % 0x0400
    }

    pub open spec fn spec_chr_offset(self, addr: u16) -> Option<int> {
        match self.state.mmc3.spec_chr_bank(addr) {
            Some((bank, offset)) => Some(
                (bank as int % (self.resources.chr_rom@.len() / 0x0400) as int) * 0x0400 + offset,
            ),
            None => None,
        }
    }

    pub open spec fn spec_cpu_read(self, addr: u16) -> Option<u8> {
        if 0x6000 <= addr < 0x8000 {
            if self.state.prg_ram_control.enabled {
                Some(self.state.prg_ram@[addr - 0x6000])
            } else {
                None
            }
        } else if addr >= 0x8000 {
            match self.state.mmc3.spec_prg_rom_offset(addr, self.resources.prg_rom@.len() as int) {
                Some(o) => Some(self.resources.prg_rom@[o as int]),
                None => None,
            }
        } else {
            None
        }
    }

    pub open spec fn spec_ppu_read(self, addr: u16) -> Option<u8> {
        match self.spec_chr_offset(addr) {
            Some(o) => Some(self.resources.chr_rom@[o]),
            None => None,
        }
    }

    pub fn new(prg: &[u8], chr: &[u8], mirroring: Mirroring) -> (r: Result<Self, CartridgeError>)
        ensures
            match r {
                Ok(board) => txsrom_size_error(prg@.len(), chr@.len()) is None && board.wf()
                    && board.fresh(prg@, chr@),
                Err(e) => txsrom_size_error(prg@.len(), chr@.len()) == Some(e),
            },
    {
        match validate_prg(prg, 0x80000) {
            Ok(()) => {},
            Err(e) => return Err(e),
        }
        if chr.len() == 0 || chr.len() % 0x2000 != 0 || chr.len() > 0x20000 {
            return Err(CartridgeError::UnsupportedChrRomSize(chr.len()));
        }
        Ok(TxSrom {
            resources: TxSromResources { prg_rom: copy_bytes(prg), chr_rom: copy_bytes(chr) },
            state: TxSromState {
                mmc3: Mmc3State::new(),
                prg_ram: zero_bank(),
                prg_ram_control: Mmc3PrgRamControl::new(),
            },
        })
    }

    fn chr_offset(&self, addr: u16) -> (r: Option<usize>)
        requires
            self.wf(),
        ensures
            r matches Some(o) ==> self.spec_chr_offset(addr) == Some(o as int)
                && o < self.resources.chr_rom@.len(),
            r is None ==> self.spec_chr_offset(addr) is None,
    {
        let (bank, offset) = match self.state.mmc3.chr_bank(addr) {
            Some(pair) => pair,
            None => return None,
        };
        let bank_count = self.resources.chr_rom.len() / 0x0400;
        let b = bank as usize % bank_count;
        assert(b * 0x0400 + 0x0400 <= bank_count * 0x0400) by (nonlinear_arith)
            requires b < bank_count;
        Some(b * 0x0400 + offset)
    }

    /// The nametable layout comes from the CHR banks, not from a mirroring register.
    pub fn mirroring(&self) -> (m: Mirroring)
        ensures
            m == Mirroring::Vertical,
    {
        Mirroring::Vertical
    }

    pub fn nametable_index(&self, addr: u16) -> (index: usize)
        requires
            addr >= 0x2000,
        ensures
            index == self.spec_nametable_index(addr),
            index < 0x0800,
    {
        let offset = (addr - 0x2000) % 0x1000;
        let bank = match self.state.mmc3.chr_bank(offset) {
            Some((bank, _)) => bank,
            None => 0,
        };
        let page = (bank / 128) as usize;
        page * 0x0400 + (offset % 0x0400) as usize
    }

    pub fn cpu_read(&self, addr: u16) -> (r: Option<u8>)
        requires
            self.wf(),
        ensures
            r == self.spec_cpu_read(addr),
    {
        if 0x6000 <= addr && addr < 0x8000 {
            if self.state.prg_ram_control.enabled() {
                Some(self.state.prg_ram[(addr - 0x6000) as usize])
            } else {
                None
            }
        } else if addr >= 0x8000 {
            match self.state.mmc3.prg_rom_offset(addr, self.resources.prg_rom.len()) {
                Some(o) => Some(self.resources.prg_rom[o]),
                None => None,
            }
        } else {
            None
        }
    }

    pub open spec fn cpu_write_post(pre: Self, post: Self, addr: u16, value: u8, cycle: u64) -> bool {
        &&& post.wf()
        &&& post.resources == pre.resources
        &&& post.state.prg_ram@ == if 0x6000 <= addr < 0x8000
            && pre.state.prg_ram_control.spec_writable() {
            pre.state.prg_ram@.update(addr - 0x6000, value)
        } else {
            pre.state.prg_ram@
        }
        &&& post.state.prg_ram_control == if 0xA000 <= addr < 0xC000 && addr % 2 == 1 {
            Mmc3PrgRamControl { enabled: value & 0x80 != 0, write_protect: value & 0x40 != 0 }
        } else {
            pre.state.prg_ram_control
        }
        &&& post.state.mmc3 == if addr >= 0x8000 && !(0xA000 <= addr < 0xC000 && addr % 2
            == 1) {
            pre.state.mmc3.spec_write_register(addr, value)
        } else {
            pre.state.mmc3
        }
    }

    pub fn cpu_write(&mut self, addr: u16, value: u8, cpu_cycle: u64)
        requires
            old(self).wf(),
        ensures
            Self::cpu_write_post(*old(self), *final(self), addr, value, cpu_cycle),

    {
        if 0x6000 <= addr && addr < 0x8000 {
            if self.state.prg_ram_control.writable() {
                self.state.prg_ram[(addr - 0x6000) as usize] = value;
            }
        } else if 0xA000 <= addr && addr < 0xC000 && addr % 2 == 1 {
            self.state.prg_ram_control.write(value);
        } else if addr >= 0x8000 {
            self.state.mmc3.write_register(addr, value);
        }
    }

    pub fn ppu_read(&self, addr: u16) -> (r: Option<u8>)
        requires
            self.wf(),
        ensures
            r == self.spec_ppu_read(addr),
    {
        match self.chr_offset(addr) {
            Some(o) => Some(self.resources.chr_rom[o]),
            None => None,
        }
    }

    /// CHR is ROM: PPU writes are ignored.
    pub open spec fn ppu_write_post(pre: Self, post: Self, addr: u16, value: u8) -> bool {
        &&& post == pre
    }

    pub fn ppu_write(&mut self, addr: u16, value: u8)
        ensures
            Self::ppu_write_post(*old(self), *final(self), addr, value),

    {
    }

    pub open spec fn observe_post(pre: Self, post: Self, addr: u16, ppu_cycle: u64) -> bool {
        &&& post.wf()
        &&& post.resources == pre.resources
        &&& post.state.prg_ram == pre.state.prg_ram
        &&& post.state.prg_ram_control == pre.state.prg_ram_control
        &&& post.state.mmc3 == pre.state.mmc3.spec_observe_ppu_addr(addr, ppu_cycle)
    }

    pub fn observe_ppu_addr(&mut self, addr: u16, ppu_cycle: u64)
        requires
            old(self).wf(),
        ensures
            Self::observe_post(*old(self), *final(self), addr, ppu_cycle),

    {
        self.state.mmc3.observe_ppu_addr(addr, ppu_cycle);
    }

    pub fn irq_asserted(&self) -> (b: bool)
        ensures
            b == self.state.mmc3.irq_pending,
    {
        self.state.mmc3.irq_asserted()
    }

    pub fn save_ram(&self) -> (r: &[u8])
        ensures
            r@ == self.state.prg_ram@,
    {
        self.state.prg_ram.as_slice()
    }

    pub fn save_ram_mut(&mut self) -> (r: &mut [u8])
        ensures
            r@ == old(self).state.prg_ram@,
            final(r)@ == final(self).state.prg_ram@,
            final(self).resources == old(self).resources,
            final(self).state.mmc3 == old(self).state.mmc3,
            final(self).state.prg_ram_control == old(self).state.prg_ram_control,
    {
        &mut self.state.prg_ram
    }

    pub open spec fn load_save_ram_post(pre: Self, post: Self, data: Seq<u8>, r: Result<(), SaveRamError>) -> bool {
        &&& post.wf()
        &&& post.resources == pre.resources
        &&& post.state.mmc3 == pre.state.mmc3
        &&& post.state.prg_ram_control == pre.state.prg_ram_control
        &&& match r {
            Ok(()) => data.len() == 0x2000 && post.state.prg_ram@ == data,
            Err(e) => data.len() != 0x2000 && e == (SaveRamError::InvalidSize {
                expected: 0x2000,
                actual: data.len() as usize,
            }) && post.state.prg_ram == pre.state.prg_ram,
        }
    }

    pub fn load_save_ram(&mut self, data: &[u8]) -> (r: Result<(), SaveRamError>)
        requires
            old(self).wf(),
        ensures
            Self::load_save_ram_post(*old(self), *final(self), data@, r),

    {
        if data.len() != self.state.prg_ram.len() {
            return Err(SaveRamError::InvalidSize { expected: self.state.prg_ram.len(), actual: data.len() });
        }
        copy_into_bank(&mut self.state.prg_ram, data);
        Ok(())
    }
}

} // verus!
