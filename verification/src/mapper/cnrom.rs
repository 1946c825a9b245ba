use vstd::prelude::*;

use crate::bytes::copy_bytes;
use crate::cartridge::CartridgeError;
use crate::mapper::Mirroring;

verus! {

/// Mapper 3: fixed PRG ROM and a switchable 8 KiB CHR ROM bank.
pub struct Cnrom {
    pub resources: CnromResources,
    pub state: CnromState,
}

pub struct CnromResources {
    pub prg_rom: Vec<u8>,
    pub chr_rom: Vec<u8>,
    pub mirroring: Mirroring,
}

#[derive(Debug, Clone, Copy, PartialEq, Eq, Structural)]
pub struct CnromState {
    pub chr_bank: u8,
}

/// The error CNROM raises for PRG and CHR sizes it cannot hold, if any.
pub open spec fn cnrom_size_error(prg_len: nat, chr_len: nat) -> Option<CartridgeError> {
    if prg_len != 0x4000 && prg_len != 0x8000 {
        Some(CartridgeError::UnsupportedPrgRomSize(prg_len as usize))
    } else if chr_len != 0x4000 && chr_len != 0x8000 {
        Some(CartridgeError::UnsupportedChrRomSize(chr_len as usize))
    } else {
        None
    }
}

impl Cnrom {
    pub open spec fn wf(self) -> bool {
        &&& self.resources.prg_rom@.len() == 0x4000 || self.resources.prg_rom@.len() == 0x8000
        &&& self.resources.chr_rom@.len() == 0x4000 || self.resources.chr_rom@.len() == 0x8000
    }

    pub open spec fn fresh(self, prg: Seq<u8>, chr: Seq<u8>, mirroring: Mirroring) -> bool {
        &&& self.resources.prg_rom@ == prg
        &&& self.resources.chr_rom@ == chr
        &&& self.resources.mirroring == mirroring
        &&& self.state.chr_bank == 0
    }

    /// A CPU write of `value` to `addr` in `$8000-$FFFF` selects, after the
    /// bus conflict with the ROM byte there (the two are ANDed), the 8 KiB CHR
    /// bank for the whole pattern table area `$0000-$1FFF` (modulo the bank
    /// count); PRG ROM is not banked.
    pub proof fn lemma_chr_bank_switch(pre: Self, post: Self, addr: u16, value: u8, cycle: u64, a: u16)
        requires
            pre.wf(),
            Self::cpu_write_post(pre, post, addr, value, cycle),
            addr >= 0x8000,
            a < 0x2000,
        ensures
            ({
                let prg = pre.resources.prg_rom@;
                let chr = pre.resources.chr_rom@;
                let bank = (value & prg[(addr - 0x8000) % prg.len() as int]) as int % (chr.len() / 0x2000) as int;
                &&& post.spec_ppu_read(a) == Some(chr[bank * 0x2000 + a])
                &&& post.spec_cpu_read(addr) == pre.spec_cpu_read(addr)
            }),
    {
    }

    pub open spec fn spec_cpu_read(self, addr: u16) -> Option<u8> {
        let prg = self.resources.prg_rom@;
        if addr >= 0x8000 {
            Some(prg[(addr - 0x8000) % prg.len() as int])
        } else {
            None
        }
    }

    pub open spec fn spec_ppu_read(self, addr: u16) -> Option<u8> {
        let chr = self.resources.chr_rom@;
        let bank_count = chr.len() / 0x2000;
        if addr < 0x2000 {
            Some(chr[(self.state.chr_bank as int % bank_count as int) * 0x2000 + addr])
        } else {
            None
        }
    }

    pub fn new(prg: &[u8], chr: &[u8], mirroring: Mirroring) -> (r: Result<Self, CartridgeError>)
        ensures
            match r {
                Ok(board) => cnrom_size_error(prg@.len(), chr@.len()) is None && board.wf()
                    && board.fresh(prg@, chr@, mirroring),
                Err(e) => cnrom_size_error(prg@.len(), chr@.len()) == Some(e),
            },
    {
        if prg.len() != 0x4000 && prg.len() != 0x8000 {
            return Err(CartridgeError::UnsupportedPrgRomSize(prg.len()));
        }
        if chr.len() != 0x4000 && chr.len() != 0x8000 {
            return Err(CartridgeError::UnsupportedChrRomSize(chr.len()));
        }
        Ok(Cnrom {
            resources: CnromResources { prg_rom: copy_bytes(prg), chr_rom: copy_bytes(chr), mirroring },
            state: CnromState { chr_bank: 0 },
        })
    }

    pub fn mirroring(&self) -> (m: Mirroring)
        ensures
            m == self.resources.mirroring,
    {
        self.resources.mirroring
    }

    pub fn cpu_read(&self, addr: u16) -> (r: Option<u8>)
        requires
            self.wf(),
        ensures
            r == self.spec_cpu_read(addr),
    {
        if addr < 0x8000 {
            return None;
        }
        let offset = (addr - 0x8000) as usize;
        Some(self.resources.prg_rom[offset % self.resources.prg_rom.len()])
    }

    /// The bank register sees the written value ANDed with the ROM byte at
    /// the same address (the ROM drives the data bus too).
    pub open spec fn cpu_write_post(pre: Self, post: Self, addr: u16, value: u8, cycle: u64) -> bool {
        &&& post.wf()
        &&& post.resources == pre.resources
        &&& post.state.chr_bank == match pre.spec_cpu_read(addr) {
            Some(rom_value) => value & rom_value,
            None => pre.state.chr_bank,
        }
    }

    pub fn cpu_write(&mut self, addr: u16, value: u8, cpu_cycle: u64)
        requires
            old(self).wf(),
        ensures
            Self::cpu_write_post(*old(self), *final(self), addr, value, cpu_cycle),

    {
        if addr < 0x8000 {
            return;
        }
        let rom_value = match self.cpu_read(addr) {
            Some(v) => v,
            None => 0xFF,
        };
        self.state.chr_bank = value & rom_value;
    }

    pub fn ppu_read(&self, addr: u16) -> (r: Option<u8>)
        requires
            self.wf(),
        ensures
            r == self.spec_ppu_read(addr),
    {
        if addr >= 0x2000 {
            return None;
        }
        let bank_count = self.resources.chr_rom.len() / 0x2000;
        let bank = self.state.chr_bank as usize % bank_count;
        assert(bank * 0x2000 + 0x2000 <= bank_count * 0x2000) by (nonlinear_arith)
            requires bank < bank_count;
        Some(self.resources.chr_rom[bank * 0x2000 + addr as usize])
    }

    /// CHR is ROM: PPU writes are ignored.
    pub open spec fn ppu_write_post(pre: Self, post: Self, addr: u16, value: u8) -> bool {
        &&& post == pre
    }

    pub fn ppu_write(&mut self, addr: u16, value: u8)
        ensures
            Self::ppu_write_post(*old(self), *final(self), addr, value),

    {
    }
}

} // verus!
