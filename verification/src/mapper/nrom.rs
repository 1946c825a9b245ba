use vstd::prelude::*;

use crate::bytes::{copy_bytes, zero_bank, zeros};
use crate::cartridge::CartridgeError;
use crate::mapper::Mirroring;

verus! {

/// Mapper 0: fixed 16 or 32 KiB of PRG ROM and 8 KiB of CHR ROM or RAM.
pub struct Nrom {
    pub resources: NromResources,
    pub chr: NromChr,
}

pub struct NromResources {
    pub prg_rom: NromPrgRom,
    pub mirroring: Mirroring,
}

pub enum NromPrgRom {
    Nrom128(Vec<u8>),
    Nrom256(Vec<u8>),
}

pub enum NromChr {
    Rom(Vec<u8>),
    Ram(NromState),
}

#[derive(Debug, Clone, Copy, PartialEq, Eq)]
pub struct NromState {
    pub chr_ram: [u8; 0x2000],
}

/// The error NROM raises for PRG and CHR sizes it cannot hold, if any.
pub open spec fn nrom_size_error(prg_len: nat, chr_len: nat) -> Option<CartridgeError> {
    if prg_len != 0x4000 && prg_len != 0x8000 {
        Some(CartridgeError::UnsupportedPrgRomSize(prg_len as usize))
    } else if chr_len != 0 && chr_len != 0x2000 {
        Some(CartridgeError::UnsupportedChrRomSize(chr_len as usize))
    } else {
        None
    }
}

impl NromPrgRom {
    pub open spec fn bytes(self) -> Seq<u8> {
        match self {
            NromPrgRom::Nrom128(b) => b@,
            NromPrgRom::Nrom256(b) => b@,
        }
    }
}

impl NromChr {
    pub open spec fn bytes(self) -> Seq<u8> {
        match self {
            NromChr::Rom(b) => b@,
            NromChr::Ram(state) => state.chr_ram@,
        }
    }
}

impl Nrom {
    pub open spec fn wf(self) -> bool {
        &&& match self.resources.prg_rom {
            NromPrgRom::Nrom128(b) => b@.len() == 0x4000,
            NromPrgRom::Nrom256(b) => b@.len() == 0x8000,
        }
        &&& self.chr.bytes().len() == 0x2000
    }

    /// The board as loaded from PRG bytes `prg` and CHR bytes `chr`.
    pub open spec fn fresh(self, prg: Seq<u8>, chr: Seq<u8>, mirroring: Mirroring) -> bool {
        &&& self.resources.prg_rom.bytes() == prg
        &&& self.resources.mirroring == mirroring
        &&& if chr.len() == 0 {
            self.chr matches NromChr::Ram(s) && s.chr_ram@ == zeros(0x2000)
        } else {
            self.chr matches NromChr::Rom(b) && b@ == chr
        }
    }

    /// PRG ROM fills `$8000-$FFFF`: a 32 KiB image directly, a 16 KiB image
    /// twice, so `$C000 + o` reads what `$8000 + o` reads; CHR is one 8 KiB
    /// pattern table area at `$0000-$1FFF`.
    pub proof fn lemma_fixed_mapping(self, o: int)
        requires
            self.wf(),
            0 <= o < 0x4000,
        ensures
            ({
                let prg = self.resources.prg_rom.bytes();
                &&& self.spec_cpu_read((0x8000 + o) as u16) == Some(prg[o])
                &&& self.spec_cpu_read((0xC000 + o) as u16) == Some(
                    if prg.len() == 0x4000 { prg[o] } else { prg[0x4000 + o] },
                )
                &&& o < 0x2000 ==> self.spec_ppu_read(o as u16) == Some(self.chr.bytes()[o])
            }),
    {
        let lo = (0x8000 + o) as u16;
        let hi = (0xC000 + o) as u16;
        assert(lo - 0x8000 == o);
        assert(hi - 0x8000 == 0x4000 + o);
        assert(o % 0x4000 == o && o % 0x8000 == o);
        assert((0x4000 + o) % 0x4000 == o);
        assert((0x4000 + o) % 0x8000 == 0x4000 + o);
    }

    pub open spec fn spec_cpu_read(self, addr: u16) -> Option<u8> {
        let prg = self.resources.prg_rom.bytes();
        if addr >= 0x8000 {
            Some(prg[(addr - 0x8000) % prg.len() as int])
        } else {
            None
        }
    }

    pub open spec fn spec_ppu_read(self, addr: u16) -> Option<u8> {
        if addr < 0x2000 {
            Some(self.chr.bytes()[addr as int])
        } else {
            None
        }
    }

    /// The CHR bytes after the PPU writes `value` to `addr`: only CHR RAM changes.
    pub open spec fn chr_after_ppu_write(self, addr: u16, value: u8) -> Seq<u8> {
        if self.chr is Ram && addr < 0x2000 {
            self.chr.bytes().update(addr as int, value)
        } else {
            self.chr.bytes()
        }
    }

    pub fn new(prg: &[u8], chr: &[u8], mirroring: Mirroring) -> (r: Result<Self, CartridgeError>)
        ensures
            match r {
                Ok(board) => nrom_size_error(prg@.len(), chr@.len()) is None && board.wf()
                    && board.fresh(prg@, chr@, mirroring),
                Err(e) => nrom_size_error(prg@.len(), chr@.len()) == Some(e),
            },
    {
        let prg_rom = if prg.len() == 0x4000 {
            NromPrgRom::Nrom128(copy_bytes(prg))
        } else if prg.len() == 0x8000 {
            NromPrgRom::Nrom256(copy_bytes(prg))
        } else {
            return Err(CartridgeError::UnsupportedPrgRomSize(prg.len()));
        };

        let chr = if chr.len() == 0 {
            NromChr::Ram(NromState { chr_ram: zero_bank() })
        } else if chr.len() == 0x2000 {
            NromChr::Rom(copy_bytes(chr))
        } else {
            return Err(CartridgeError::UnsupportedChrRomSize(chr.len()));
        };

        Ok(Nrom { resources: NromResources { prg_rom, mirroring }, chr })
    }

    pub fn mirroring(&self) -> (m: Mirroring)
        ensures
            m == self.resources.mirroring,
    {
        self.resources.mirroring
    }

    pub fn cpu_read(&self, addr: u16) -> (r: Option<u8>)
        requires
            self.wf(),
        ensures
            r == self.spec_cpu_read(addr),
    {
        if addr < 0x8000 {
            return None;
        }
        let offset = (addr - 0x8000) as usize;
        match &self.resources.prg_rom {
            NromPrgRom::Nrom128(prg) => Some(prg[offset % 0x4000]),
            NromPrgRom::Nrom256(prg) => {
                assert(offset as int % 0x8000 == offset);
                Some(prg[offset])
            },
        }
    }

    /// NROM has no registers: CPU writes are ignored.
    pub open spec fn cpu_write_post(pre: Self, post: Self, addr: u16, value: u8, cycle: u64) -> bool {
        &&& post == pre
    }

    pub fn cpu_write(&mut self, addr: u16, value: u8, cpu_cycle: u64)
        ensures
            Self::cpu_write_post(*old(self), *final(self), addr, value, cpu_cycle),

    {
    }

    pub fn ppu_read(&self, addr: u16) -> (r: Option<u8>)
        requires
            self.wf(),
        ensures
            r == self.spec_ppu_read(addr),
    {
        if addr >= 0x2000 {
            return None;
        }
        match &self.chr {
            NromChr::Rom(chr_rom) => Some(chr_rom[addr as usize]),
            NromChr::Ram(state) => Some(state.chr_ram[addr as usize]),
        }
    }

    pub open spec fn ppu_write_post(pre: Self, post: Self, addr: u16, value: u8) -> bool {
        &&& post.wf()
        &&& post.resources == pre.resources
        &&& post.chr is Ram <==> pre.chr is Ram
        &&& pre.chr is Rom ==> post.chr == pre.chr
        &&& post.chr.bytes() == pre.chr_after_ppu_write(addr, value)
    }

    pub fn ppu_write(&mut self, addr: u16, value: u8)
        requires
            old(self).wf(),
        ensures
            Self::ppu_write_post(*old(self), *final(self), addr, value),

    {
        if addr < 0x2000 {
            if let NromChr::Ram(state) = &mut self.chr {
                state.chr_ram[addr as usize] = value;
            }
        }
    }
}

} // verus!
