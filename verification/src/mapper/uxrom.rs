use vstd::prelude::*;

use crate::bytes::{copy_bytes, zero_bank, zeros};
use crate::cartridge::CartridgeError;
use crate::mapper::{ChrState, Mirroring};

verus! {

/// Mapper 2: a switchable 16 KiB PRG bank at `$8000` and the last bank fixed at `$C000`.
pub struct Uxrom {
    pub resources: UxromResources,
    pub state: UxromState,
}

pub struct UxromResources {
    pub prg_rom: Vec<u8>,
    pub chr_rom: Option<Vec<u8>>,
    pub mirroring: Mirroring,
}

#[derive(Debug, Clone, Copy, PartialEq, Eq)]
pub struct UxromState {
    pub bank_select: u8,
    pub chr: ChrState,
}

/// The error UxROM raises for PRG and CHR sizes it cannot hold, if any.
pub open spec fn uxrom_size_error(prg_len: nat, chr_len: nat) -> Option<CartridgeError> {
    if prg_len < 0x8000 || prg_len % 0x4000 != 0 {
        Some(CartridgeError::UnsupportedPrgRomSize(prg_len as usize))
    } else if chr_len != 0 && chr_len != 0x2000 {
        Some(CartridgeError::UnsupportedChrRomSize(chr_len as usize))
    } else {
        None
    }
}

impl Uxrom {
    pub open spec fn chr_bytes(self) -> Seq<u8> {
        match self.state.chr {
            ChrState::Rom => match self.resources.chr_rom {
                Some(rom) => rom@,
                None => Seq::empty(),
            },
            ChrState::Ram(ram) => ram@,
        }
    }

    pub open spec fn wf(self) -> bool {
        let prg_len = self.resources.prg_rom@.len();
        &&& prg_len >= 0x8000 && prg_len % 0x4000 == 0
        &&& match self.state.chr {
            ChrState::Rom => (self.resources.chr_rom matches Some(rom) && rom@.len() == 0x2000),
            ChrState::Ram(ram) => self.resources.chr_rom is None && ram@.len() == 0x2000,
        }
    }

    pub open spec fn fresh(self, prg: Seq<u8>, chr: Seq<u8>, mirroring: Mirroring) -> bool {
        &&& self.resources.prg_rom@ == prg
        &&& self.resources.mirroring == mirroring
        &&& self.state.bank_select == 0
        &&& if chr.len() == 0 {
            self.state.chr matches ChrState::Ram(ram) && ram@ == zeros(0x2000)
        } else {
            self.state.chr is Rom && (self.resources.chr_rom matches Some(rom) && rom@ == chr)
        }
    }

    /// A CPU write of `value` anywhere in `$8000-$FFFF` selects the 16 KiB
    /// bank `value` (modulo the bank count) for `$8000-$BFFF`; `$C000-$FFFF`
    /// always shows the last bank.
    pub proof fn lemma_bank_switch(pre: Self, post: Self, addr: u16, value: u8, cycle: u64, o: int)
        requires
            pre.wf(),
            Self::cpu_write_post(pre, post, addr, value, cycle),
            addr >= 0x8000,
            0 <= o < 0x4000,
        ensures
            ({
                let prg = pre.resources.prg_rom@;
                let n = prg.len() / 0x4000;
                &&& post.spec_cpu_read((0x8000 + o) as u16) == Some(prg[(value as int % n as int) * 0x4000 + o])
                &&& post.spec_cpu_read((0xC000 + o) as u16) == Some(prg[(n - 1) * 0x4000 + o])
            }),
    {
    }

    pub open spec fn spec_cpu_read(self, addr: u16) -> Option<u8> {
        let prg = self.resources.prg_rom@;
        let bank_count = prg.len() / 0x4000;
        if 0x8000 <= addr < 0xC000 {
            Some(prg[(self.state.bank_select as int % bank_count as int) * 0x4000 + addr - 0x8000])
        } else if addr >= 0xC000 {
            Some(prg[(bank_count - 1) * 0x4000 + addr - 0xC000])
        } else {
            None
        }
    }

    pub open spec fn spec_ppu_read(self, addr: u16) -> Option<u8> {
        if addr < 0x2000 {
            Some(self.chr_bytes()[addr as int])
        } else {
            None
        }
    }

    pub open spec fn chr_after_ppu_write(self, addr: u16, value: u8) -> Seq<u8> {
        if self.state.chr is Ram && addr < 0x2000 {
            self.chr_bytes().update(addr as int, value)
        } else {
            self.chr_bytes()
        }
    }

    pub fn new(prg: &[u8], chr: &[u8], mirroring: Mirroring) -> (r: Result<Self, CartridgeError>)
        ensures
            match r {
                Ok(board) => uxrom_size_error(prg@.len(), chr@.len()) is None && board.wf()
                    && board.fresh(prg@, chr@, mirroring),
                Err(e) => uxrom_size_error(prg@.len(), chr@.len()) == Some(e),
            },
    {
        if prg.len() < 0x8000 || prg.len() % 0x4000 != 0 {
            return Err(CartridgeError::UnsupportedPrgRomSize(prg.len()));
        }
        let (chr_rom, chr_state) = if chr.len() == 0 {
            (None, ChrState::Ram(zero_bank()))
        } else if chr.len() == 0x2000 {
            (Some(copy_bytes(chr)), ChrState::Rom)
        } else {
            return Err(CartridgeError::UnsupportedChrRomSize(chr.len()));
        };
        Ok(Uxrom {
            resources: UxromResources { prg_rom: copy_bytes(prg), chr_rom, mirroring },
            state: UxromState { bank_select: 0, chr: chr_state },
        })
    }

    pub fn mirroring(&self) -> (m: Mirroring)
        ensures
            m == self.resources.mirroring,
    {
        self.resources.mirroring
    }

    pub fn cpu_read(&self, addr: u16) -> (r: Option<u8>)
        requires
            self.wf(),
        ensures
            r == self.spec_cpu_read(addr),
    {
        let bank_count = self.resources.prg_rom.len() / 0x4000;
        if 0x8000 <= addr && addr < 0xC000 {
            let bank = self.state.bank_select as usize % bank_count;
            assert(bank * 0x4000 + 0x4000 <= bank_count * 0x4000) by (nonlinear_arith)
                requires bank < bank_count;
            Some(self.resources.prg_rom[bank * 0x4000 + (addr - 0x8000) as usize])
        } else if addr >= 0xC000 {
            Some(self.resources.prg_rom[(bank_count - 1) * 0x4000 + (addr - 0xC000) as usize])
        } else {
            None
        }
    }

    /// Any write to `$8000-$FFFF` selects the PRG bank mapped at `$8000`.
    pub open spec fn cpu_write_post(pre: Self, post: Self, addr: u16, value: u8, cycle: u64) -> bool {
        &&& post.wf()
        &&& post.resources == pre.resources
        &&& post.state.chr == pre.state.chr
        &&& post.state.bank_select == if addr >= 0x8000 {
            value
        } else {
            pre.state.bank_select
        }
    }

    pub fn cpu_write(&mut self, addr: u16, value: u8, cpu_cycle: u64)
        requires
            old(self).wf(),
        ensures
            Self::cpu_write_post(*old(self), *final(self), addr, value, cpu_cycle),

    {
        if addr >= 0x8000 {
            self.state.bank_select = value;
        }
    }

    pub fn ppu_read(&self, addr: u16) -> (r: Option<u8>)
        requires
            self.wf(),
        ensures
            r == self.spec_ppu_read(addr),
    {
        if addr >= 0x2000 {
            return None;
        }
        match &self.state.chr {
            ChrState::Rom => match &self.resources.chr_rom {
                Some(rom) => Some(rom[addr as usize]),
                None => None,
            },
            ChrState::Ram(ram) => Some(ram[addr as usize]),
        }
    }

    pub open spec fn ppu_write_post(pre: Self, post: Self, addr: u16, value: u8) -> bool {
        &&& post.wf()
        &&& post.resources == pre.resources
        &&& post.state.bank_select == pre.state.bank_select
        &&& post.state.chr is Ram <==> pre.state.chr is Ram
        &&& post.chr_bytes() == pre.chr_after_ppu_write(addr, value)
    }

    pub fn ppu_write(&mut self, addr: u16, value: u8)
        requires
            old(self).wf(),
        ensures
            Self::ppu_write_post(*old(self), *final(self), addr, value),

    {
        if addr < 0x2000 {
            if let ChrState::Ram(ram) = &mut self.state.chr {
                ram[addr as usize] = value;
            }
        }
    }
}

} // verus!
