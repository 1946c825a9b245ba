use vstd::prelude::*;

use crate::bytes::{copy_bytes, copy_into_bank, zero_bank, zeros};
use crate::cartridge::CartridgeError;
use crate::mapper::mmc3::{Mmc3PrgRamControl, Mmc3State};
use crate::mapper::{Mirroring, SaveRamError};

verus! {

/// Mapper 4: the MMC3 with PRG RAM, CHR ROM or RAM, and programmable or
/// four-screen mirroring.
pub struct Txrom {
    pub resources: TxromResources,
    pub state: TxromState,
    pub chr: TxromChr,
    pub mirroring: TxromMirroring,
}

pub struct TxromResources {
    pub prg_rom: Vec<u8>,
}

#[derive(Debug, Clone, Copy, PartialEq, Eq)]
pub struct TxromState {
    pub mmc3: Mmc3State,
    pub prg_ram: [u8; 0x2000],
    pub prg_ram_control: Mmc3PrgRamControl,
}

pub enum TxromChr {
    Rom(Vec<u8>),
    Ram(TxromChrRamState),
}

#[derive(Debug, Clone, Copy, PartialEq, Eq)]
pub struct TxromChrRamState {
    pub bytes: [u8; 0x2000],
}

pub enum TxromMirroring {
    FourScreen,
    Programmable(TxromMirroringState),
}

#[derive(Debug, Clone, Copy, PartialEq, Eq, Structural)]
pub struct TxromMirroringState {
    pub value: Mirroring,
}

/// The error raised for MMC3-family PRG ROM outside `$8000..=max_len` or not a
/// whole number of 8 KiB banks, if any.
pub open spec fn prg_size_error(prg_len: nat, max_len: nat) -> Option<CartridgeError> {
    if prg_len < 0x8000 || prg_len > max_len || prg_len % 0x2000 != 0 {
        Some(CartridgeError::UnsupportedPrgRomSize(prg_len as usize))
    } else {
        None
    }
}

pub fn validate_prg(prg: &[u8], max_len: usize) -> (r: Result<(), CartridgeError>)
    ensures
        match r {
            Ok(()) => prg_size_error(prg@.len(), max_len as nat) is None,
            Err(e) => prg_size_error(prg@.len(), max_len as nat) == Some(e),
        },
{
    if prg.len() < 0x8000 || prg.len() > max_len || prg.len() % 0x2000 != 0 {
        return Err(CartridgeError::UnsupportedPrgRomSize(prg.len()));
    }
    Ok(())
}

/// The error TxROM raises for PRG and CHR sizes it cannot hold, if any.
pub open spec fn txrom_size_error(prg_len: nat, chr_len: nat) -> Option<CartridgeError> {
    if prg_size_error(prg_len, 0x80000) is Some {
        prg_size_error(prg_len, 0x80000)
    } else if chr_len != 0 && (chr_len % 0x2000 != 0 || chr_len > 0x40000) {
        Some(CartridgeError::UnsupportedChrRomSize(chr_len as usize))
    } else {
        None
    }
}

impl TxromMirroring {
    pub open spec fn spec_value(self) -> Mirroring {
        match self {
            TxromMirroring::FourScreen => Mirroring::FourScreen,
            TxromMirroring::Programmable(state) => state.value,
        }
    }

    /// The mirroring after a write of `value` to `$A000`: four-screen wiring ignores it.
    pub open spec fn spec_after_write(self, value: u8) -> Mirroring {
        match self {
            TxromMirroring::FourScreen => Mirroring::FourScreen,
            TxromMirroring::Programmable(_) => if value & 1 == 0 {
                Mirroring::Vertical
            } else {
                Mirroring::Horizontal
            },
        }
    }

    pub fn new(initial: Mirroring) -> (m: Self)
        ensures
            m is FourScreen <==> initial == Mirroring::FourScreen,
            m.spec_value() == initial,
    {
        if let Mirroring::FourScreen = initial {
            TxromMirroring::FourScreen
        } else {
            TxromMirroring::Programmable(TxromMirroringState { value: initial })
        }
    }

    pub fn value(&self) -> (m: Mirroring)
        ensures
            m == self.spec_value(),
    {
        match self {
            TxromMirroring::FourScreen => Mirroring::FourScreen,
            TxromMirroring::Programmable(state) => state.value,
        }
    }

    pub fn write(&mut self, value: u8)
        ensures
            *final(self) is FourScreen <==> *old(self) is FourScreen,
            final(self).spec_value() == old(self).spec_after_write(value),
    {
        if let TxromMirroring::Programmable(state) = self {
            state.value = if value & 1 == 0 {
                Mirroring::Vertical
            } else {
                Mirroring::Horizontal
            };
        }
    }
}

impl TxromChr {
    pub open spec fn bytes(self) -> Seq<u8> {
        match self {
            TxromChr::Rom(b) => b@,
            TxromChr::Ram(state) => state.bytes@,
        }
    }
}

impl Txrom {
    pub open spec fn wf(self) -> bool {
        let prg_len = self.resources.prg_rom@.len();
        let chr_len = self.chr.bytes().len();
        &&& prg_len >= 0x8000 && prg_len <= 0x80000 && prg_len % 0x2000 == 0
        &&& self.state.prg_ram@.len() == 0x2000
        &&& chr_len > 0 && chr_len % 0x2000 == 0 && chr_len <= 0x40000
    }

    pub open spec fn fresh(self, prg: Seq<u8>, chr: Seq<u8>, mirroring: Mirroring) -> bool {
        &&& self.resources.prg_rom@ == prg
        &&& self.state.mmc3 == Mmc3State::spec_new()
        &&& self.state.prg_ram@ == zeros(0x2000)
        &&& self.state.prg_ram_control == (Mmc3PrgRamControl { enabled: true, write_protect: false })
        &&& self.mirroring.spec_value() == mirroring
        &&& (self.mirroring is FourScreen <==> mirroring == Mirroring::FourScreen)
        &&& if chr.len() == 0 {
            self.chr matches TxromChr::Ram(s) && s.bytes@ == zeros(0x2000)
        } else {
            self.chr matches TxromChr::Rom(b) && b@ == chr
        }
    }

    pub open spec fn spec_chr_offset(self, addr: u16) -> Option<int> {
        match self.state.mmc3.spec_chr_bank(addr) {
            Some((bank, offset)) => Some(
                (bank as int % (self.chr.bytes().len() / 0x0400) as int) * 0x0400 + offset,
            ),
            None => None,
        }
    }

    pub open spec fn spec_cpu_read(self, addr: u16) -> Option<u8> {
        if 0x6000 <= addr < 0x8000 {
            if self.state.prg_ram_control.enabled {
                Some(self.state.prg_ram@[addr - 0x6000])
            } else {
                None
            }
        } else if addr >= 0x8000 {
            match self.state.mmc3.spec_prg_rom_offset(addr, self.resources.prg_rom@.len() as int) {
                Some(o) => Some(self.resources.prg_rom@[o as int]),
                None => None,
            }
        } else {
            None
        }
    }

    pub open spec fn spec_ppu_read(self, addr: u16) -> Option<u8> {
        match self.spec_chr_offset(addr) {
            Some(o) => Some(self.chr.bytes()[o]),
            None => None,
        }
    }

    pub open spec fn chr_after_ppu_write(self, addr: u16, value: u8) -> Seq<u8> {
        match self.spec_chr_offset(addr) {
            Some(o) if self.chr is Ram => self.chr.bytes().update(o, value),
            _ => self.chr.bytes(),
        }
    }

    pub fn new(prg: &[u8], chr: &[u8], mirroring: Mirroring) -> (r: Result<Self, CartridgeError>)
        ensures
            match r {
                Ok(board) => txrom_size_error(prg@.len(), chr@.len()) is None && board.wf()
                    && board.fresh(prg@, chr@, mirroring),
                Err(e) => txrom_size_error(prg@.len(), chr@.len()) == Some(e),
            },
    {
        match validate_prg(prg, 0x80000) {
            Ok(()) => {},
            Err(e) => return Err(e),
        }

        let chr_mem = if chr.len() == 0 {
            TxromChr::Ram(TxromChrRamState { bytes: zero_bank() })
        } else if chr.len() % 0x2000 == 0 && chr.len() <= 0x40000 {
            TxromChr::Rom(copy_bytes(chr))
        } else {
            return Err(CartridgeError::UnsupportedChrRomSize(chr.len()));
        };

        Ok(Txrom {
            resources: TxromResources { prg_rom: copy_bytes(prg) },
            state: TxromState {
                mmc3: Mmc3State::new(),
                prg_ram: zero_bank(),
                prg_ram_control: Mmc3PrgRamControl::new(),
            },
            chr: chr_mem,
            mirroring: TxromMirroring::new(mirroring),
        })
    }

    fn chr_len(&self) -> (len: usize)
        requires
            self.wf(),
        ensures
            len == self.chr.bytes().len(),
    {
        match &self.chr {
            TxromChr::Rom(bytes) => bytes.len(),
            TxromChr::Ram(state) => state.bytes.len(),
        }
    }

    fn chr_offset(&self, addr: u16) -> (r: Option<usize>)
        requires
            self.wf(),
        ensures
            r matches Some(o) ==> self.spec_chr_offset(addr) == Some(o as int) && o < self.chr.bytes().len(),
            r is None ==> self.spec_chr_offset(addr) is None,
    {
        let (bank, offset) = match self.state.mmc3.chr_bank(addr) {
            Some(pair) => pair,
            None => return None,
        };
        let bank_count = self.chr_len() / 0x0400;
        let b = bank as usize % bank_count;
        assert(b * 0x0400 + 0x0400 <= bank_count * 0x0400) by (nonlinear_arith)
            requires b < bank_count;
        Some(b * 0x0400 + offset)
    }

    pub fn mirroring(&self) -> (m: Mirroring)
        ensures
            m == self.mirroring.spec_value(),
    {
        self.mirroring.value()
    }

    pub fn cpu_read(&self, addr: u16) -> (r: Option<u8>)
        requires
            self.wf(),
        ensures
            r == self.spec_cpu_read(addr),
    {
        if 0x6000 <= addr && addr < 0x8000 {
            if self.state.prg_ram_control.enabled() {
                Some(self.state.prg_ram[(addr - 0x6000) as usize])
            } else {
                None
            }
        } else if addr >= 0x8000 {
            match self.state.mmc3.prg_rom_offset(addr, self.resources.prg_rom.len()) {
                Some(o) => Some(self.resources.prg_rom[o]),
                None => None,
            }
        } else {
            None
        }
    }

    pub open spec fn cpu_write_post(pre: Self, post: Self, addr: u16, value: u8, cycle: u64) -> bool {
        &&& post.wf()
        &&& post.resources == pre.resources
        &&& post.chr == pre.chr
        &&& post.mirroring is FourScreen <==> pre.mirroring is FourScreen
        &&& post.state.prg_ram@ == if 0x6000 <= addr < 0x8000
            && pre.state.prg_ram_control.spec_writable() {
            pre.state.prg_ram@.update(addr - 0x6000, value)
        } else {
            pre.state.prg_ram@
        }
        &&& post.mirroring.spec_value() == if 0xA000 <= addr < 0xC000 && addr % 2 == 0 {
            pre.mirroring.spec_after_write(value)
        } else {
            pre.mirroring.spec_value()
        }
        &&& post.state.prg_ram_control == if 0xA000 <= addr < 0xC000 && addr % 2 == 1 {
            Mmc3PrgRamControl { enabled: value & 0x80 != 0, write_protect: value & 0x40 != 0 }
        } else {
            pre.state.prg_ram_control
        }
        &&& post.state.mmc3 == if addr >= 0x8000 && !(0xA000 <= addr < 0xC000) {
            pre.state.mmc3.spec_write_register(addr, value)
        } else {
            pre.state.mmc3
        }
    }

    pub fn cpu_write(&mut self, addr: u16, value: u8, cpu_cycle: u64)
        requires
            old(self).wf(),
        ensures
            Self::cpu_write_post(*old(self), *final(self), addr, value, cpu_cycle),

    {
        if 0x6000 <= addr && addr < 0x8000 {
            if self.state.prg_ram_control.writable() {
                self.state.prg_ram[(addr - 0x6000) as usize] = value;
            }
        } else if 0xA000 <= addr && addr < 0xC000 && addr % 2 == 0 {
            self.mirroring.write(value);
        } else if 0xA000 <= addr && addr < 0xC000 {
            self.state.prg_ram_control.write(value);
        } else if addr >= 0x8000 {
            self.state.mmc3.write_register(addr, value);
        }
    }

    pub fn ppu_read(&self, addr: u16) -> (r: Option<u8>)
        requires
            self.wf(),
        ensures
            r == self.spec_ppu_read(addr),
    {
        let offset = match self.chr_offset(addr) {
            Some(o) => o,
            None => return None,
        };
        match &self.chr {
            TxromChr::Rom(bytes) => Some(bytes[offset]),
            TxromChr::Ram(state) => Some(state.bytes[offset]),
        }
    }

    pub open spec fn ppu_write_post(pre: Self, post: Self, addr: u16, value: u8) -> bool {
        &&& post.wf()
        &&& post.resources == pre.resources
        &&& post.state == pre.state
        &&& post.mirroring == pre.mirroring
        &&& post.chr is Ram <==> pre.chr is Ram
        &&& pre.chr is Rom ==> post.chr == pre.chr
        &&& post.chr.bytes() == pre.chr_after_ppu_write(addr, value)
    }

    pub fn ppu_write(&mut self, addr: u16, value: u8)
        requires
            old(self).wf(),
        ensures
            Self::ppu_write_post(*old(self), *final(self), addr, value),

    {
        let offset = match self.chr_offset(addr) {
            Some(o) => o,
            None => return,
        };
        if let TxromChr::Ram(state) = &mut self.chr {
            state.bytes[offset] = value;
        }
    }

    pub open spec fn observe_post(pre: Self, post: Self, addr: u16, ppu_cycle: u64) -> bool {
        &&& post.wf()
        &&& post.resources == pre.resources
        &&& post.chr == pre.chr
        &&& post.mirroring == pre.mirroring
        &&& post.state.prg_ram == pre.state.prg_ram
        &&& post.state.prg_ram_control == pre.state.prg_ram_control
        &&& post.state.mmc3 == pre.state.mmc3.spec_observe_ppu_addr(addr, ppu_cycle)
    }

    pub fn observe_ppu_addr(&mut self, addr: u16, ppu_cycle: u64)
        requires
            old(self).wf(),
        ensures
            Self::observe_post(*old(self), *final(self), addr, ppu_cycle),

    {
        self.state.mmc3.observe_ppu_addr(addr, ppu_cycle);
    }

    pub fn irq_asserted(&self) -> (b: bool)
        ensures
            b == self.state.mmc3.irq_pending,
    {
        self.state.mmc3.irq_asserted()
    }

    pub fn save_ram(&self) -> (r: &[u8])
        ensures
            r@ == self.state.prg_ram@,
    {
        self.state.prg_ram.as_slice()
    }

    pub fn save_ram_mut(&mut self) -> (r: &mut [u8])
        ensures
            r@ == old(self).state.prg_ram@,
            final(r)@ == final(self).state.prg_ram@,
            final(self).resources == old(self).resources,
            final(self).chr == old(self).chr,
            final(self).mirroring == old(self).mirroring,
            final(self).state.mmc3 == old(self).state.mmc3,
            final(self).state.prg_ram_control == old(self).state.prg_ram_control,
    {
        &mut self.state.prg_ram
    }

    pub open spec fn load_save_ram_post(pre: Self, post: Self, data: Seq<u8>, r: Result<(), SaveRamError>) -> bool {
        &&& post.wf()
        &&& post.resources == pre.resources
        &&& post.chr == pre.chr
        &&& post.mirroring == pre.mirroring
        &&& post.state.mmc3 == pre.state.mmc3
        &&& post.state.prg_ram_control == pre.state.prg_ram_control
        &&& match r {
            Ok(()) => data.len() == 0x2000 && post.state.prg_ram@ == data,
            Err(e) => data.len() != 0x2000 && e == (SaveRamError::InvalidSize {
                expected: 0x2000,
                actual: data.len() as usize,
            }) && post.state.prg_ram == pre.state.prg_ram,
        }
    }

    pub fn load_save_ram(&mut self, data: &[u8]) -> (r: Result<(), SaveRamError>)
        requires
            old(self).wf(),
        ensures
            Self::load_save_ram_post(*old(self), *final(self), data@, r),

    {
        if data.len() != self.state.prg_ram.len() {
            return Err(SaveRamError::InvalidSize { expected: self.state.prg_ram.len(), actual: data.len() });
        }
        copy_into_bank(&mut self.state.prg_ram, data);
        Ok(())
    }
}

} // verus!
