use vstd::prelude::*;

use crate::mapper::cnrom::{Cnrom, CnromState};
use crate::mapper::mmc1::{Mmc1, Mmc1State};
use crate::mapper::nrom::{Nrom, NromChr, NromState};
use crate::mapper::tqrom::{Tqrom, TqromState};
use crate::mapper::txrom::{Txrom, TxromChr, TxromChrRamState, TxromMirroring, TxromMirroringState, TxromState};
use crate::mapper::txsrom::{TxSrom, TxSromState};
use crate::mapper::uxrom::{Uxrom, UxromState};

pub mod axrom;
pub mod cnrom;
pub mod mmc1;
pub mod mmc3;
pub mod nrom;
pub mod tqrom;
pub mod txrom;
pub mod txsrom;
pub mod uxrom;

verus! {

/// How the four logical nametables are backed by console or cartridge RAM.
#[derive(Debug, Clone, Copy, PartialEq, Eq, Structural)]
pub enum Mirroring {
    Horizontal,
    Vertical,
    FourScreen,
    SingleScreenLower,
    SingleScreenUpper,
}

/// Cartridge CHR memory: ROM owned by the board's resources, or 8 KiB of RAM.
#[derive(Debug, Clone, Copy, PartialEq, Eq)]
pub enum ChrState {
    Rom,
    Ram([u8; 0x2000]),
}

/// Why battery-backed RAM could not be loaded.
#[derive(Debug, Clone, Copy, PartialEq, Eq, Structural)]
pub enum SaveRamError {
    Unsupported,
    InvalidSize { expected: usize, actual: usize },
    NotBatteryBacked,
}

/// Offset of a PPU nametable address inside the 4 KiB nametable window.
pub open spec fn nametable_offset(addr: u16) -> int {
    (addr - 0x2000) % 0x1000
}

/// Index into nametable RAM that `addr` selects under `mirroring`.
pub open spec fn spec_nametable_index(addr: u16, mirroring: Mirroring) -> int {
    let offset = nametable_offset(addr);
    let table = offset / 0x0400;
    let in_table = offset % 0x0400;
    match mirroring {
        Mirroring::Vertical => if table % 2 == 0 { in_table } else { 0x0400 + in_table },
        Mirroring::Horizontal => if table < 2 { in_table } else { 0x0400 + in_table },
        Mirroring::SingleScreenLower => in_table,
        Mirroring::SingleScreenUpper => 0x0400 + in_table,
        Mirroring::FourScreen => offset,
    }
}

/// Maps a PPU address in `$2000..` to an index into nametable RAM.
pub fn nametable_index(addr: u16, mirroring: Mirroring) -> (index: usize)
    requires
        addr >= 0x2000,
    ensures
        index == spec_nametable_index(addr, mirroring),
        index < 0x1000,
{
    let offset = (addr - 0x2000) % 0x1000;
    let table = offset / 0x0400;
    let in_table = (offset % 0x0400) as usize;

    match mirroring {
        Mirroring::Vertical => if table % 2 == 0 { in_table } else { 0x0400 + in_table },
        Mirroring::Horizontal => if table < 2 { in_table } else { 0x0400 + in_table },
        Mirroring::SingleScreenLower => in_table,
        Mirroring::SingleScreenUpper => 0x0400 + in_table,
        Mirroring::FourScreen => offset as usize,
    }
}

/// The mapper board of a loaded cartridge.
pub enum Board {
    Nrom(Nrom),
    Mmc1(Mmc1),
    Uxrom(Uxrom),
    Cnrom(Cnrom),
    Txrom(Txrom),
    TxSrom(TxSrom),
    Tqrom(Tqrom),
}

/// What a board changes as it runs: registers and RAM, without the ROM it
/// was built from. NROM and TxROM keep CHR RAM only when they have it, and
/// TxROM its mirroring register only when it is not wired for four screens.
#[derive(Debug, Clone, Copy, PartialEq, Eq)]
pub enum BoardState {
    Nrom(Option<NromState>),
    Mmc1(Mmc1State),
    Uxrom(UxromState),
    Cnrom(CnromState),
    Txrom(TxromState, Option<TxromChrRamState>, Option<TxromMirroringState>),
    TxSrom(TxSromState),
    Tqrom(TqromState),
}

impl Board {
    /// The running state of the board.
    pub open spec fn spec_state(self) -> BoardState {
        match self {
            Board::Nrom(b) => BoardState::Nrom(
                match b.chr {
                    NromChr::Ram(s) => Some(s),
                    NromChr::Rom(_) => None,
                },
            ),
            Board::Mmc1(b) => BoardState::Mmc1(b.state),
            Board::Uxrom(b) => BoardState::Uxrom(b.state),
            Board::Cnrom(b) => BoardState::Cnrom(b.state),
            Board::Txrom(b) => BoardState::Txrom(
                b.state,
                match b.chr {
                    TxromChr::Ram(s) => Some(s),
                    TxromChr::Rom(_) => None,
                },
                match b.mirroring {
                    TxromMirroring::Programmable(m) => Some(m),
                    TxromMirroring::FourScreen => None,
                },
            ),
            Board::TxSrom(b) => BoardState::TxSrom(b.state),
            Board::Tqrom(b) => BoardState::Tqrom(b.state),
        }
    }

    /// The board with its running state replaced by `s`, where `s` has the
    /// board's kind and shape; otherwise the board unchanged.
    pub open spec fn with_state(self, s: BoardState) -> Board {
        match (self, s) {
            (Board::Nrom(b), BoardState::Nrom(Some(st))) => if b.chr is Ram {
                Board::Nrom(Nrom { chr: NromChr::Ram(st), ..b })
            } else {
                self
            },
            (Board::Mmc1(b), BoardState::Mmc1(st)) => Board::Mmc1(Mmc1 { state: st, ..b }),
            (Board::Uxrom(b), BoardState::Uxrom(st)) => Board::Uxrom(Uxrom { state: st, ..b }),
            (Board::Cnrom(b), BoardState::Cnrom(st)) => Board::Cnrom(Cnrom { state: st, ..b }),
            (Board::Txrom(b), BoardState::Txrom(st, chr, mirroring)) => Board::Txrom(
                Txrom {
                    state: st,
                    chr: match chr {
                        Some(c) => if b.chr is Ram {
                            TxromChr::Ram(c)
                        } else {
                            b.chr
                        },
                        None => b.chr,
                    },
                    mirroring: match mirroring {
                        Some(m) => if b.mirroring is Programmable {
                            TxromMirroring::Programmable(m)
                        } else {
                            b.mirroring
                        },
                        None => b.mirroring,
                    },
                    ..b
                },
            ),
            (Board::TxSrom(b), BoardState::TxSrom(st)) => Board::TxSrom(TxSrom { state: st, ..b }),
            (Board::Tqrom(b), BoardState::Tqrom(st)) => Board::Tqrom(Tqrom { state: st, ..b }),
            _ => self,
        }
    }

    /// `s` was taken from a board like this one: same kind, same CHR and
    /// mirroring wiring, and a state this board's operations accept.
    pub open spec fn spec_fits(self, s: BoardState) -> bool {
        &&& match (self, s) {
            (Board::Nrom(b), BoardState::Nrom(st)) => (b.chr is Ram <==> st is Some),
            (Board::Mmc1(_), BoardState::Mmc1(_)) => true,
            (Board::Uxrom(_), BoardState::Uxrom(_)) => true,
            (Board::Cnrom(_), BoardState::Cnrom(_)) => true,
            (Board::Txrom(b), BoardState::Txrom(_, chr, mirroring)) => (b.chr is Ram <==> chr is Some)
                && (b.mirroring is Programmable <==> mirroring is Some),
            (Board::TxSrom(_), BoardState::TxSrom(_)) => true,
            (Board::Tqrom(_), BoardState::Tqrom(_)) => true,
            _ => false,
        }
        &&& self.with_state(s).wf()
    }

    /// A board's own state fits it, and putting it back changes nothing.
    pub proof fn lemma_own_state_fits(self)
        requires
            self.wf(),
        ensures
            self.with_state(self.spec_state()) == self,
            self.spec_fits(self.spec_state()),
    {
    }

    /// Putting back a state that fits, then taking the state, gives it back.
    pub proof fn lemma_state_round_trip(self, s: BoardState)
        requires
            self.spec_fits(s),
        ensures
            self.with_state(s).spec_state() == s,
    {
    }

    pub fn state(&self) -> (s: BoardState)
        ensures
            s == self.spec_state(),
    {
        match self {
            Board::Nrom(b) => BoardState::Nrom(
                match &b.chr {
                    NromChr::Ram(st) => Some(*st),
                    NromChr::Rom(_) => None,
                },
            ),
            Board::Mmc1(b) => BoardState::Mmc1(b.state),
            Board::Uxrom(b) => BoardState::Uxrom(b.state),
            Board::Cnrom(b) => BoardState::Cnrom(b.state),
            Board::Txrom(b) => BoardState::Txrom(
                b.state,
                match &b.chr {
                    TxromChr::Ram(st) => Some(*st),
                    TxromChr::Rom(_) => None,
                },
                match &b.mirroring {
                    TxromMirroring::Programmable(m) => Some(*m),
                    TxromMirroring::FourScreen => None,
                },
            ),
            Board::TxSrom(b) => BoardState::TxSrom(b.state),
            Board::Tqrom(b) => BoardState::Tqrom(b.state),
        }
    }

    /// Whether `s` fits this board (see `spec_fits`).
    pub fn fits(&self, s: &BoardState) -> (b: bool)
        requires
            self.wf(),
        ensures
            b == self.spec_fits(*s),
    {
        match (self, s) {
            (Board::Nrom(b), BoardState::Nrom(st)) => {
                let ram = match &b.chr {
                    NromChr::Ram(_) => true,
                    NromChr::Rom(_) => false,
                };
                ram == st.is_some()
            },
            (Board::Mmc1(b), BoardState::Mmc1(st)) => {
                st.shift_count < 5 && match (&b.state.chr, &st.chr) {
                    (ChrState::Rom, ChrState::Rom) => true,
                    (ChrState::Ram(_), ChrState::Ram(_)) => true,
                    _ => false,
                }
            },
            (Board::Uxrom(b), BoardState::Uxrom(st)) => {
                match (&b.state.chr, &st.chr) {
                    (ChrState::Rom, ChrState::Rom) => true,
                    (ChrState::Ram(_), ChrState::Ram(_)) => true,
                    _ => false,
                }
            },
            (Board::Cnrom(_), BoardState::Cnrom(_)) => true,
            (Board::Txrom(b), BoardState::Txrom(_, chr, mirroring)) => {
                let ram = match &b.chr {
                    TxromChr::Ram(_) => true,
                    TxromChr::Rom(_) => false,
                };
                let programmable = match &b.mirroring {
                    TxromMirroring::Programmable(_) => true,
                    TxromMirroring::FourScreen => false,
                };
                ram == chr.is_some() && programmable == mirroring.is_some()
            },
            (Board::TxSrom(_), BoardState::TxSrom(_)) => true,
            (Board::Tqrom(_), BoardState::Tqrom(_)) => true,
            _ => false,
        }
    }

    /// Put back a running state taken from a board like this one.
    pub fn restore_state(&mut self, s: BoardState)
        requires
            old(self).spec_fits(s),
        ensures
            *final(self) == old(self).with_state(s),
            final(self).wf(),
    {
        match (self, s) {
            (Board::Nrom(b), BoardState::Nrom(Some(st))) => {
                if let NromChr::Ram(_) = &b.chr {
                    b.chr = NromChr::Ram(st);
                }
            },
            (Board::Mmc1(b), BoardState::Mmc1(st)) => {
                b.state = st;
            },
            (Board::Uxrom(b), BoardState::Uxrom(st)) => {
                b.state = st;
            },
            (Board::Cnrom(b), BoardState::Cnrom(st)) => {
                b.state = st;
            },
            (Board::Txrom(b), BoardState::Txrom(st, chr, mirroring)) => {
                b.state = st;
                if let Some(c) = chr {
                    if let TxromChr::Ram(_) = &b.chr {
                        b.chr = TxromChr::Ram(c);
                    }
                }
                if let Some(m) = mirroring {
                    if let TxromMirroring::Programmable(_) = &b.mirroring {
                        b.mirroring = TxromMirroring::Programmable(m);
                    }
                }
            },
            (Board::TxSrom(b), BoardState::TxSrom(st)) => {
                b.state = st;
            },
            (Board::Tqrom(b), BoardState::Tqrom(st)) => {
                b.state = st;
            },
            _ => {},
        }
    }
}

impl Board {
    pub open spec fn wf(self) -> bool {
        match self {
            Board::Nrom(b) => b.wf(),
            Board::Mmc1(b) => b.wf(),
            Board::Uxrom(b) => b.wf(),
            Board::Cnrom(b) => b.wf(),
            Board::Txrom(b) => b.wf(),
            Board::TxSrom(b) => b.wf(),
            Board::Tqrom(b) => b.wf(),
        }
    }

    pub open spec fn spec_mirroring(self) -> Mirroring {
        match self {
            Board::Nrom(b) => b.resources.mirroring,
            Board::Mmc1(b) => b.spec_mirroring(),
            Board::Uxrom(b) => b.resources.mirroring,
            Board::Cnrom(b) => b.resources.mirroring,
            Board::Txrom(b) => b.mirroring.spec_value(),
            Board::TxSrom(b) => Mirroring::Vertical,
            Board::Tqrom(b) => b.state.mirroring,
        }
    }

    pub open spec fn spec_nametable_index(self, addr: u16) -> int {
        match self {
            Board::TxSrom(b) => b.spec_nametable_index(addr),
            _ => spec_nametable_index(addr, self.spec_mirroring()),
        }
    }

    pub open spec fn spec_cpu_read(self, addr: u16) -> Option<u8> {
        match self {
            Board::Nrom(b) => b.spec_cpu_read(addr),
            Board::Mmc1(b) => b.spec_cpu_read(addr),
            Board::Uxrom(b) => b.spec_cpu_read(addr),
            Board::Cnrom(b) => b.spec_cpu_read(addr),
            Board::Txrom(b) => b.spec_cpu_read(addr),
            Board::TxSrom(b) => b.spec_cpu_read(addr),
            Board::Tqrom(b) => b.spec_cpu_read(addr),
        }
    }

    pub open spec fn spec_ppu_read(self, addr: u16) -> Option<u8> {
        match self {
            Board::Nrom(b) => b.spec_ppu_read(addr),
            Board::Mmc1(b) => b.spec_ppu_read(addr),
            Board::Uxrom(b) => b.spec_ppu_read(addr),
            Board::Cnrom(b) => b.spec_ppu_read(addr),
            Board::Txrom(b) => b.spec_ppu_read(addr),
            Board::TxSrom(b) => b.spec_ppu_read(addr),
            Board::Tqrom(b) => b.spec_ppu_read(addr),
        }
    }

    pub open spec fn spec_irq_asserted(self) -> bool {
        match self {
            Board::Txrom(b) => b.state.mmc3.irq_pending,
            Board::TxSrom(b) => b.state.mmc3.irq_pending,
            Board::Tqrom(b) => b.state.mmc3.irq_pending,
            _ => false,
        }
    }

    /// The PRG RAM that a battery can keep, for the boards that have one.
    pub open spec fn spec_save_ram(self) -> Option<Seq<u8>> {
        match self {
            Board::Mmc1(b) => Some(b.state.prg_ram@),
            Board::Txrom(b) => Some(b.state.prg_ram@),
            Board::TxSrom(b) => Some(b.state.prg_ram@),
            _ => None,
        }
    }

    /// Whether a PPU write to `addr` lands in CHR RAM.
    pub open spec fn spec_chr_ram_at(self, addr: u16) -> bool {
        match self {
            Board::Nrom(b) => b.chr is Ram && addr < 0x2000,
            Board::Mmc1(b) => b.state.chr is Ram && addr < 0x2000,
            Board::Uxrom(b) => b.state.chr is Ram && addr < 0x2000,
            Board::Cnrom(_) => false,
            Board::Txrom(b) => b.chr is Ram && addr < 0x2000,
            Board::TxSrom(_) => false,
            Board::Tqrom(b) => b.spec_chr_target(addr) matches Some(crate::mapper::tqrom::ChrTarget::Ram(_)),
        }
    }

    /// Whether a CPU write to `addr` lands in PRG RAM.
    pub open spec fn spec_prg_ram_writable(self, addr: u16) -> bool {
        &&& 0x6000 <= addr < 0x8000
        &&& match self {
            Board::Mmc1(b) => b.state.prg_ram_enabled(),
            Board::Txrom(b) => b.state.prg_ram_control.spec_writable(),
            Board::TxSrom(b) => b.state.prg_ram_control.spec_writable(),
            _ => false,
        }
    }

    pub open spec fn cpu_write_post(pre: Self, post: Self, addr: u16, value: u8, cycle: u64) -> bool {
        match (pre, post) {
            (Board::Nrom(a), Board::Nrom(b)) => Nrom::cpu_write_post(a, b, addr, value, cycle),
            (Board::Mmc1(a), Board::Mmc1(b)) => Mmc1::cpu_write_post(a, b, addr, value, cycle),
            (Board::Uxrom(a), Board::Uxrom(b)) => Uxrom::cpu_write_post(a, b, addr, value, cycle),
            (Board::Cnrom(a), Board::Cnrom(b)) => Cnrom::cpu_write_post(a, b, addr, value, cycle),
            (Board::Txrom(a), Board::Txrom(b)) => Txrom::cpu_write_post(a, b, addr, value, cycle),
            (Board::TxSrom(a), Board::TxSrom(b)) => TxSrom::cpu_write_post(a, b, addr, value, cycle),
            (Board::Tqrom(a), Board::Tqrom(b)) => Tqrom::cpu_write_post(a, b, addr, value, cycle),
            _ => false,
        }
    }

    pub open spec fn ppu_write_post(pre: Self, post: Self, addr: u16, value: u8) -> bool {
        match (pre, post) {
            (Board::Nrom(a), Board::Nrom(b)) => Nrom::ppu_write_post(a, b, addr, value),
            (Board::Mmc1(a), Board::Mmc1(b)) => Mmc1::ppu_write_post(a, b, addr, value),
            (Board::Uxrom(a), Board::Uxrom(b)) => Uxrom::ppu_write_post(a, b, addr, value),
            (Board::Cnrom(a), Board::Cnrom(b)) => Cnrom::ppu_write_post(a, b, addr, value),
            (Board::Txrom(a), Board::Txrom(b)) => Txrom::ppu_write_post(a, b, addr, value),
            (Board::TxSrom(a), Board::TxSrom(b)) => TxSrom::ppu_write_post(a, b, addr, value),
            (Board::Tqrom(a), Board::Tqrom(b)) => Tqrom::ppu_write_post(a, b, addr, value),
            _ => false,
        }
    }

    /// Only the MMC3 boards watch the PPU address bus; the others are unchanged.
    pub open spec fn observe_post(pre: Self, post: Self, addr: u16, ppu_cycle: u64) -> bool {
        match (pre, post) {
            (Board::Txrom(a), Board::Txrom(b)) => Txrom::observe_post(a, b, addr, ppu_cycle),
            (Board::TxSrom(a), Board::TxSrom(b)) => TxSrom::observe_post(a, b, addr, ppu_cycle),
            (Board::Tqrom(a), Board::Tqrom(b)) => Tqrom::observe_post(a, b, addr, ppu_cycle),
            (Board::Txrom(_), _) | (Board::TxSrom(_), _) | (Board::Tqrom(_), _) => false,
            _ => post == pre,
        }
    }

    pub open spec fn load_save_ram_post(
        pre: Self,
        post: Self,
        data: Seq<u8>,
        r: Result<(), SaveRamError>,
    ) -> bool {
        match (pre, post) {
            (Board::Mmc1(a), Board::Mmc1(b)) => Mmc1::load_save_ram_post(a, b, data, r),
            (Board::Txrom(a), Board::Txrom(b)) => Txrom::load_save_ram_post(a, b, data, r),
            (Board::TxSrom(a), Board::TxSrom(b)) => TxSrom::load_save_ram_post(a, b, data, r),
            (Board::Mmc1(_), _) | (Board::Txrom(_), _) | (Board::TxSrom(_), _) => false,
            _ => post == pre && r == Err::<(), SaveRamError>(SaveRamError::Unsupported),
        }
    }

    /// A PPU read of CHR RAM returns what the last PPU write to the same
    /// address stored; where the address is CHR ROM, no PPU read changes.
    pub proof fn lemma_chr_write_then_read(pre: Self, post: Self, addr: u16, value: u8, other: u16)
        requires
            pre.wf(),
            post.wf(),
            Self::ppu_write_post(pre, post, addr, value),
        ensures
            pre.spec_chr_ram_at(addr) ==> post.spec_ppu_read(addr) == Some(value),
            !pre.spec_chr_ram_at(addr) ==> post.spec_ppu_read(other) == pre.spec_ppu_read(other),
    {
        match (pre, post) {
            (Board::Tqrom(a), Board::Tqrom(b)) => {
                assert(a.state.mmc3 == b.state.mmc3);
            },
            _ => {},
        }
    }

    /// A CPU write determines the board after it.
    pub proof fn lemma_cpu_write_post_unique(pre: Self, p1: Self, p2: Self, addr: u16, value: u8, cycle: u64)
        requires
            Self::cpu_write_post(pre, p1, addr, value, cycle),
            Self::cpu_write_post(pre, p2, addr, value, cycle),
        ensures
            p1 == p2,
    {
        match (p1, p2) {
            (Board::Mmc1(a), Board::Mmc1(b)) => {
                assert(a.state.prg_ram =~= b.state.prg_ram);
                assert(a.state.registers() == b.state.registers());
            },
            (Board::Txrom(a), Board::Txrom(b)) => {
                assert(a.state.prg_ram =~= b.state.prg_ram);
            },
            (Board::TxSrom(a), Board::TxSrom(b)) => {
                assert(a.state.prg_ram =~= b.state.prg_ram);
            },
            _ => {},
        }
    }

    /// A PPU write determines the board after it.
    pub proof fn lemma_ppu_write_post_unique(pre: Self, p1: Self, p2: Self, addr: u16, value: u8)
        requires
            Self::ppu_write_post(pre, p1, addr, value),
            Self::ppu_write_post(pre, p2, addr, value),
        ensures
            p1 == p2,
    {
        match (p1, p2) {
            (Board::Nrom(a), Board::Nrom(b)) => {
                if let (crate::mapper::nrom::NromChr::Ram(x), crate::mapper::nrom::NromChr::Ram(y)) = (a.chr, b.chr) {
                    assert(x.chr_ram =~= y.chr_ram);
                }
            },
            (Board::Mmc1(a), Board::Mmc1(b)) => {
                if let (ChrState::Ram(x), ChrState::Ram(y)) = (a.state.chr, b.state.chr) {
                    assert(x =~= y);
                }
                assert(a.state.registers() == b.state.registers());
            },
            (Board::Uxrom(a), Board::Uxrom(b)) => {
                if let (ChrState::Ram(x), ChrState::Ram(y)) = (a.state.chr, b.state.chr) {
                    assert(x =~= y);
                }
            },
            (Board::Txrom(a), Board::Txrom(b)) => {
                if let (crate::mapper::txrom::TxromChr::Ram(x), crate::mapper::txrom::TxromChr::Ram(y)) = (a.chr, b.chr) {
                    assert(x.bytes =~= y.bytes);
                }
            },
            (Board::Tqrom(a), Board::Tqrom(b)) => {
                assert(a.state.chr_ram =~= b.state.chr_ram);
            },
            _ => {},
        }
    }

    /// A CPU read of PRG RAM returns what the last CPU write to the same
    /// address stored, while that RAM is enabled for writing.
    pub proof fn lemma_prg_ram_write_then_read(pre: Self, post: Self, addr: u16, value: u8, cycle: u64)
        requires
            pre.wf(),
            post.wf(),
            Self::cpu_write_post(pre, post, addr, value, cycle),
            pre.spec_prg_ram_writable(addr),
        ensures
            post.spec_cpu_read(addr) == Some(value),
    {
    }

    pub fn mirroring(&self) -> (m: Mirroring)
        ensures
            m == self.spec_mirroring(),
    {
        match self {
            Board::Nrom(b) => b.mirroring(),
            Board::Mmc1(b) => b.mirroring(),
            Board::Uxrom(b) => b.mirroring(),
            Board::Cnrom(b) => b.mirroring(),
            Board::Txrom(b) => b.mirroring(),
            Board::TxSrom(b) => b.mirroring(),
            Board::Tqrom(b) => b.mirroring(),
        }
    }

    pub fn nametable_index(&self, addr: u16) -> (index: usize)
        requires
            addr >= 0x2000,
        ensures
            index == self.spec_nametable_index(addr),
            index < 0x1000,
    {
        match self {
            Board::TxSrom(b) => b.nametable_index(addr),
            _ => nametable_index(addr, self.mirroring()),
        }
    }

    pub fn cpu_read(&self, addr: u16) -> (r: Option<u8>)
        requires
            self.wf(),
        ensures
            r == self.spec_cpu_read(addr),
    {
        match self {
            Board::Nrom(b) => b.cpu_read(addr),
            Board::Mmc1(b) => b.cpu_read(addr),
            Board::Uxrom(b) => b.cpu_read(addr),
            Board::Cnrom(b) => b.cpu_read(addr),
            Board::Txrom(b) => b.cpu_read(addr),
            Board::TxSrom(b) => b.cpu_read(addr),
            Board::Tqrom(b) => b.cpu_read(addr),
        }
    }

    pub fn cpu_write(&mut self, addr: u16, value: u8, cycle: u64)
        requires
            old(self).wf(),
        ensures
            final(self).wf(),
            Self::cpu_write_post(*old(self), *final(self), addr, value, cycle),
    {
        match self {
            Board::Nrom(b) => b.cpu_write(addr, value, cycle),
            Board::Mmc1(b) => b.cpu_write(addr, value, cycle),
            Board::Uxrom(b) => b.cpu_write(addr, value, cycle),
            Board::Cnrom(b) => b.cpu_write(addr, value, cycle),
            Board::Txrom(b) => b.cpu_write(addr, value, cycle),
            Board::TxSrom(b) => b.cpu_write(addr, value, cycle),
            Board::Tqrom(b) => b.cpu_write(addr, value, cycle),
        }
    }

    pub fn ppu_read(&self, addr: u16) -> (r: Option<u8>)
        requires
            self.wf(),
        ensures
            r == self.spec_ppu_read(addr),
    {
        match self {
            Board::Nrom(b) => b.ppu_read(addr),
            Board::Mmc1(b) => b.ppu_read(addr),
            Board::Uxrom(b) => b.ppu_read(addr),
            Board::Cnrom(b) => b.ppu_read(addr),
            Board::Txrom(b) => b.ppu_read(addr),
            Board::TxSrom(b) => b.ppu_read(addr),
            Board::Tqrom(b) => b.ppu_read(addr),
        }
    }

    pub fn ppu_write(&mut self, addr: u16, value: u8)
        requires
            old(self).wf(),
        ensures
            final(self).wf(),
            Self::ppu_write_post(*old(self), *final(self), addr, value),
    {
        match self {
            Board::Nrom(b) => b.ppu_write(addr, value),
            Board::Mmc1(b) => b.ppu_write(addr, value),
            Board::Uxrom(b) => b.ppu_write(addr, value),
            Board::Cnrom(b) => b.ppu_write(addr, value),
            Board::Txrom(b) => b.ppu_write(addr, value),
            Board::TxSrom(b) => b.ppu_write(addr, value),
            Board::Tqrom(b) => b.ppu_write(addr, value),
        }
    }

    pub fn observe_ppu_addr(&mut self, addr: u16, ppu_cycle: u64)
        requires
            old(self).wf(),
        ensures
            final(self).wf(),
            Self::observe_post(*old(self), *final(self), addr, ppu_cycle),
    {
        match self {
            Board::Txrom(b) => b.observe_ppu_addr(addr, ppu_cycle),
            Board::TxSrom(b) => b.observe_ppu_addr(addr, ppu_cycle),
            Board::Tqrom(b) => b.observe_ppu_addr(addr, ppu_cycle),
            _ => {},
        }
    }

    pub fn irq_asserted(&self) -> (b: bool)
        ensures
            b == self.spec_irq_asserted(),
    {
        match self {
            Board::Txrom(b) => b.irq_asserted(),
            Board::TxSrom(b) => b.irq_asserted(),
            Board::Tqrom(b) => b.irq_asserted(),
            _ => false,
        }
    }

    pub fn save_ram(&self) -> (r: Option<&[u8]>)
        ensures
            match r {
                Some(s) => self.spec_save_ram() == Some(s@),
                None => self.spec_save_ram() is None,
            },
    {
        match self {
            Board::Mmc1(b) => Some(b.save_ram()),
            Board::Txrom(b) => Some(b.save_ram()),
            Board::TxSrom(b) => Some(b.save_ram()),
            _ => None,
        }
    }

    pub fn save_ram_mut(&mut self) -> (r: Option<&mut [u8]>)
        ensures
            r is Some <==> old(self).spec_save_ram() is Some,
            r matches Some(s) ==> Some(s@) == old(self).spec_save_ram(),
            r matches Some(s) ==> Some(final(s)@) == final(self).spec_save_ram(),
            old(self).wf() ==> final(self).wf(),
    {
        match self {
            Board::Mmc1(b) => Some(b.save_ram_mut()),
            Board::Txrom(b) => Some(b.save_ram_mut()),
            Board::TxSrom(b) => Some(b.save_ram_mut()),
            _ => None,
        }
    }

    pub fn load_save_ram(&mut self, data: &[u8]) -> (r: Result<(), SaveRamError>)
        requires
            old(self).wf(),
        ensures
            final(self).wf(),
            Self::load_save_ram_post(*old(self), *final(self), data@, r),
    {
        match self {
            Board::Mmc1(b) => b.load_save_ram(data),
            Board::Txrom(b) => b.load_save_ram(data),
            Board::TxSrom(b) => b.load_save_ram(data),
            _ => Err(SaveRamError::Unsupported),
        }
    }
}

} // verus!
