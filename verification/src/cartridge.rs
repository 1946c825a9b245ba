use vstd::prelude::*;

use crate::mapper::cnrom::{cnrom_size_error, Cnrom};
use crate::mapper::mmc1::{mmc1_size_error, Mmc1};
use crate::mapper::nrom::{nrom_size_error, Nrom};
use crate::mapper::tqrom::{tqrom_size_error, Tqrom};
use crate::mapper::txrom::{txrom_size_error, Txrom};
use crate::mapper::txsrom::{txsrom_size_error, TxSrom};
use crate::mapper::uxrom::{uxrom_size_error, Uxrom};
use crate::mapper::{Board, BoardState, Mirroring, SaveRamError};

verus! {

/// Why an iNES image could not be loaded.
#[derive(Debug, Clone, Copy, PartialEq, Eq, Structural)]
pub enum CartridgeError {
    InvalidHeader,
    UnsupportedVersion,
    UnsupportedMapper(u8),
    UnsupportedPrgRomSize(usize),
    Truncated,
    UnsupportedChrRomSize(usize),
}

/// A loaded game: its mapper board, whether its PRG RAM is battery backed,
/// and the identity of the image it was loaded from.
pub struct Cartridge {
    pub board: Board,
    pub has_battery: bool,
    pub id: CartridgeId,
}

/// The BLAKE3 digest of the iNES image a cartridge was loaded from.
#[derive(Debug, Clone, Copy, PartialEq, Eq)]
pub struct CartridgeId(pub [u8; 32]);

impl CartridgeId {
    pub fn as_bytes(&self) -> (b: &[u8; 32])
        ensures
            *b == self.0,
    {
        &self.0
    }

    /// Byte-for-byte equality.
    pub fn same_as(&self, other: &CartridgeId) -> (b: bool)
        ensures
            b == (self.0@ == other.0@),
    {
        let mut i: usize = 0;
        while i < 32
            invariant
                i <= 32,
                forall|j: int| 0 <= j < i ==> self.0@[j] == other.0@[j],
            decreases 32 - i,
        {
            if self.0[i] != other.0[i] {
                return false;
            }
            i += 1;
        }
        assert(self.0@ =~= other.0@);
        true
    }
}

/// What `blake3::hash` returns for `data`, as bytes.
pub uninterp spec fn blake3_digest(data: Seq<u8>) -> Seq<u8>;

/// Calls `blake3::hash` (the crate's one-shot BLAKE3 hash) and returns its 32
/// bytes; the contract says only that they are the digest of `data`, a
/// function of `data` alone.
#[verifier::external_body]
pub(crate) fn blake3_hash(data: &[u8]) -> (digest: [u8; 32])
    ensures
        digest@ == blake3_digest(data@),
{
    *blake3::hash(data).as_bytes()
}

/// The iNES magic `NES<EOF>` at the start of the image.
pub open spec fn has_ines_magic(b: Seq<u8>) -> bool {
    b.len() >= 16 && b[0] == 0x4E && b[1] == 0x45 && b[2] == 0x53 && b[3] == 0x1A
}

/// Flags 6 bit 3 selects four-screen VRAM, else bit 0 selects vertical mirroring.
pub open spec fn ines_mirroring(flags6: u8) -> Mirroring {
    if flags6 & 0x08 != 0 {
        Mirroring::FourScreen
    } else if flags6 & 0x01 != 0 {
        Mirroring::Vertical
    } else {
        Mirroring::Horizontal
    }
}

/// The mapper number: low nibble from flags 6, high nibble from flags 7.
pub open spec fn ines_mapper_id(b: Seq<u8>) -> u8 {
    (b[6] >> 4) | (b[7] & 0xF0)
}

/// PRG ROM starts after the 16-byte header and the optional 512-byte trainer.
pub open spec fn ines_prg_start(b: Seq<u8>) -> int {
    16 + if b[6] & 0x04 != 0 { 512int } else { 0int }
}

pub open spec fn ines_prg_len(b: Seq<u8>) -> int {
    b[4] * 0x4000
}

pub open spec fn ines_chr_len(b: Seq<u8>) -> int {
    b[5] * 0x2000
}

pub open spec fn ines_prg(b: Seq<u8>) -> Seq<u8> {
    b.subrange(ines_prg_start(b), ines_prg_start(b) + ines_prg_len(b))
}

pub open spec fn ines_chr(b: Seq<u8>) -> Seq<u8> {
    let chr_start = ines_prg_start(b) + ines_prg_len(b);
    b.subrange(chr_start, chr_start + ines_chr_len(b))
}

/// Errors found in the header alone, in the order they are checked.
pub open spec fn ines_header_error(b: Seq<u8>) -> Option<CartridgeError> {
    if !has_ines_magic(b) {
        Some(CartridgeError::InvalidHeader)
    } else if b[7] & 0x0C == 0x08 {
        Some(CartridgeError::UnsupportedVersion)
    } else if b.len() < ines_prg_start(b) + ines_prg_len(b) + ines_chr_len(b) {
        Some(CartridgeError::Truncated)
    } else {
        None
    }
}

/// The error the board for `mapper_id` raises for these ROM sizes, or
/// `UnsupportedMapper` for a mapper with no board.
pub open spec fn board_error(mapper_id: u8, prg_len: nat, chr_len: nat) -> Option<CartridgeError> {
    if mapper_id == 0 {
        nrom_size_error(prg_len, chr_len)
    } else if mapper_id == 1 {
        mmc1_size_error(prg_len, chr_len)
    } else if mapper_id == 2 {
        uxrom_size_error(prg_len, chr_len)
    } else if mapper_id == 3 {
        cnrom_size_error(prg_len, chr_len)
    } else if mapper_id == 4 {
        txrom_size_error(prg_len, chr_len)
    } else if mapper_id == 118 {
        txsrom_size_error(prg_len, chr_len)
    } else if mapper_id == 119 {
        tqrom_size_error(prg_len, chr_len)
    } else {
        Some(CartridgeError::UnsupportedMapper(mapper_id))
    }
}

/// The error `from_ines` reports for image `b`, or `None` when it loads.
pub open spec fn ines_error(b: Seq<u8>) -> Option<CartridgeError> {
    if ines_header_error(b) is Some {
        ines_header_error(b)
    } else {
        board_error(ines_mapper_id(b), ines_prg(b).len(), ines_chr(b).len())
    }
}

impl Board {
    /// The board for `mapper_id` freshly loaded with `prg` and `chr`.
    pub open spec fn fresh(self, mapper_id: u8, prg: Seq<u8>, chr: Seq<u8>, mirroring: Mirroring) -> bool {
        match self {
            Board::Nrom(b) => mapper_id == 0 && b.fresh(prg, chr, mirroring),
            Board::Mmc1(b) => mapper_id == 1 && b.fresh(prg, chr),
            Board::Uxrom(b) => mapper_id == 2 && b.fresh(prg, chr, mirroring),
            Board::Cnrom(b) => mapper_id == 3 && b.fresh(prg, chr, mirroring),
            Board::Txrom(b) => mapper_id == 4 && b.fresh(prg, chr, mirroring),
            Board::TxSrom(b) => mapper_id == 118 && b.fresh(prg, chr),
            Board::Tqrom(b) => mapper_id == 119 && b.fresh(prg, chr, mirroring),
        }
    }
}

impl Cartridge {
    pub open spec fn wf(self) -> bool {
        self.board.wf()
    }

    /// Battery-backed RAM, exposed only when the header declares a battery.
    pub open spec fn spec_save_ram(self) -> Option<Seq<u8>> {
        if self.has_battery {
            self.board.spec_save_ram()
        } else {
            None
        }
    }

    /// Parses an iNES image and builds the board its mapper number names.
    pub fn from_ines(bytes: &[u8]) -> (r: Result<Self, CartridgeError>)
        ensures
            match r {
                Ok(c) => {
                    &&& ines_error(bytes@) is None
                    &&& c.wf()
                    &&& c.has_battery == (bytes@[6] & 0x02 != 0)
                    &&& c.id.0@ == blake3_digest(bytes@)
                    &&& c.board.fresh(
                        ines_mapper_id(bytes@),
                        ines_prg(bytes@),
                        ines_chr(bytes@),
                        ines_mirroring(bytes@[6]),
                    )
                },
                Err(e) => ines_error(bytes@) == Some(e),
            },
    {
        if bytes.len() < 16 || bytes[0] != 0x4E || bytes[1] != 0x45 || bytes[2] != 0x53
            || bytes[3] != 0x1A {
            return Err(CartridgeError::InvalidHeader);
        }

        let prg_banks = bytes[4] as usize;
        let chr_banks = bytes[5] as usize;
        let flags6 = bytes[6];
        let flags7 = bytes[7];

        if flags7 & 0x0C == 0x08 {
            return Err(CartridgeError::UnsupportedVersion);
        }

        let mirroring = if flags6 & 0x08 != 0 {
            Mirroring::FourScreen
        } else if flags6 & 0x01 != 0 {
            Mirroring::Vertical
        } else {
            Mirroring::Horizontal
        };

        let mapper_id = (flags6 >> 4) | (flags7 & 0xF0);
        let has_battery = flags6 & 0x02 != 0;
        let has_trainer = flags6 & 0x04 != 0;
        let prg_start: usize = 16 + if has_trainer { 512 } else { 0 };
        let prg_len = prg_banks * 0x4000;
        let chr_len = chr_banks * 0x2000;
        let chr_start = prg_start + prg_len;
        let total_len = chr_start + chr_len;

        if bytes.len() < total_len {
            return Err(CartridgeError::Truncated);
        }

        let prg = vstd::slice::slice_subrange(bytes, prg_start, chr_start);
        let chr = vstd::slice::slice_subrange(bytes, chr_start, total_len);
        assert(prg@ == ines_prg(bytes@));
        assert(chr@ == ines_chr(bytes@));

        let board = if mapper_id == 0 {
            match Nrom::new(prg, chr, mirroring) {
                Ok(b) => Board::Nrom(b),
                Err(e) => return Err(e),
            }
        } else if mapper_id == 1 {
            match Mmc1::new(prg, chr) {
                Ok(b) => Board::Mmc1(b),
                Err(e) => return Err(e),
            }
        } else if mapper_id == 2 {
            match Uxrom::new(prg, chr, mirroring) {
                Ok(b) => Board::Uxrom(b),
                Err(e) => return Err(e),
            }
        } else if mapper_id == 3 {
            match Cnrom::new(prg, chr, mirroring) {
                Ok(b) => Board::Cnrom(b),
                Err(e) => return Err(e),
            }
        } else if mapper_id == 4 {
            match Txrom::new(prg, chr, mirroring) {
                Ok(b) => Board::Txrom(b),
                Err(e) => return Err(e),
            }
        } else if mapper_id == 118 {
            match TxSrom::new(prg, chr, mirroring) {
                Ok(b) => Board::TxSrom(b),
                Err(e) => return Err(e),
            }
        } else if mapper_id == 119 {
            match Tqrom::new(prg, chr, mirroring) {
                Ok(b) => Board::Tqrom(b),
                Err(e) => return Err(e),
            }
        } else {
            return Err(CartridgeError::UnsupportedMapper(mapper_id));
        };

        let id = CartridgeId(blake3_hash(bytes));
        Ok(Cartridge { board, has_battery, id })
    }

    /// The board's running state.
    pub fn board_state(&self) -> (s: BoardState)
        ensures
            s == self.board.spec_state(),
    {
        self.board.state()
    }

    /// Put back a running state taken from a board like this one.
    pub fn restore_board_state(&mut self, s: BoardState)
        requires
            old(self).board.spec_fits(s),
        ensures
            *final(self) == (Cartridge { board: old(self).board.with_state(s), ..*old(self) }),
            final(self).wf(),
    {
        self.board.restore_state(s);
    }

    pub fn has_battery(&self) -> (b: bool)
        ensures
            b == self.has_battery,
    {
        self.has_battery
    }

    pub fn save_ram(&self) -> (r: Option<&[u8]>)
        ensures
            match r {
                Some(s) => self.spec_save_ram() == Some(s@),
                None => self.spec_save_ram() is None,
            },
    {
        if self.has_battery {
            self.board.save_ram()
        } else {
            None
        }
    }

    pub fn save_ram_mut(&mut self) -> (r: Option<&mut [u8]>)
        ensures
            r is Some <==> old(self).spec_save_ram() is Some,
            r matches Some(s) ==> Some(s@) == old(self).spec_save_ram(),
            r matches Some(s) ==> Some(final(s)@) == final(self).spec_save_ram(),
            final(self).has_battery == old(self).has_battery,
            final(self).id == old(self).id,
            old(self).wf() ==> final(self).wf(),
    {
        if self.has_battery {
            self.board.save_ram_mut()
        } else {
            None
        }
    }

    pub open spec fn load_save_ram_post(
        pre: Self,
        post: Self,
        data: Seq<u8>,
        r: Result<(), SaveRamError>,
    ) -> bool {
        &&& post.has_battery == pre.has_battery
        &&& post.id == pre.id
        &&& if pre.has_battery {
            Board::load_save_ram_post(pre.board, post.board, data, r)
        } else {
            r == Err::<(), SaveRamError>(SaveRamError::NotBatteryBacked) && post.board == pre.board
        }
    }

    /// Battery-backed RAM reads back exactly what was loaded into it; a load
    /// that is refused leaves it as it was. Loading succeeds exactly when the
    /// cartridge has battery-backed RAM and the data has its size (8 KiB).
    pub proof fn lemma_save_ram_round_trip(
        pre: Self,
        post: Self,
        data: Seq<u8>,
        r: Result<(), SaveRamError>,
    )
        requires
            pre.wf(),
            post.wf(),
            Self::load_save_ram_post(pre, post, data, r),
        ensures
            r is Ok <==> (pre.spec_save_ram() is Some && data.len() == 0x2000),
            r is Ok ==> post.spec_save_ram() == Some(data),
            r is Err ==> post.spec_save_ram() == pre.spec_save_ram(),
            !pre.has_battery ==> r == Err::<(), SaveRamError>(SaveRamError::NotBatteryBacked),
            pre.spec_save_ram() matches Some(ram) ==> ram.len() == 0x2000,
    {
    }

    /// After a successful load, a CPU read of `$6000 + i` returns the `i`th
    /// loaded byte whenever it returned a byte before the load (the board's
    /// PRG RAM is enabled), and still nothing where it returned nothing.
    pub proof fn lemma_loaded_save_ram_reads(
        pre: Self,
        post: Self,
        data: Seq<u8>,
        r: Result<(), SaveRamError>,
        i: int,
    )
        requires
            pre.wf(),
            post.wf(),
            Self::load_save_ram_post(pre, post, data, r),
            r is Ok,
            0 <= i < 0x2000,
        ensures
            post.board.spec_cpu_read((0x6000 + i) as u16) == if pre.board.spec_cpu_read(
                (0x6000 + i) as u16,
            ) is Some {
                Some(data[i])
            } else {
                None::<u8>
            },
    {
    }

    /// Loads battery-backed RAM; a cartridge without a battery refuses.
    pub fn load_save_ram(&mut self, data: &[u8]) -> (r: Result<(), SaveRamError>)
        requires
            old(self).wf(),
        ensures
            final(self).wf(),
            Self::load_save_ram_post(*old(self), *final(self), data@, r),
    {
        if !self.has_battery {
            return Err(SaveRamError::NotBatteryBacked);
        }
        self.board.load_save_ram(data)
    }

    pub fn mirroring(&self) -> (m: Mirroring)
        ensures
            m == self.board.spec_mirroring(),
    {
        self.board.mirroring()
    }

    pub fn nametable_index(&self, addr: u16) -> (index: usize)
        requires
            addr >= 0x2000,
        ensures
            index == self.board.spec_nametable_index(addr),
            index < 0x1000,
    {
        self.board.nametable_index(addr)
    }

    pub fn cpu_read(&self, addr: u16) -> (r: Option<u8>)
        requires
            self.wf(),
        ensures
            r == self.board.spec_cpu_read(addr),
    {
        self.board.cpu_read(addr)
    }

    pub fn cpu_write(&mut self, addr: u16, value: u8, cycle_count: u64)
        requires
            old(self).wf(),
        ensures
            final(self).wf(),
            final(self).has_battery == old(self).has_battery,
            final(self).id == old(self).id,
            Board::cpu_write_post(old(self).board, final(self).board, addr, value, cycle_count),
    {
        self.board.cpu_write(addr, value, cycle_count);
    }

    pub fn ppu_read(&self, addr: u16) -> (r: Option<u8>)
        requires
            self.wf(),
        ensures
            r == self.board.spec_ppu_read(addr),
    {
        self.board.ppu_read(addr)
    }

    pub fn ppu_write(&mut self, addr: u16, value: u8)
        requires
            old(self).wf(),
        ensures
            final(self).wf(),
            final(self).has_battery == old(self).has_battery,
            final(self).id == old(self).id,
            Board::ppu_write_post(old(self).board, final(self).board, addr, value),
    {
        self.board.ppu_write(addr, value);
    }

    pub fn irq_asserted(&self) -> (b: bool)
        ensures
            b == self.board.spec_irq_asserted(),
    {
        self.board.irq_asserted()
    }

    pub fn observe_ppu_addr(&mut self, addr: u16, ppu_cycle: u64)
        requires
            old(self).wf(),
        ensures
            final(self).wf(),
            final(self).has_battery == old(self).has_battery,
            final(self).id == old(self).id,
            Board::observe_post(old(self).board, final(self).board, addr, ppu_cycle),
    {
        self.board.observe_ppu_addr(addr, ppu_cycle);
    }
}

} // verus!
