use vstd::prelude::*;

use crate::bytes::{copy_bytes, copy_into_bank, zero_bank, zeros};
use crate::cartridge::CartridgeError;
use crate::mapper::{ChrState, Mirroring, SaveRamError};

verus! {

/// Mapper 1: a five-write serial port loads the control and bank registers.
pub struct Mmc1 {
    pub resources: Mmc1Resources,
    pub state: Mmc1State,
}

pub struct Mmc1Resources {
    pub prg_rom: Vec<u8>,
    pub chr_rom: Option<Vec<u8>>,
}

#[derive(Debug, Clone, Copy, PartialEq, Eq)]
pub struct Mmc1State {
    pub prg_ram: [u8; 0x2000],
    pub shift: u8,
    pub shift_count: u8,
    pub control: u8,
    pub chr_bank0: u8,
    pub chr_bank1: u8,
    pub prg_bank: u8,
    pub last_write_cycle: Option<u64>,
    pub chr: ChrState,
}

/// The serial port and the four internal registers of the MMC1.
#[derive(Clone, Copy, PartialEq, Eq, Structural)]
pub struct Mmc1Registers {
    pub shift: u8,
    pub shift_count: u8,
    pub control: u8,
    pub chr_bank0: u8,
    pub chr_bank1: u8,
    pub prg_bank: u8,
    pub last_write_cycle: Option<u64>,
}

/// The error MMC1 raises for PRG and CHR sizes it cannot hold, if any.
pub open spec fn mmc1_size_error(prg_len: nat, chr_len: nat) -> Option<CartridgeError> {
    if prg_len < 0x8000 || prg_len % 0x4000 != 0 || prg_len > 0x40000 {
        Some(CartridgeError::UnsupportedPrgRomSize(prg_len as usize))
    } else if chr_len != 0 && (chr_len % 0x2000 != 0 || chr_len > 0x20000) {
        Some(CartridgeError::UnsupportedChrRomSize(chr_len as usize))
    } else {
        None
    }
}

/// The register written when a fifth serial bit arrives at `addr`.
pub open spec fn commit_register(r: Mmc1Registers, addr: u16, value: u8) -> Mmc1Registers {
    if addr < 0xA000 {
        Mmc1Registers { control: value, ..r }
    } else if addr < 0xC000 {
        Mmc1Registers { chr_bank0: value, ..r }
    } else if addr < 0xE000 {
        Mmc1Registers { chr_bank1: value, ..r }
    } else {
        Mmc1Registers { prg_bank: value, ..r }
    }
}

/// One CPU write of `value` to the serial port at `addr` on CPU cycle `cycle`.
///
/// Bit 7 resets the port and selects the fixed-last-bank PRG mode; a write on
/// the cycle right after the previous one is ignored; otherwise bit 0 is
/// shifted in, and the fifth bit commits the five collected bits.
pub open spec fn serial_write(r: Mmc1Registers, addr: u16, value: u8, cycle: u64) -> Mmc1Registers {
    if value & 0x80 != 0 {
        Mmc1Registers {
            shift: 0,
            shift_count: 0,
            control: r.control | 0x0C,
            last_write_cycle: Some(cycle),
            ..r
        }
    } else if r.last_write_cycle matches Some(c) && c + 1 == cycle {
        Mmc1Registers { last_write_cycle: Some(cycle), ..r }
    } else {
        let shift = (r.shift | ((value & 0x01) << r.shift_count)) as u8;
        if r.shift_count + 1 == 5 {
            let committed = commit_register(r, addr, shift & 0x1F);
            Mmc1Registers { shift: 0, shift_count: 0, last_write_cycle: Some(cycle), ..committed }
        } else {
            Mmc1Registers {
                shift,
                shift_count: (r.shift_count + 1) as u8,
                last_write_cycle: Some(cycle),
                ..r
            }
        }
    }
}

/// The registers after the serial writes `w` (address, value, cycle), in order.
pub open spec fn serial_writes(r: Mmc1Registers, w: Seq<(u16, u8, u64)>) -> Mmc1Registers
    decreases w.len(),
{
    if w.len() == 0 {
        r
    } else {
        serial_write(serial_writes(r, w.drop_last()), w.last().0, w.last().1, w.last().2)
    }
}

/// Whether no write of `w` falls on the cycle right after the write before
/// it, the first one measured against `last`.
pub open spec fn spaced_writes(last: Option<u64>, w: Seq<(u16, u8, u64)>) -> bool {
    &&& w.len() > 0 ==> !(last matches Some(c) && c + 1 == w[0].2)
    &&& forall|i: int| 1 <= i < w.len() ==> #[trigger] w[i].2 != w[i - 1].2 + 1
}

proof fn lemma_five_serial_bits(v0: u8, v1: u8, v2: u8, v3: u8, v4: u8)
    by (bit_vector)
    ensures
        ((((((((((0u8 | ((v0 & 0x01) << 0u8)) as u8) | ((v1 & 0x01) << 1u8)) as u8) | ((v2 & 0x01)
            << 2u8)) as u8) | ((v3 & 0x01) << 3u8)) as u8) | ((v4 & 0x01) << 4u8)) as u8) & 0x1F
            == (v0 & 1) + 2 * (v1 & 1) + 4 * (v2 & 1) + 8 * (v3 & 1) + 16 * (v4 & 1),
{
}

/// Five spaced writes with bit 7 clear, into an empty shift register, load
/// bit 0 of each value (the first write's as the lowest bit) into the
/// register that the fifth write's address selects, and leave the shift
/// register empty again.
pub proof fn lemma_five_writes_commit(r: Mmc1Registers, w: Seq<(u16, u8, u64)>)
    requires
        w.len() == 5,
        r.shift == 0,
        r.shift_count == 0,
        forall|i: int| 0 <= i < 5 ==> #[trigger] w[i].1 < 0x80,
        spaced_writes(r.last_write_cycle, w),
    ensures
        serial_writes(r, w) == (Mmc1Registers {
            shift: 0,
            shift_count: 0,
            last_write_cycle: Some(w[4].2),
            ..commit_register(
                r,
                w[4].0,
                ((w[0].1 & 1) + 2 * (w[1].1 & 1) + 4 * (w[2].1 & 1) + 8 * (w[3].1 & 1) + 16 * (w[4].1
                    & 1)) as u8,
            )
        }),
{
    assert forall|i: int| 0 <= i < 5 implies #[trigger] w[i].1 & 0x80 == 0 by {
        let x = w[i].1;
        assert(x < 0x80 ==> x & 0x80 == 0) by (bit_vector);
    }
    assert(w[1].2 != w[0].2 + 1);
    assert(w[2].2 != w[1].2 + 1);
    assert(w[3].2 != w[2].2 + 1);
    assert(w[4].2 != w[3].2 + 1);
    let r1 = serial_write(r, w[0].0, w[0].1, w[0].2);
    let r2 = serial_write(r1, w[1].0, w[1].1, w[1].2);
    let r3 = serial_write(r2, w[2].0, w[2].1, w[2].2);
    let r4 = serial_write(r3, w[3].0, w[3].1, w[3].2);
    let r5 = serial_write(r4, w[4].0, w[4].1, w[4].2);
    assert(serial_writes(r, w.take(0)) == r);
    assert(serial_writes(r, w.take(1)) == r1) by {
        assert(w.take(1).drop_last() =~= w.take(0));
        assert(w.take(1).last() == w[0]);
    }
    assert(serial_writes(r, w.take(2)) == r2) by {
        assert(w.take(2).drop_last() =~= w.take(1));
        assert(w.take(2).last() == w[1]);
    }
    assert(serial_writes(r, w.take(3)) == r3) by {
        assert(w.take(3).drop_last() =~= w.take(2));
        assert(w.take(3).last() == w[2]);
    }
    assert(serial_writes(r, w.take(4)) == r4) by {
        assert(w.take(4).drop_last() =~= w.take(3));
        assert(w.take(4).last() == w[3]);
    }
    assert(w.drop_last() =~= w.take(4));
    assert(w.take(0).len() == 0);
    lemma_five_serial_bits(w[0].1, w[1].1, w[2].1, w[3].1, w[4].1);
}

impl Mmc1State {
    pub open spec fn registers(self) -> Mmc1Registers {
        Mmc1Registers {
            shift: self.shift,
            shift_count: self.shift_count,
            control: self.control,
            chr_bank0: self.chr_bank0,
            chr_bank1: self.chr_bank1,
            prg_bank: self.prg_bank,
            last_write_cycle: self.last_write_cycle,
        }
    }

    pub open spec fn prg_ram_enabled(self) -> bool {
        self.prg_bank & 0x10 == 0
    }
}

/// An even number reduced modulo an even modulus stays even, leaving room for
/// the following odd bank.
proof fn lemma_even_mod_even(e: int, m: int)
    requires
        e >= 0,
        e % 2 == 0,
        m >= 2,
        m % 2 == 0,
    ensures
        (e % m) % 2 == 0,
        e % m + 2 <= m,
{
    let k = m / 2;
    let q = e / m;
    let r = e % m;
    vstd::arithmetic::div_mod::lemma_fundamental_div_mod(e, m);
    assert(q * m == 2 * (q * k)) by (nonlinear_arith)
        requires
            m == 2 * k,
    ;
    assert(e == q * m + r);
    assert(r % 2 == 0);
}

impl Mmc1 {
    pub open spec fn chr_bytes(self) -> Seq<u8> {
        match self.state.chr {
            ChrState::Rom => match self.resources.chr_rom {
                Some(rom) => rom@,
                None => Seq::empty(),
            },
            ChrState::Ram(ram) => ram@,
        }
    }

    pub open spec fn wf(self) -> bool {
        let prg_len = self.resources.prg_rom@.len();
        &&& prg_len >= 0x8000 && prg_len % 0x4000 == 0 && prg_len <= 0x40000
        &&& self.state.prg_ram@.len() == 0x2000
        &&& self.state.shift_count < 5
        &&& match self.state.chr {
            ChrState::Rom => (self.resources.chr_rom matches Some(rom) && rom@.len() > 0
                && rom@.len() % 0x2000 == 0 && rom@.len() <= 0x20000),
            ChrState::Ram(ram) => self.resources.chr_rom is None && ram@.len() == 0x2000,
        }
    }

    /// The board as loaded from PRG bytes `prg` and CHR bytes `chr`.
    pub open spec fn fresh(self, prg: Seq<u8>, chr: Seq<u8>) -> bool {
        &&& self.resources.prg_rom@ == prg
        &&& self.state.prg_ram@ == zeros(0x2000)
        &&& self.state.registers() == (Mmc1Registers {
            shift: 0,
            shift_count: 0,
            control: 0x0C,
            chr_bank0: 0,
            chr_bank1: 0,
            prg_bank: 0,
            last_write_cycle: None,
        })
        &&& if chr.len() == 0 {
            self.state.chr matches ChrState::Ram(ram) && ram@ == zeros(0x2000)
        } else {
            self.state.chr is Rom && (self.resources.chr_rom matches Some(rom) && rom@ == chr)
        }
    }

    pub open spec fn spec_mirroring(self) -> Mirroring {
        let mode = self.state.control % 4;
        if mode == 0 {
            Mirroring::SingleScreenLower
        } else if mode == 1 {
            Mirroring::SingleScreenUpper
        } else if mode == 2 {
            Mirroring::Vertical
        } else {
            Mirroring::Horizontal
        }
    }

    /// PRG ROM bank (of 16 KiB) and offset inside it that `addr >= $8000` selects.
    pub open spec fn prg_rom_bank(self, addr: u16) -> (int, int) {
        let bank_count = self.resources.prg_rom@.len() / 0x4000;
        let prg_mode = (self.state.control / 4) % 4;
        let selected = (self.state.prg_bank % 16) as int % bank_count as int;
        if prg_mode < 2 {
            (selected - selected % 2 + (addr - 0x8000) / 0x4000, (addr % 0x4000) as int)
        } else if prg_mode == 2 {
            if addr < 0xC000 { (0, addr - 0x8000) } else { (selected, addr - 0xC000) }
        } else {
            if addr < 0xC000 { (selected, addr - 0x8000) } else { (bank_count - 1, addr - 0xC000) }
        }
    }

    /// Where CPU reads of `$8000-$FFFF` land in PRG ROM, from the registers.
    /// With `n` 16 KiB banks and `b` the PRG bank register's low four bits
    /// reduced modulo `n`: in modes 0 and 1 (control bits 2-3) the 32 KiB at
    /// `$8000` are banks `b` rounded down to even and the one after it; in
    /// mode 2 bank 0 is fixed at `$8000` and bank `b` switched in at `$C000`;
    /// in mode 3 bank `b` is switched in at `$8000` and the last bank fixed at
    /// `$C000`. `o` is the offset within a 16 KiB window.
    pub proof fn lemma_prg_rom_mapping(self, o: int)
        requires
            self.wf(),
            0 <= o < 0x4000,
        ensures
            ({
                let prg = self.resources.prg_rom@;
                let n = prg.len() / 0x4000;
                let b = (self.state.prg_bank % 16) as int % n as int;
                let mode = (self.state.control / 4) % 4;
                let low = self.spec_cpu_read((0x8000 + o) as u16);
                let high = self.spec_cpu_read((0xC000 + o) as u16);
                &&& mode < 2 ==> low == Some(prg[((b - b % 2) % n as int) * 0x4000 + o]) && high == Some(
                    prg[((b - b % 2 + 1) % n as int) * 0x4000 + o],
                )
                &&& mode == 2 ==> low == Some(prg[o]) && high == Some(prg[b * 0x4000 + o])
                &&& mode == 3 ==> low == Some(prg[b * 0x4000 + o]) && high == Some(
                    prg[(n - 1) * 0x4000 + o],
                )
            }),
    {
        let n = self.resources.prg_rom@.len() / 0x4000;
        let lo_addr = (0x8000 + o) as u16;
        let hi_addr = (0xC000 + o) as u16;
        assert(lo_addr % 0x4000 == o);
        assert(hi_addr % 0x4000 == o);
        assert((lo_addr - 0x8000) / 0x4000 == 0);
        assert((hi_addr - 0x8000) / 0x4000 == 1);
        let b = (self.state.prg_bank % 16) as int % n as int;
        assert(n >= 2);
        assert(0 <= b < n) by (nonlinear_arith)
            requires
                b == (self.state.prg_bank % 16) as int % n as int,
                n >= 2,
        ;
        assert(b % n as int == b) by (nonlinear_arith)
            requires
                0 <= b < n,
        ;
        assert((n - 1) % n as int == n - 1) by (nonlinear_arith)
            requires
                n >= 2,
        ;
        assert(0int % n as int == 0) by (nonlinear_arith)
            requires
                n >= 2,
        ;
    }

    pub open spec fn spec_cpu_read(self, addr: u16) -> Option<u8> {
        if 0x6000 <= addr < 0x8000 {
            if self.state.prg_ram_enabled() {
                Some(self.state.prg_ram@[addr - 0x6000])
            } else {
                None
            }
        } else if addr >= 0x8000 {
            let (bank, offset) = self.prg_rom_bank(addr);
            let bank_count = self.resources.prg_rom@.len() / 0x4000;
            Some(self.resources.prg_rom@[(bank % bank_count as int) * 0x4000 + offset])
        } else {
            None
        }
    }

    /// Offset into CHR memory that a pattern-table address selects.
    pub open spec fn chr_offset(self, addr: u16) -> int {
        let bank_count = self.chr_bytes().len() / 0x1000;
        if self.state.control & 0x10 != 0 {
            if addr < 0x1000 {
                (self.state.chr_bank0 as int % bank_count as int) * 0x1000 + addr
            } else {
                (self.state.chr_bank1 as int % bank_count as int) * 0x1000 + addr - 0x1000
            }
        } else {
            let even = self.state.chr_bank0 - self.state.chr_bank0 % 2;
            (even % bank_count as int) * 0x1000 + addr
        }
    }

    pub open spec fn spec_ppu_read(self, addr: u16) -> Option<u8> {
        if addr < 0x2000 {
            Some(self.chr_bytes()[self.chr_offset(addr)])
        } else {
            None
        }
    }

    pub open spec fn chr_after_ppu_write(self, addr: u16, value: u8) -> Seq<u8> {
        if self.state.chr is Ram && addr < 0x2000 {
            self.chr_bytes().update(self.chr_offset(addr), value)
        } else {
            self.chr_bytes()
        }
    }

    pub fn new(prg: &[u8], chr: &[u8]) -> (r: Result<Self, CartridgeError>)
        ensures
            match r {
                Ok(board) => mmc1_size_error(prg@.len(), chr@.len()) is None && board.wf()
                    && board.fresh(prg@, chr@),
                Err(e) => mmc1_size_error(prg@.len(), chr@.len()) == Some(e),
            },
    {
        if prg.len() < 0x8000 || prg.len() % 0x4000 != 0 {
            return Err(CartridgeError::UnsupportedPrgRomSize(prg.len()));
        }
        if prg.len() > 0x40000 {
            return Err(CartridgeError::UnsupportedPrgRomSize(prg.len()));
        }

        let (chr_rom, chr_state) = if chr.len() == 0 {
            (None, ChrState::Ram(zero_bank()))
        } else if chr.len() % 0x2000 == 0 && chr.len() <= 0x20000 {
            (Some(copy_bytes(chr)), ChrState::Rom)
        } else {
            return Err(CartridgeError::UnsupportedChrRomSize(chr.len()));
        };

        Ok(Mmc1 {
            resources: Mmc1Resources { prg_rom: copy_bytes(prg), chr_rom },
            state: Mmc1State {
                prg_ram: zero_bank(),
                shift: 0,
                shift_count: 0,
                control: 0x0C,
                chr_bank0: 0,
                chr_bank1: 0,
                prg_bank: 0,
                last_write_cycle: None,
                chr: chr_state,
            },
        })
    }

    fn write_serial(&mut self, addr: u16, value: u8, cycle_count: u64)
        requires
            old(self).wf(),
            addr >= 0x8000,
        ensures
            final(self).wf(),
            final(self).resources == old(self).resources,
            final(self).state.prg_ram == old(self).state.prg_ram,
            final(self).state.chr == old(self).state.chr,
            final(self).state.registers() == serial_write(
                old(self).state.registers(),
                addr,
                value,
                cycle_count,
            ),
    {
        if value & 0x80 != 0 {
            self.state.shift = 0;
            self.state.shift_count = 0;
            self.state.control = self.state.control | 0x0C;
            self.state.last_write_cycle = Some(cycle_count);
            return;
        }

        let consecutive = match self.state.last_write_cycle {
            Some(c) => c < u64::MAX && c + 1 == cycle_count,
            None => false,
        };
        if consecutive {
            self.state.last_write_cycle = Some(cycle_count);
            return;
        }

        self.state.last_write_cycle = Some(cycle_count);
        let bit: u8 = value & 0x01;
        let count: u8 = self.state.shift_count;
        assert(bit < 2 && count < 5 ==> (bit << count) < 32) by (bit_vector);
        self.state.shift = self.state.shift | (bit << count);
        self.state.shift_count = count + 1;

        if self.state.shift_count == 5 {
            let committed = self.state.shift & 0x1F;
            if addr < 0xA000 {
                self.state.control = committed;
            } else if addr < 0xC000 {
                self.state.chr_bank0 = committed;
            } else if addr < 0xE000 {
                self.state.chr_bank1 = committed;
            } else {
                self.state.prg_bank = committed;
            }
            self.state.shift = 0;
            self.state.shift_count = 0;
        }
    }

    pub fn mirroring(&self) -> (m: Mirroring)
        ensures
            m == self.spec_mirroring(),
    {
        let mode = self.state.control % 4;
        if mode == 0 {
            Mirroring::SingleScreenLower
        } else if mode == 1 {
            Mirroring::SingleScreenUpper
        } else if mode == 2 {
            Mirroring::Vertical
        } else {
            Mirroring::Horizontal
        }
    }

    fn prg_rom_read(&self, addr: u16) -> (r: u8)
        requires
            self.wf(),
            addr >= 0x8000,
        ensures
            Some(r) == self.spec_cpu_read(addr),
    {
        let bank_count = self.resources.prg_rom.len() / 0x4000;
        let prg_mode = (self.state.control / 4) % 4;
        let selected = (self.state.prg_bank % 16) as usize % bank_count;

        let (bank, offset) = if prg_mode < 2 {
            (selected - selected % 2 + (addr - 0x8000) as usize / 0x4000, addr as usize % 0x4000)
        } else if prg_mode == 2 {
            if addr < 0xC000 {
                (0, (addr - 0x8000) as usize)
            } else {
                (selected, (addr - 0xC000) as usize)
            }
        } else {
            if addr < 0xC000 {
                (selected, (addr - 0x8000) as usize)
            } else {
                (bank_count - 1, (addr - 0xC000) as usize)
            }
        };

        assert(bank % bank_count < bank_count);
        assert((bank % bank_count) * 0x4000 + offset < bank_count * 0x4000) by (nonlinear_arith)
            requires
                bank % bank_count < bank_count,
                offset < 0x4000,
        ;
        self.resources.prg_rom[(bank % bank_count) * 0x4000 + offset]
    }

    fn chr_len(&self) -> (len: usize)
        requires
            self.wf(),
        ensures
            len == self.chr_bytes().len(),
    {
        match &self.state.chr {
            ChrState::Rom => match &self.resources.chr_rom {
                Some(rom) => rom.len(),
                None => 0,
            },
            ChrState::Ram(bytes) => bytes.len(),
        }
    }

    fn chr_offset_of(&self, addr: u16) -> (offset: usize)
        requires
            self.wf(),
            addr < 0x2000,
        ensures
            offset == self.chr_offset(addr),
            offset < self.chr_bytes().len(),
    {
        let len = self.chr_len();
        let bank_count = len / 0x1000;
        assert(bank_count >= 2 && bank_count % 2 == 0);
        if self.state.control & 0x10 != 0 {
            if addr < 0x1000 {
                let bank = self.state.chr_bank0 as usize % bank_count;
                assert(bank * 0x1000 + 0x1000 <= bank_count * 0x1000) by (nonlinear_arith)
                    requires bank < bank_count;
                bank * 0x1000 + addr as usize
            } else {
                let bank = self.state.chr_bank1 as usize % bank_count;
                assert(bank * 0x1000 + 0x1000 <= bank_count * 0x1000) by (nonlinear_arith)
                    requires bank < bank_count;
                bank * 0x1000 + (addr as usize - 0x1000)
            }
        } else {
            let even = (self.state.chr_bank0 - self.state.chr_bank0 % 2) as usize;
            let bank = even % bank_count;
            proof {
                lemma_even_mod_even(even as int, bank_count as int);
            }
            assert(bank * 0x1000 + 0x2000 <= bank_count * 0x1000) by (nonlinear_arith)
                requires bank + 2 <= bank_count;
            bank * 0x1000 + addr as usize
        }
    }

    pub fn cpu_read(&self, addr: u16) -> (r: Option<u8>)
        requires
            self.wf(),
        ensures
            r == self.spec_cpu_read(addr),
    {
        if 0x6000 <= addr && addr < 0x8000 {
            if self.state.prg_bank & 0x10 == 0 {
                Some(self.state.prg_ram[(addr - 0x6000) as usize])
            } else {
                None
            }
        } else if addr >= 0x8000 {
            Some(self.prg_rom_read(addr))
        } else {
            None
        }
    }

    pub open spec fn cpu_write_post(pre: Self, post: Self, addr: u16, value: u8, cycle: u64) -> bool {
        &&& post.wf()
        &&& post.resources == pre.resources
        &&& post.state.chr == pre.state.chr
        &&& post.state.prg_ram@ == if 0x6000 <= addr < 0x8000
            && pre.state.prg_ram_enabled() {
            pre.state.prg_ram@.update(addr - 0x6000, value)
        } else {
            pre.state.prg_ram@
        }
        &&& post.state.registers() == if addr >= 0x8000 {
            serial_write(pre.state.registers(), addr, value, cycle)
        } else {
            pre.state.registers()
        }
    }

    pub fn cpu_write(&mut self, addr: u16, value: u8, cycle_count: u64)
        requires
            old(self).wf(),
        ensures
            Self::cpu_write_post(*old(self), *final(self), addr, value, cycle_count),

    {
        if 0x6000 <= addr && addr < 0x8000 {
            if self.state.prg_bank & 0x10 == 0 {
                self.state.prg_ram[(addr - 0x6000) as usize] = value;
            }
        } else if addr >= 0x8000 {
            self.write_serial(addr, value, cycle_count);
        }
    }

    pub fn ppu_read(&self, addr: u16) -> (r: Option<u8>)
        requires
            self.wf(),
        ensures
            r == self.spec_ppu_read(addr),
    {
        if addr >= 0x2000 {
            return None;
        }
        let offset = self.chr_offset_of(addr);
        match &self.state.chr {
            ChrState::Rom => match &self.resources.chr_rom {
                Some(rom) => Some(rom[offset]),
                None => None,
            },
            ChrState::Ram(bytes) => Some(bytes[offset]),
        }
    }

    pub open spec fn ppu_write_post(pre: Self, post: Self, addr: u16, value: u8) -> bool {
        &&& post.wf()
        &&& post.resources == pre.resources
        &&& post.state.registers() == pre.state.registers()
        &&& post.state.prg_ram == pre.state.prg_ram
        &&& post.state.chr is Ram <==> pre.state.chr is Ram
        &&& post.chr_bytes() == pre.chr_after_ppu_write(addr, value)
    }

    pub fn ppu_write(&mut self, addr: u16, value: u8)
        requires
            old(self).wf(),
        ensures
            Self::ppu_write_post(*old(self), *final(self), addr, value),

    {
        if addr >= 0x2000 {
            return;
        }
        let offset = self.chr_offset_of(addr);
        if let ChrState::Ram(bytes) = &mut self.state.chr {
            bytes[offset] = value;
        }
    }

    pub fn save_ram(&self) -> (r: &[u8])
        ensures
            r@ == self.state.prg_ram@,
    {
        self.state.prg_ram.as_slice()
    }

    pub fn save_ram_mut(&mut self) -> (r: &mut [u8])
        ensures
            r@ == old(self).state.prg_ram@,
            final(r)@ == final(self).state.prg_ram@,
            final(self).resources == old(self).resources,
            final(self).state.registers() == old(self).state.registers(),
            final(self).state.chr == old(self).state.chr,
    {
        &mut self.state.prg_ram
    }

    pub open spec fn load_save_ram_post(pre: Self, post: Self, data: Seq<u8>, r: Result<(), SaveRamError>) -> bool {
        &&& post.wf()
        &&& post.resources == pre.resources
        &&& post.state.registers() == pre.state.registers()
        &&& post.state.chr == pre.state.chr
        &&& match r {
            Ok(()) => data.len() == 0x2000 && post.state.prg_ram@ == data,
            Err(e) => data.len() != 0x2000 && e == (SaveRamError::InvalidSize {
                expected: 0x2000,
                actual: data.len() as usize,
            }) && post.state.prg_ram == pre.state.prg_ram,
        }
    }

    pub fn load_save_ram(&mut self, data: &[u8]) -> (r: Result<(), SaveRamError>)
        requires
            old(self).wf(),
        ensures
            Self::load_save_ram_post(*old(self), *final(self), data@, r),

    {
        if data.len() != self.state.prg_ram.len() {
            return Err(SaveRamError::InvalidSize { expected: self.state.prg_ram.len(), actual: data.len() });
        }
        copy_into_bank(&mut self.state.prg_ram, data);
        Ok(())
    }
}

} // verus!
