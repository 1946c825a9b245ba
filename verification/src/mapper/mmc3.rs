use vstd::prelude::*;

verus! {

broadcast use vstd::array::group_array_axioms;

/// The MMC3 bank registers, IRQ counter and A12 edge filter shared by the
/// TxROM-family boards.
#[derive(Debug, Clone, Copy, PartialEq, Eq)]
pub struct Mmc3State {
    pub bank_select: u8,
    pub bank_registers: [u8; 8],
    pub irq_latch: u8,
    pub irq_counter: u8,
    pub irq_reload: bool,
    pub irq_enabled: bool,
    pub irq_pending: bool,
    pub a12_filter: A12FilterState,
}

/// Whether PPU A12 has been seen low, and since which PPU cycle.
#[derive(Debug, Clone, Copy, PartialEq, Eq, Structural)]
pub enum A12FilterState {
    NoLowInterval,
    LowSince(u64),
}

/// The PRG RAM enable and write-protect bits written at `$A001`.
#[derive(Debug, Clone, Copy, PartialEq, Eq, Structural)]
pub struct Mmc3PrgRamControl {
    pub enabled: bool,
    pub write_protect: bool,
}

impl Mmc3PrgRamControl {
    pub open spec fn spec_writable(self) -> bool {
        self.enabled && !self.write_protect
    }

    pub fn new() -> (c: Self)
        ensures
            c.enabled,
            !c.write_protect,
    {
        Mmc3PrgRamControl { enabled: true, write_protect: false }
    }

    pub fn enabled(self) -> (e: bool)
        ensures
            e == self.enabled,
    {
        self.enabled
    }

    pub fn writable(self) -> (w: bool)
        ensures
            w == self.spec_writable(),
    {
        self.enabled && !self.write_protect
    }

    /// Bit 7 enables PRG RAM; bit 6 protects it from CPU writes.
    pub fn write(&mut self, value: u8)
        ensures
            final(self).enabled == (value & 0x80 != 0),
            final(self).write_protect == (value & 0x40 != 0),
    {
        self.enabled = value & 0x80 != 0;
        self.write_protect = value & 0x40 != 0;
    }
}

/// The register (0-5), the 1 KiB step inside a 2 KiB window, and the offset
/// inside the 1 KiB bank that a pattern-table address selects.
pub open spec fn chr_window(inverted: bool, addr: u16) -> (int, int, int) {
    let in_bank = addr % 0x0400;
    if !inverted {
        if addr < 0x0800 {
            (0, (addr / 0x0400) as int, in_bank as int)
        } else if addr < 0x1000 {
            (1, ((addr - 0x0800) / 0x0400) as int, in_bank as int)
        } else if addr < 0x1400 {
            (2, 0, in_bank as int)
        } else if addr < 0x1800 {
            (3, 0, in_bank as int)
        } else if addr < 0x1C00 {
            (4, 0, in_bank as int)
        } else {
            (5, 0, in_bank as int)
        }
    } else {
        if addr < 0x0400 {
            (2, 0, in_bank as int)
        } else if addr < 0x0800 {
            (3, 0, in_bank as int)
        } else if addr < 0x0C00 {
            (4, 0, in_bank as int)
        } else if addr < 0x1000 {
            (5, 0, in_bank as int)
        } else if addr < 0x1800 {
            (0, (addr - 0x1000) / 0x0400, in_bank as int)
        } else {
            (1, (addr - 0x1800) / 0x0400, in_bank as int)
        }
    }
}

impl Mmc3State {
    pub open spec fn prg_mode(self) -> bool {
        self.bank_select & 0x40 != 0
    }

    pub open spec fn chr_inverted(self) -> bool {
        self.bank_select & 0x80 != 0
    }

    /// The 8 KiB PRG bank mapped at `addr >= $8000` among `bank_count` banks.
    pub open spec fn prg_bank(self, addr: u16, bank_count: int) -> int {
        let r6 = (self.bank_registers[6] % 64) as int % bank_count;
        let r7 = (self.bank_registers[7] % 64) as int % bank_count;
        if addr < 0xA000 {
            if self.prg_mode() { bank_count - 2 } else { r6 }
        } else if addr < 0xC000 {
            r7
        } else if addr < 0xE000 {
            if self.prg_mode() { r6 } else { bank_count - 2 }
        } else {
            bank_count - 1
        }
    }

    pub open spec fn spec_prg_rom_offset(self, addr: u16, prg_len: int) -> Option<usize> {
        if addr >= 0x8000 {
            Some((self.prg_bank(addr, prg_len / 0x2000) * 0x2000 + addr % 0x2000) as usize)
        } else {
            None
        }
    }

    /// The raw 1 KiB CHR bank number and the offset inside it for `addr < $2000`.
    pub open spec fn spec_chr_bank(self, addr: u16) -> Option<(u8, usize)> {
        if addr < 0x2000 {
            let (register, step, in_bank) = chr_window(self.chr_inverted(), addr);
            let value = self.bank_registers[register];
            let bank = if register < 2 { (value - value % 2 + step) as u8 } else { value };
            Some((bank, in_bank as usize))
        } else {
            None
        }
    }

    /// The four 8 KiB PRG windows, with `n` banks and R6, R7 taken modulo 64
    /// and modulo `n`: `$8000` shows R6 (or the second-to-last bank when bit
    /// 6 of the bank select is set), `$A000` always R7, `$C000` the
    /// second-to-last bank (or R6 when bit 6 is set) and `$E000` always the
    /// last bank.
    pub proof fn lemma_prg_windows(self, o: int, n: int)
        requires
            n >= 2,
            0 <= o < 0x2000,
            n * 0x2000 < 0x1_0000_0000,
        ensures
            ({
                let r6 = (self.bank_registers[6] % 64) as int % n;
                let r7 = (self.bank_registers[7] % 64) as int % n;
                let swapped = self.bank_select & 0x40 != 0;
                let len = n * 0x2000;
                &&& self.spec_prg_rom_offset((0x8000 + o) as u16, len) == Some(
                    ((if swapped { n - 2 } else { r6 }) * 0x2000 + o) as usize,
                )
                &&& self.spec_prg_rom_offset((0xA000 + o) as u16, len) == Some((r7 * 0x2000 + o) as usize)
                &&& self.spec_prg_rom_offset((0xC000 + o) as u16, len) == Some(
                    ((if swapped { r6 } else { n - 2 }) * 0x2000 + o) as usize,
                )
                &&& self.spec_prg_rom_offset((0xE000 + o) as u16, len) == Some(((n - 1) * 0x2000 + o) as usize)
            }),
    {
        assert((n * 0x2000) / 0x2000 == n) by (nonlinear_arith);
        assert(((0x8000 + o) as u16) % 0x2000 == o);
        assert(((0xA000 + o) as u16) % 0x2000 == o);
        assert(((0xC000 + o) as u16) % 0x2000 == o);
        assert(((0xE000 + o) as u16) % 0x2000 == o);
    }

    /// The eight 1 KiB CHR slots (`$0000 + 0x400 * k`): without CHR
    /// inversion (bank select bit 7 clear) slots 0-1 show the 2 KiB pair at
    /// R0 rounded down to even, slots 2-3 the pair at R1, and slots 4-7 the
    /// 1 KiB banks R2-R5; with inversion the two halves swap.
    pub proof fn lemma_chr_windows(self, k: int, o: int)
        requires
            0 <= k < 8,
            0 <= o < 0x400,
        ensures
            ({
                let r = self.bank_registers;
                let half = if self.bank_select & 0x80 != 0 {
                    (k + 4) % 8
                } else {
                    k
                };
                let bank: int = if half < 2 {
                    r[0] - r[0] % 2 + half
                } else if half < 4 {
                    r[1] - r[1] % 2 + half - 2
                } else {
                    r[half - 2] as int
                };
                self.spec_chr_bank((0x400 * k + o) as u16) == Some((bank as u8, o as usize))
            }),
    {
        let addr = (0x400 * k + o) as u16;
        assert(addr == 0x400 * k + o);
        assert(addr % 0x0400 == o);
    }

    /// Selecting bank register `sel % 8` with an even write to `$8000-$9FFE`
    /// and then writing `v` to an odd address there stores `v` in that
    /// register and keeps the others and the select byte.
    pub proof fn lemma_bank_register_write(self, sel: u8, v: u8, i: int)
        requires
            0 <= i < 8,
        ensures
            ({
                let s1 = self.spec_write_register(0x8000, sel).spec_write_register(0x8001, v);
                &&& s1.bank_select == sel
                &&& s1.bank_registers[i] == if i == sel % 8 {
                    v
                } else {
                    self.bank_registers[i]
                }
            }),
    {
        vstd::array::axiom_spec_array_update(self.bank_registers, (sel % 8) as int, v);
    }

    /// The state after the CPU writes `value` to `addr` (`$8000-$FFFF`).
    pub open spec fn spec_write_register(self, addr: u16, value: u8) -> Self {
        let even = addr % 2 == 0;
        if 0x8000 <= addr < 0xA000 {
            if even {
                Mmc3State { bank_select: value, ..self }
            } else {
                Mmc3State {
                    bank_registers: vstd::array::spec_array_update(
                        self.bank_registers,
                        (self.bank_select % 8) as int,
                        value,
                    ),
                    ..self
                }
            }
        } else if 0xC000 <= addr < 0xE000 {
            if even {
                Mmc3State { irq_latch: value, ..self }
            } else {
                Mmc3State { irq_counter: 0, irq_reload: true, ..self }
            }
        } else if addr >= 0xE000 {
            if even {
                Mmc3State { irq_enabled: false, irq_pending: false, ..self }
            } else {
                Mmc3State { irq_enabled: true, ..self }
            }
        } else {
            self
        }
    }

    /// One clock of the scanline counter: reload from the latch when zero or
    /// when a reload is pending, otherwise count down; reaching zero with IRQs
    /// enabled raises the IRQ.
    pub open spec fn spec_clock_irq_counter(self) -> Self {
        let counter = if self.irq_counter == 0 || self.irq_reload {
            self.irq_latch
        } else {
            (self.irq_counter - 1) as u8
        };
        Mmc3State {
            irq_counter: counter,
            irq_reload: false,
            irq_pending: self.irq_pending || (counter == 0 && self.irq_enabled),
            ..self
        }
    }

    /// The state after the PPU drives `addr` on PPU cycle `ppu_cycle`: a rising
    /// edge of A12 after A12 was low for at least 8 cycles clocks the counter.
    pub open spec fn spec_observe_ppu_addr(self, addr: u16, ppu_cycle: u64) -> Self {
        if addr & 0x1000 == 0 {
            if self.a12_filter is NoLowInterval {
                Mmc3State { a12_filter: A12FilterState::LowSince(ppu_cycle), ..self }
            } else {
                self
            }
        } else {
            let clocked = match self.a12_filter {
                A12FilterState::LowSince(since) if vstd::wrapping::u64_specs::wrapping_sub(
                    ppu_cycle,
                    since,
                ) >= 8 => self.spec_clock_irq_counter(),
                _ => self,
            };
            Mmc3State { a12_filter: A12FilterState::NoLowInterval, ..clocked }
        }
    }

    /// Power-on state: every register zero, IRQs disabled, A12 not yet seen low.
    pub open spec fn spec_new() -> Self {
        Mmc3State {
            bank_select: 0,
            bank_registers: [0u8, 0u8, 0u8, 0u8, 0u8, 0u8, 0u8, 0u8],
            irq_latch: 0,
            irq_counter: 0,
            irq_reload: false,
            irq_enabled: false,
            irq_pending: false,
            a12_filter: A12FilterState::NoLowInterval,
        }
    }

    pub fn new() -> (s: Self)
        ensures
            s == Self::spec_new(),
            s.bank_registers@ == Seq::new(8, |i: int| 0u8),
    {
        let s = Mmc3State {
            bank_select: 0,
            bank_registers: [0; 8],
            irq_latch: 0,
            irq_counter: 0,
            irq_reload: false,
            irq_enabled: false,
            irq_pending: false,
            a12_filter: A12FilterState::NoLowInterval,
        };
        assert(s.bank_registers@ =~= Seq::new(8, |i: int| 0u8));
        assert(s.bank_registers@ =~= Self::spec_new().bank_registers@);
        assert(s.bank_registers == Self::spec_new().bank_registers);
        s
    }

    pub fn prg_rom_offset(&self, addr: u16, prg_len: usize) -> (r: Option<usize>)
        requires
            prg_len >= 0x8000,
            prg_len % 0x2000 == 0,
        ensures
            r == self.spec_prg_rom_offset(addr, prg_len as int),
            r matches Some(o) ==> o < prg_len,
    {
        if addr < 0x8000 {
            return None;
        }
        let bank_count = prg_len / 0x2000;
        let second_last_bank = bank_count - 2;
        let last_bank = bank_count - 1;
        let r6 = (self.bank_registers[6] % 64) as usize % bank_count;
        let r7 = (self.bank_registers[7] % 64) as usize % bank_count;
        let prg_mode = self.bank_select & 0x40 != 0;

        let bank = if addr < 0xA000 {
            if prg_mode { second_last_bank } else { r6 }
        } else if addr < 0xC000 {
            r7
        } else if addr < 0xE000 {
            if prg_mode { r6 } else { second_last_bank }
        } else {
            last_bank
        };
        assert(bank * 0x2000 + 0x2000 <= bank_count * 0x2000) by (nonlinear_arith)
            requires bank < bank_count;
        Some(bank * 0x2000 + (addr % 0x2000) as usize)
    }

    pub fn chr_bank(&self, addr: u16) -> (r: Option<(u8, usize)>)
        ensures
            r == self.spec_chr_bank(addr),
            r matches Some((_, o)) ==> o < 0x0400,
    {
        if addr >= 0x2000 {
            return None;
        }
        let chr_inverted = self.bank_select & 0x80 != 0;
        let in_bank = (addr % 0x0400) as usize;
        let (register, step): (usize, u8) = if !chr_inverted {
            if addr < 0x0800 {
                (0, (addr / 0x0400) as u8)
            } else if addr < 0x1000 {
                (1, ((addr - 0x0800) / 0x0400) as u8)
            } else if addr < 0x1400 {
                (2, 0)
            } else if addr < 0x1800 {
                (3, 0)
            } else if addr < 0x1C00 {
                (4, 0)
            } else {
                (5, 0)
            }
        } else {
            if addr < 0x0400 {
                (2, 0)
            } else if addr < 0x0800 {
                (3, 0)
            } else if addr < 0x0C00 {
                (4, 0)
            } else if addr < 0x1000 {
                (5, 0)
            } else if addr < 0x1800 {
                (0, ((addr - 0x1000) / 0x0400) as u8)
            } else {
                (1, ((addr - 0x1800) / 0x0400) as u8)
            }
        };

        let value = self.bank_registers[register];
        let bank = if register < 2 { value - value % 2 + step } else { value };
        Some((bank, in_bank))
    }

    pub fn write_register(&mut self, addr: u16, value: u8)
        ensures
            *final(self) == old(self).spec_write_register(addr, value),
    {
        let even = addr % 2 == 0;
        if 0x8000 <= addr && addr < 0xA000 {
            if even {
                self.bank_select = value;
            } else {
                let index = (self.bank_select % 8) as usize;
                self.bank_registers[index] = value;
            }
        } else if 0xC000 <= addr && addr < 0xE000 {
            if even {
                self.irq_latch = value;
            } else {
                self.irq_counter = 0;
                self.irq_reload = true;
            }
        } else if addr >= 0xE000 {
            if even {
                self.irq_enabled = false;
                self.irq_pending = false;
            } else {
                self.irq_enabled = true;
            }
        }
    }

    pub fn observe_ppu_addr(&mut self, addr: u16, ppu_cycle: u64)
        ensures
            *final(self) == old(self).spec_observe_ppu_addr(addr, ppu_cycle),
    {
        let a12_high = addr & 0x1000 != 0;

        if !a12_high {
            if let A12FilterState::NoLowInterval = self.a12_filter {
                self.a12_filter = A12FilterState::LowSince(ppu_cycle);
            }
            return;
        }

        if let A12FilterState::LowSince(since) = self.a12_filter {
            if ppu_cycle.wrapping_sub(since) >= 8 {
                self.clock_irq_counter();
            }
        }

        self.a12_filter = A12FilterState::NoLowInterval;
    }

    pub fn irq_asserted(&self) -> (b: bool)
        ensures
            b == self.irq_pending,
    {
        self.irq_pending
    }

    fn clock_irq_counter(&mut self)
        ensures
            *final(self) == old(self).spec_clock_irq_counter(),
    {
        if self.irq_counter == 0 || self.irq_reload {
            self.irq_counter = self.irq_latch;
            self.irq_reload = false;
        } else {
            self.irq_counter = self.irq_counter - 1;
        }

        if self.irq_counter == 0 && self.irq_enabled {
            self.irq_pending = true;
        }
    }
}

} // verus!
