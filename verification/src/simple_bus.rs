use vstd::prelude::*;

use crate::bus::Bus;
use crate::cpu::{
    instruction_spec, micro_step, pushed_status, tick_spec, with_nz, word, wrap16, wrap8, Cpu,
    CpuProgram, CpuState, MicrocodeCursor, Status,
};
use crate::microcode::{opcode_program, MicroOp, Reg, StatusPushKind};

verus! {

/// 64 KiB of plain RAM behind every address: reads have no side effect and
/// writes store the byte.
pub struct SimpleBus {
    pub mem: [u8; 0x10000],
}

/// `mem` after `data` is written byte by byte from `start` upward, wrapping
/// from `$FFFF` to `$0000`.
pub open spec fn loaded(mem: Seq<u8>, start: u16, data: Seq<u8>) -> Seq<u8>
    decreases data.len(),
{
    if data.len() == 0 {
        mem
    } else {
        loaded(
            mem.update(start as int, data[0]),
            ((start + 1) % 0x10000) as u16,
            data.drop_first(),
        )
    }
}

impl SimpleBus {
    pub fn new() -> (bus: Self)
        ensures
            forall|i: int| 0 <= i < 0x10000 ==> bus.mem@[i] == 0,
    {
        SimpleBus { mem: [0u8; 0x10000] }
    }

    /// Load a program (or data) into memory at `start`.
    pub fn load(&mut self, start: u16, data: &[u8])
        ensures
            final(self).mem@ == loaded(old(self).mem@, start, data@),
    {
        let mut addr = start;
        let mut i: usize = 0;
        assert(data@.subrange(0, data@.len() as int) =~= data@);
        while i < data.len()
            invariant
                0 <= i <= data@.len(),
                self.mem@.len() == 0x10000,
                loaded(old(self).mem@, start, data@) == loaded(
                    self.mem@,
                    addr,
                    data@.subrange(i as int, data@.len() as int),
                ),
            decreases data@.len() - i,
        {
            let ghost rest = data@.subrange(i as int, data@.len() as int);
            let ghost next = data@.subrange(i as int + 1, data@.len() as int);
            assert(rest.drop_first() =~= next);
            self.mem[addr as usize] = data[i];
            addr = if addr == 0xFFFF {
                0
            } else {
                addr + 1
            };
            i = i + 1;
        }
        assert(data@.subrange(i as int, data@.len() as int) =~= Seq::<u8>::empty());
    }

    /// Read without a bus cycle.
    pub fn peek(&self, addr: u16) -> (value: u8)
        ensures
            value == self.mem@[addr as int],
    {
        self.mem[addr as usize]
    }

    /// Write without a bus cycle.
    pub fn poke(&mut self, addr: u16, value: u8)
        ensures
            final(self).mem@ == old(self).mem@.update(addr as int, value),
    {
        self.mem[addr as usize] = value;
    }
}

impl Default for SimpleBus {
    fn default() -> (bus: Self)
        ensures
            forall|i: int| 0 <= i < 0x10000 ==> bus.mem@[i] == 0,
    {
        Self::new()
    }
}

impl Bus for SimpleBus {
    open spec fn read_value(&self, addr: u16) -> u8 {
        self.mem@[addr as int]
    }

    open spec fn after_read(&self, addr: u16) -> Self {
        *self
    }

    open spec fn after_write(&self, addr: u16, value: u8) -> Self {
        SimpleBus { mem: vstd::array::spec_array_update(self.mem, addr as int, value) }
    }

    fn read(&mut self, addr: u16) -> (value: u8) {
        self.mem[addr as usize]
    }

    fn write(&mut self, addr: u16, value: u8) {
        self.mem[addr as usize] = value;
    }
}

/// The CPU running micro-operation `k` of opcode `opcode`'s program.
pub open spec fn at_op(cpu: Cpu, opcode: u8, k: u8) -> Cpu {
    Cpu {
        state: CpuState::Exec(MicrocodeCursor { program: CpuProgram::Opcode(opcode), next_op: k }),
        ..cpu
    }
}

/// Where a JSR at `p` jumps: the address in its two operand bytes.
pub open spec fn jsr_target(mem: Seq<u8>, p: u16) -> u16 {
    word(mem[wrap16(p + 2) as int], mem[wrap16(p + 1) as int])
}

/// The CPU and memory after the JSR at `cpu.pc`.
pub open spec fn after_jsr(cpu: Cpu, bus: SimpleBus) -> (Cpu, SimpleBus) {
    let p = cpu.pc;
    let ret = wrap16(p + 2);
    let m1 = bus.after_write((0x100 + cpu.sp) as u16, (ret / 256) as u8);
    let m2 = m1.after_write((0x100 + wrap8(cpu.sp - 1)) as u16, (ret % 256) as u8);
    (
        Cpu {
            addr_lo: bus.mem@[wrap16(p + 1) as int],
            addr_hi: bus.mem@[ret as int],
            pc: jsr_target(bus.mem@, p),
            sp: wrap8(wrap8(cpu.sp - 1) - 1),
            state: CpuState::Fetch,
            ..cpu
        },
        m2,
    )
}

proof fn lemma_jsr_program()
    ensures
        opcode_program(0x20) == Some(
            seq![
                MicroOp::ReadPcToAddrLo,
                MicroOp::ExtraCycle,
                MicroOp::StackPushPcHi,
                MicroOp::StackPushPcLo,
                MicroOp::ReadPcToAddrHiSetPc,
            ],
        ),
{
}

proof fn lemma_jsr_ticks(c: Cpu, bus: SimpleBus)
    requires
        c.state is Fetch,
    ensures
        tick_spec(at_op(c, 0x20, 0), bus) == (
            at_op(Cpu { addr_lo: bus.mem@[c.pc as int], pc: wrap16(c.pc + 1), ..c }, 0x20, 1),
            bus,
            false,
        ),
        tick_spec(at_op(c, 0x20, 1), bus) == (at_op(c, 0x20, 2), bus, false),
        tick_spec(at_op(c, 0x20, 2), bus) == (
            at_op(Cpu { sp: wrap8(c.sp - 1), ..c }, 0x20, 3),
            bus.after_write((0x100 + c.sp) as u16, (c.pc / 256) as u8),
            false,
        ),
        tick_spec(at_op(c, 0x20, 3), bus) == (
            at_op(Cpu { sp: wrap8(c.sp - 1), ..c }, 0x20, 4),
            bus.after_write((0x100 + c.sp) as u16, (c.pc % 256) as u8),
            false,
        ),
        tick_spec(at_op(c, 0x20, 4), bus) == (
            Cpu {
                addr_hi: bus.mem@[c.pc as int],
                pc: word(bus.mem@[c.pc as int], c.addr_lo),
                ..c
            },
            bus,
            true,
        ),
{
    lemma_jsr_program();
    reveal(micro_step);
}

#[verifier::spinoff_prover]
proof fn lemma_jsr_instruction(cpu: Cpu, bus: SimpleBus)
    requires
        cpu.state is Fetch,
        bus.mem@[cpu.pc as int] == 0x20,
        0x100 + cpu.sp != wrap16(cpu.pc + 2),
        0x100 + wrap8(cpu.sp - 1) != wrap16(cpu.pc + 2),
    ensures
        instruction_spec(cpu, bus) == (after_jsr(cpu, bus).0, after_jsr(cpu, bus).1, 6nat),
{
    lemma_jsr_program();
    let p = cpu.pc;
    let ret = wrap16(p + 2);
    let lo = bus.mem@[wrap16(p + 1) as int];
    let m1 = bus.after_write((0x100 + cpu.sp) as u16, (ret / 256) as u8);
    let m2 = m1.after_write((0x100 + wrap8(cpu.sp - 1)) as u16, (ret % 256) as u8);
    let b0 = Cpu { pc: wrap16(p + 1), ..cpu };
    let b1 = Cpu { addr_lo: lo, pc: ret, ..cpu };
    let b3 = Cpu { sp: wrap8(cpu.sp - 1), ..b1 };
    let b4 = Cpu { sp: wrap8(wrap8(cpu.sp - 1) - 1), ..b1 };
    let fin = after_jsr(cpu, bus).0;
    lemma_jsr_ticks(b0, bus);
    lemma_jsr_ticks(b1, bus);
    lemma_jsr_ticks(b3, m1);
    lemma_jsr_ticks(b4, m2);
    assert(m2.mem@[ret as int] == bus.mem@[ret as int]);
    assert(m2 == after_jsr(cpu, bus).1);
    assert(instruction_spec(at_op(b4, 0x20, 4), m2) == (fin, m2, 1nat));
    assert(instruction_spec(at_op(b3, 0x20, 3), m1) == (fin, m2, 2nat));
    assert(instruction_spec(at_op(b1, 0x20, 2), bus) == (fin, m2, 3nat));
    assert(instruction_spec(at_op(b1, 0x20, 1), bus) == (fin, m2, 4nat));
    assert(instruction_spec(at_op(b0, 0x20, 0), bus) == (fin, m2, 5nat));
}

proof fn lemma_rts_program()
    ensures
        opcode_program(0x60) == Some(
            seq![
                MicroOp::ExtraCycle,
                MicroOp::StackIncSp,
                MicroOp::StackReadPcLoThenIncSp,
                MicroOp::StackReadPcHi,
                MicroOp::IncPc,
            ],
        ),
{
}

proof fn lemma_rts_ticks(c: Cpu, bus: SimpleBus)
    requires
        c.state is Fetch,
    ensures
        tick_spec(at_op(c, 0x60, 0), bus) == (at_op(c, 0x60, 1), bus, false),
        tick_spec(at_op(c, 0x60, 1), bus) == (at_op(Cpu { sp: wrap8(c.sp + 1), ..c }, 0x60, 2), bus, false),
        tick_spec(at_op(c, 0x60, 2), bus) == (
            at_op(
                Cpu { addr_lo: bus.mem@[(0x100 + c.sp) as u16 as int], sp: wrap8(c.sp + 1), ..c },
                0x60,
                3,
            ),
            bus,
            false,
        ),
        tick_spec(at_op(c, 0x60, 3), bus) == (
            at_op(
                Cpu {
                    addr_hi: bus.mem@[(0x100 + c.sp) as u16 as int],
                    pc: word(bus.mem@[(0x100 + c.sp) as u16 as int], c.addr_lo),
                    ..c
                },
                0x60,
                4,
            ),
            bus,
            false,
        ),
        tick_spec(at_op(c, 0x60, 4), bus) == (Cpu { pc: wrap16(c.pc + 1), ..c }, bus, true),
{
    lemma_rts_program();
    reveal(micro_step);
}

/// The CPU after the RTS at `cpu.pc`.
pub open spec fn after_rts(cpu: Cpu, bus: SimpleBus) -> Cpu {
    let sp1 = wrap8(cpu.sp + 1);
    let sp2 = wrap8(sp1 + 1);
    let lo = bus.mem@[0x100 + sp1];
    let hi = bus.mem@[0x100 + sp2];
    Cpu { addr_lo: lo, addr_hi: hi, pc: wrap16(word(hi, lo) + 1), sp: sp2, state: CpuState::Fetch, ..cpu }
}

#[verifier::spinoff_prover]
proof fn lemma_rts_instruction(cpu: Cpu, bus: SimpleBus)
    requires
        cpu.state is Fetch,
        bus.mem@[cpu.pc as int] == 0x60,
    ensures
        instruction_spec(cpu, bus) == (after_rts(cpu, bus), bus, 6nat),
{
    lemma_rts_program();
    let sp1 = wrap8(cpu.sp + 1);
    let sp2 = wrap8(sp1 + 1);
    let lo = bus.mem@[0x100 + sp1];
    let hi = bus.mem@[0x100 + sp2];
    let b0 = Cpu { pc: wrap16(cpu.pc + 1), ..cpu };
    let b2 = Cpu { sp: sp1, ..b0 };
    let b3 = Cpu { addr_lo: lo, sp: sp2, ..b0 };
    let b4 = Cpu { addr_hi: hi, pc: word(hi, lo), ..b3 };
    let fin = after_rts(cpu, bus);
    lemma_rts_ticks(b0, bus);
    lemma_rts_ticks(b2, bus);
    lemma_rts_ticks(b3, bus);
    lemma_rts_ticks(b4, bus);
    assert(instruction_spec(at_op(b4, 0x60, 4), bus) == (fin, bus, 1nat));
    assert(instruction_spec(at_op(b3, 0x60, 3), bus) == (fin, bus, 2nat));
    assert(instruction_spec(at_op(b2, 0x60, 2), bus) == (fin, bus, 3nat));
    assert(instruction_spec(at_op(b0, 0x60, 1), bus) == (fin, bus, 4nat));
    assert(instruction_spec(at_op(b0, 0x60, 0), bus) == (fin, bus, 5nat));
}

/// On plain memory, a JSR followed by the RTS at its target: the JSR takes
/// six cycles, pushes the address of its own last byte (high byte first) and
/// jumps; the RTS takes six cycles, pulls that address back and resumes right
/// after the JSR, with the stack pointer, the registers and the flags as they
/// were. The two stack bytes must not overlap the JSR's last operand byte or
/// the RTS.
#[verifier::spinoff_prover]
pub proof fn lemma_jsr_rts_round_trip(cpu: Cpu, bus: SimpleBus)
    requires
        cpu.state is Fetch,
        bus.mem@[cpu.pc as int] == 0x20,
        bus.mem@[jsr_target(bus.mem@, cpu.pc) as int] == 0x60,
        0x100 + cpu.sp != wrap16(cpu.pc + 2),
        0x100 + wrap8(cpu.sp - 1) != wrap16(cpu.pc + 2),
        0x100 + cpu.sp != jsr_target(bus.mem@, cpu.pc),
        0x100 + wrap8(cpu.sp - 1) != jsr_target(bus.mem@, cpu.pc),
    ensures
        ({
            let ret = wrap16(cpu.pc + 2);
            let (c1, b1, n1) = instruction_spec(cpu, bus);
            let (c2, b2, n2) = instruction_spec(c1, b1);
            &&& n1 == 6 && c1.pc == jsr_target(bus.mem@, cpu.pc) && c1.sp == wrap8(cpu.sp - 2)
            &&& c1.state is Fetch
            &&& b1.mem@ == bus.mem@.update(0x100 + cpu.sp, (ret / 256) as u8).update(
                0x100 + wrap8(cpu.sp - 1),
                (ret % 256) as u8,
            )
            &&& n2 == 6 && c2.pc == wrap16(cpu.pc + 3) && c2.sp == cpu.sp && c2.state is Fetch
            &&& c2.status == cpu.status && c2.a == cpu.a && c2.x == cpu.x && c2.y == cpu.y
            &&& b2 == b1
        }),
{
    let ret = wrap16(cpu.pc + 2);
    lemma_jsr_instruction(cpu, bus);
    let (c1, b1) = after_jsr(cpu, bus);
    assert(b1.mem@ =~= bus.mem@.update(0x100 + cpu.sp, (ret / 256) as u8).update(
        0x100 + wrap8(cpu.sp - 1),
        (ret % 256) as u8,
    ));
    lemma_rts_instruction(c1, b1);
    assert(wrap8(c1.sp + 1) == wrap8(cpu.sp - 1));
    assert(wrap8(wrap8(c1.sp + 1) + 1) == cpu.sp);
    assert(word((ret / 256) as u8, (ret % 256) as u8) == ret);
}

proof fn lemma_lda_abs_x_program()
    ensures
        opcode_program(0xBD) == Some(
            seq![
                MicroOp::ReadPcToAddrLo,
                MicroOp::ReadPcToAddrHi,
                MicroOp::AbsIndexedReadOrDummy(Reg::X, Reg::A),
                MicroOp::ReadEffAddrToRegSetNZ(Reg::A),
            ],
        ),
{
}

proof fn lemma_lda_abs_x_ticks(c: Cpu, bus: SimpleBus)
    requires
        c.state is Fetch,
    ensures
        tick_spec(at_op(c, 0xBD, 0), bus) == (
            at_op(Cpu { addr_lo: bus.mem@[c.pc as int], pc: wrap16(c.pc + 1), ..c }, 0xBD, 1),
            bus,
            false,
        ),
        tick_spec(at_op(c, 0xBD, 1), bus) == (
            at_op(
                Cpu {
                    addr_hi: bus.mem@[c.pc as int],
                    pc: wrap16(c.pc + 1),
                    eff_addr: word(bus.mem@[c.pc as int], c.addr_lo),
                    ..c
                },
                0xBD,
                2,
            ),
            bus,
            false,
        ),
        c.addr_lo + c.x <= 255 ==> tick_spec(at_op(c, 0xBD, 2), bus) == (
            c.load_nz(Reg::A, bus.mem@[word(c.addr_hi, wrap8(c.addr_lo + c.x)) as int]),
            bus,
            true,
        ),
        c.addr_lo + c.x > 255 ==> tick_spec(at_op(c, 0xBD, 2), bus) == (
            at_op(
                Cpu { eff_addr: word(wrap8(c.addr_hi + 1), wrap8(c.addr_lo + c.x)), ..c },
                0xBD,
                3,
            ),
            bus,
            false,
        ),
        tick_spec(at_op(c, 0xBD, 3), bus) == (
            c.load_nz(Reg::A, bus.mem@[c.eff_addr as int]),
            bus,
            true,
        ),
{
    lemma_lda_abs_x_program();
    reveal(micro_step);
}

proof fn lemma_indexed_address(hi: u8, lo: u8, x: u8)
    ensures
        lo + x <= 255 ==> word(hi, wrap8(lo + x)) == wrap16(word(hi, lo) + x),
        lo + x > 255 ==> word(wrap8(hi + 1), wrap8(lo + x)) == wrap16(word(hi, lo) + x),
{
}

/// On plain memory, `LDA abs,X` takes four cycles, or five when adding X
/// carries into the high byte of the address; it loads the byte at the
/// operand address plus X (wrapping at `$FFFF`) into A, sets zero and
/// negative from it, moves PC past its three bytes and writes nothing.
#[verifier::spinoff_prover]
#[verifier::rlimit(40)]
pub proof fn lemma_lda_abs_x(cpu: Cpu, bus: SimpleBus)
    requires
        cpu.state is Fetch,
        bus.mem@[cpu.pc as int] == 0xBD,
    ensures
        ({
            let lo = bus.mem@[wrap16(cpu.pc + 1) as int];
            let hi = bus.mem@[wrap16(cpu.pc + 2) as int];
            let addr = wrap16(word(hi, lo) + cpu.x);
            let (c, b, n) = instruction_spec(cpu, bus);
            &&& n == if lo + cpu.x > 255 {
                5nat
            } else {
                4nat
            }
            &&& c.a == bus.mem@[addr as int]
            &&& c.status == with_nz(cpu.status, bus.mem@[addr as int])
            &&& c.pc == wrap16(cpu.pc + 3)
            &&& c.x == cpu.x && c.y == cpu.y && c.sp == cpu.sp && c.state is Fetch
            &&& b == bus
        }),
{
    lemma_lda_abs_x_program();
    let lo = bus.mem@[wrap16(cpu.pc + 1) as int];
    let hi = bus.mem@[wrap16(cpu.pc + 2) as int];
    let b0 = Cpu { pc: wrap16(cpu.pc + 1), ..cpu };
    let b1 = Cpu { addr_lo: lo, pc: wrap16(cpu.pc + 2), ..cpu };
    let b2 = Cpu { addr_hi: hi, pc: wrap16(cpu.pc + 3), eff_addr: word(hi, lo), ..b1 };
    lemma_lda_abs_x_ticks(b0, bus);
    lemma_lda_abs_x_ticks(b1, bus);
    lemma_lda_abs_x_ticks(b2, bus);
    if lo + cpu.x > 255 {
        let b3 = Cpu { eff_addr: word(wrap8(hi + 1), wrap8(lo + cpu.x)), ..b2 };
        lemma_lda_abs_x_ticks(b3, bus);
        let fin = b3.load_nz(Reg::A, bus.mem@[b3.eff_addr as int]);
        assert(instruction_spec(at_op(b3, 0xBD, 3), bus) == (fin, bus, 1nat));
        assert(instruction_spec(at_op(b2, 0xBD, 2), bus) == (fin, bus, 2nat));
        assert(instruction_spec(at_op(b1, 0xBD, 1), bus) == (fin, bus, 3nat));
        assert(instruction_spec(at_op(b0, 0xBD, 0), bus) == (fin, bus, 4nat));
        lemma_indexed_address(hi, lo, cpu.x);
    } else {
        let fin = b2.load_nz(Reg::A, bus.mem@[word(hi, wrap8(lo + cpu.x)) as int]);
        assert(instruction_spec(at_op(b2, 0xBD, 2), bus) == (fin, bus, 1nat));
        assert(instruction_spec(at_op(b1, 0xBD, 1), bus) == (fin, bus, 2nat));
        assert(instruction_spec(at_op(b0, 0xBD, 0), bus) == (fin, bus, 3nat));
        lemma_indexed_address(hi, lo, cpu.x);
    }
}

/// The CPU running micro-operation `k` of the interrupt request sequence.
pub open spec fn at_irq(cpu: Cpu, k: u8) -> Cpu {
    Cpu { state: CpuState::Exec(MicrocodeCursor { program: CpuProgram::Irq, next_op: k }), ..cpu }
}

proof fn lemma_irq_ticks(c: Cpu, bus: SimpleBus)
    requires
        c.state is Fetch,
    ensures
        tick_spec(at_irq(c, 0), bus) == (at_irq(c, 1), bus, false),
        tick_spec(at_irq(c, 1), bus) == (at_irq(c, 2), bus, false),
        tick_spec(at_irq(c, 2), bus) == (
            at_irq(Cpu { sp: wrap8(c.sp - 1), ..c }, 3),
            bus.after_write((0x100 + c.sp) as u16, (c.pc / 256) as u8),
            false,
        ),
        tick_spec(at_irq(c, 3), bus) == (
            at_irq(Cpu { sp: wrap8(c.sp - 1), ..c }, 4),
            bus.after_write((0x100 + c.sp) as u16, (c.pc % 256) as u8),
            false,
        ),
        tick_spec(at_irq(c, 4), bus) == (
            at_irq(Cpu { sp: wrap8(c.sp - 1), ..c }, 5),
            bus.after_write((0x100 + c.sp) as u16, pushed_status(c.status, StatusPushKind::Interrupt)),
            false,
        ),
        tick_spec(at_irq(c, 5), bus) == (at_irq(Cpu { addr_lo: bus.mem@[0xFFFE], ..c }, 6), bus, false),
        tick_spec(at_irq(c, 6), bus) == (
            Cpu {
                addr_hi: bus.mem@[0xFFFF],
                pc: word(bus.mem@[0xFFFF], c.addr_lo),
                status: Status { interrupt_disable: true, ..c.status },
                ..c
            },
            bus,
            true,
        ),
{
    reveal(micro_step);
}

/// On plain memory, an interrupt request started between instructions
/// takes seven cycles: it pushes PC (high byte first) and the flags as an
/// interrupt pushes them (bit 4 clear, bit 5 set), sets the interrupt
/// disable flag and jumps through the vector at `$FFFE`/`$FFFF`; A, X and Y
/// are kept.
#[verifier::spinoff_prover]
pub proof fn lemma_irq_sequence(cpu: Cpu, bus: SimpleBus)
    requires
        cpu.state is Fetch,
    ensures
        ({
            let sp1 = wrap8(cpu.sp - 1);
            let sp2 = wrap8(sp1 - 1);
            let (c, b, n) = instruction_spec(at_irq(cpu, 0), bus);
            &&& n == 7
            &&& c.pc == word(bus.mem@[0xFFFF], bus.mem@[0xFFFE])
            &&& c.sp == wrap8(sp2 - 1)
            &&& c.status == (Status { interrupt_disable: true, ..cpu.status })
            &&& c.a == cpu.a && c.x == cpu.x && c.y == cpu.y && c.state is Fetch
            &&& b.mem@ == bus.mem@.update(0x100 + cpu.sp, (cpu.pc / 256) as u8).update(
                0x100 + sp1,
                (cpu.pc % 256) as u8,
            ).update(0x100 + sp2, pushed_status(cpu.status, StatusPushKind::Interrupt))
            &&& pushed_status(cpu.status, StatusPushKind::Interrupt) & 0x10 == 0
        }),
{
    let sp1 = wrap8(cpu.sp - 1);
    let sp2 = wrap8(sp1 - 1);
    let m1 = bus.after_write((0x100 + cpu.sp) as u16, (cpu.pc / 256) as u8);
    let m2 = m1.after_write((0x100 + sp1) as u16, (cpu.pc % 256) as u8);
    let m3 = m2.after_write((0x100 + sp2) as u16, pushed_status(cpu.status, StatusPushKind::Interrupt));
    let c3 = Cpu { sp: sp1, ..cpu };
    let c4 = Cpu { sp: sp2, ..cpu };
    let c5 = Cpu { sp: wrap8(sp2 - 1), ..cpu };
    let c6 = Cpu { addr_lo: m3.mem@[0xFFFE], ..c5 };
    lemma_irq_ticks(cpu, bus);
    lemma_irq_ticks(c3, m1);
    lemma_irq_ticks(c4, m2);
    lemma_irq_ticks(c5, m3);
    lemma_irq_ticks(c6, m3);
    assert(m3.mem@[0xFFFE] == bus.mem@[0xFFFE]);
    assert(m3.mem@[0xFFFF] == bus.mem@[0xFFFF]);
    let fin = Cpu {
        addr_hi: m3.mem@[0xFFFF],
        pc: word(m3.mem@[0xFFFF], c6.addr_lo),
        status: Status { interrupt_disable: true, ..cpu.status },
        ..c6
    };
    assert(instruction_spec(at_irq(c6, 6), m3) == (fin, m3, 1nat));
    assert(instruction_spec(at_irq(c5, 5), m3) == (fin, m3, 2nat));
    assert(instruction_spec(at_irq(c4, 4), m2) == (fin, m3, 3nat));
    assert(instruction_spec(at_irq(c3, 3), m1) == (fin, m3, 4nat));
    assert(instruction_spec(at_irq(cpu, 2), bus) == (fin, m3, 5nat));
    assert(instruction_spec(at_irq(cpu, 1), bus) == (fin, m3, 6nat));
    assert(instruction_spec(at_irq(cpu, 0), bus) == (fin, m3, 7nat));
    crate::cpu::lemma_pushed_break_bit(cpu.status);
}

proof fn lemma_jmp_ticks(c: Cpu, bus: SimpleBus)
    requires
        c.state is Fetch,
    ensures
        opcode_program(0x4C) == Some(seq![MicroOp::ReadPcToAddrLo, MicroOp::ReadPcToAddrHiSetPc]),
        opcode_program(0x6C) == Some(
            seq![
                MicroOp::ReadPcToAddrLo,
                MicroOp::ReadPcToAddrHi,
                MicroOp::ReadEffAddrToAddrLo,
                MicroOp::ReadJmpIndirectAddrHiAndJump,
            ],
        ),
        tick_spec(at_op(c, 0x4C, 0), bus) == (
            at_op(Cpu { addr_lo: bus.mem@[c.pc as int], pc: wrap16(c.pc + 1), ..c }, 0x4C, 1),
            bus,
            false,
        ),
        tick_spec(at_op(c, 0x4C, 1), bus) == (
            Cpu { addr_hi: bus.mem@[c.pc as int], pc: word(bus.mem@[c.pc as int], c.addr_lo), ..c },
            bus,
            true,
        ),
        tick_spec(at_op(c, 0x6C, 0), bus) == (
            at_op(Cpu { addr_lo: bus.mem@[c.pc as int], pc: wrap16(c.pc + 1), ..c }, 0x6C, 1),
            bus,
            false,
        ),
        tick_spec(at_op(c, 0x6C, 1), bus) == (
            at_op(
                Cpu {
                    addr_hi: bus.mem@[c.pc as int],
                    pc: wrap16(c.pc + 1),
                    eff_addr: word(bus.mem@[c.pc as int], c.addr_lo),
                    ..c
                },
                0x6C,
                2,
            ),
            bus,
            false,
        ),
        tick_spec(at_op(c, 0x6C, 2), bus) == (
            at_op(Cpu { addr_lo: bus.mem@[c.eff_addr as int], ..c }, 0x6C, 3),
            bus,
            false,
        ),
        ({
            let p = word((c.eff_addr / 256) as u8, wrap8(c.eff_addr % 256 + 1));
            tick_spec(at_op(c, 0x6C, 3), bus) == (
                Cpu { addr_hi: bus.mem@[p as int], pc: word(bus.mem@[p as int], c.addr_lo), ..c },
                bus,
                true,
            )
        }),
{
    reveal(micro_step);
}

/// On plain memory, `JMP abs` ($4C) takes three cycles and sets PC to the
/// address in its two operand bytes (low byte first). `JMP (ind)` ($6C)
/// takes five cycles and sets PC to the address stored at that pointer, its
/// high byte read from the next byte of the pointer's 256-byte page (wrapping
/// from `$xxFF` to `$xx00` without carrying into the page). Neither changes
/// a register other than PC, a flag or memory.
#[verifier::spinoff_prover]
pub proof fn lemma_jumps(cpu: Cpu, bus: SimpleBus)
    requires
        cpu.state is Fetch,
        bus.mem@[cpu.pc as int] == 0x4C || bus.mem@[cpu.pc as int] == 0x6C,
    ensures
        ({
            let m = bus.mem@;
            let op = m[cpu.pc as int];
            let ptr = m[wrap16(cpu.pc + 1) as int] + 256 * m[wrap16(cpu.pc + 2) as int];
            let hi_addr = ptr - ptr % 256 + (ptr % 256 + 1) % 256;
            let (n, b, cycles) = instruction_spec(cpu, bus);
            &&& op == 0x4C ==> n.pc == ptr && cycles == 3
            &&& op == 0x6C ==> n.pc == m[ptr] + 256 * m[hi_addr] && cycles == 5
            &&& n.a == cpu.a && n.x == cpu.x && n.y == cpu.y && n.sp == cpu.sp
            &&& n.status == cpu.status && n.state is Fetch
            &&& b == bus
        }),
{
    let m = bus.mem@;
    let op = m[cpu.pc as int];
    let lo = m[wrap16(cpu.pc + 1) as int];
    let hi = m[wrap16(cpu.pc + 2) as int];
    let b0 = Cpu { pc: wrap16(cpu.pc + 1), ..cpu };
    let b1 = Cpu { addr_lo: lo, pc: wrap16(cpu.pc + 2), ..cpu };
    lemma_jmp_ticks(b0, bus);
    lemma_jmp_ticks(b1, bus);
    if op == 0x4C {
        let fin = Cpu { addr_hi: hi, pc: word(hi, lo), ..b1 };
        assert(instruction_spec(at_op(b1, 0x4C, 1), bus) == (fin, bus, 1nat));
        assert(instruction_spec(at_op(b0, 0x4C, 0), bus) == (fin, bus, 2nat));
    } else {
        let ptr = word(hi, lo);
        let b2 = Cpu { addr_hi: hi, pc: wrap16(cpu.pc + 3), eff_addr: ptr, ..b1 };
        let b3 = Cpu { addr_lo: m[ptr as int], ..b2 };
        lemma_jmp_ticks(b2, bus);
        lemma_jmp_ticks(b3, bus);
        let p = word((ptr / 256) as u8, wrap8(ptr % 256 + 1));
        assert(p == ptr - ptr % 256 + (ptr % 256 + 1) % 256);
        let fin = Cpu { addr_hi: m[p as int], pc: word(m[p as int], m[ptr as int]), ..b3 };
        assert(instruction_spec(at_op(b3, 0x6C, 3), bus) == (fin, bus, 1nat));
        assert(instruction_spec(at_op(b2, 0x6C, 2), bus) == (fin, bus, 2nat));
        assert(instruction_spec(at_op(b1, 0x6C, 1), bus) == (fin, bus, 3nat));
        assert(instruction_spec(at_op(b0, 0x6C, 0), bus) == (fin, bus, 4nat));
    }
}

proof fn lemma_zero_page_load_ticks(c: Cpu, bus: SimpleBus, op: u8, r: Reg)
    requires
        c.state is Fetch,
        opcode_program(op) == Some(seq![MicroOp::ReadPcToAddrLo, MicroOp::ReadZpAddrToRegSetNZ(r)]),
    ensures
        tick_spec(at_op(c, op, 0), bus) == (
            at_op(Cpu { addr_lo: bus.mem@[c.pc as int], pc: wrap16(c.pc + 1), ..c }, op, 1),
            bus,
            false,
        ),
        tick_spec(at_op(c, op, 1), bus) == (c.load_nz(r, bus.mem@[c.addr_lo as int]), bus, true),
{
    reveal(micro_step);
}

proof fn lemma_zero_page_store_ticks(c: Cpu, bus: SimpleBus, op: u8, r: Reg)
    requires
        c.state is Fetch,
        opcode_program(op) == Some(seq![MicroOp::ReadPcToAddrLo, MicroOp::WriteRegToZpAddr(r)]),
    ensures
        tick_spec(at_op(c, op, 0), bus) == (
            at_op(Cpu { addr_lo: bus.mem@[c.pc as int], pc: wrap16(c.pc + 1), ..c }, op, 1),
            bus,
            false,
        ),
        tick_spec(at_op(c, op, 1), bus) == (c, bus.after_write(c.addr_lo as u16, c.reg_value(r)), true),
{
    reveal(micro_step);
}

/// On plain memory the zero-page loads `LDA`/`LDX`/`LDY zp` ($A5, $A6,
/// $A4) take three cycles and load the byte at the zero-page address in
/// their operand byte, setting zero and negative from it; the zero-page
/// stores `STA`/`STX`/`STY zp` ($85, $86, $84) take three cycles, write their
/// register there, change only that byte of memory and no flag. Both move PC
/// past their two bytes.
#[verifier::spinoff_prover]
pub proof fn lemma_zero_page_access(cpu: Cpu, bus: SimpleBus)
    requires
        cpu.state is Fetch,
        ({
            let op = bus.mem@[cpu.pc as int];
            op == 0xA5 || op == 0xA6 || op == 0xA4 || op == 0x85 || op == 0x86 || op == 0x84
        }),
    ensures
        ({
            let m = bus.mem@;
            let op = m[cpu.pc as int];
            let zp = m[wrap16(cpu.pc + 1) as int] as int;
            let v = m[zp];
            let (n, b, cycles) = instruction_spec(cpu, bus);
            &&& cycles == 3
            &&& n.pc == wrap16(cpu.pc + 2) && n.sp == cpu.sp && n.state is Fetch
            &&& op == 0xA5 ==> n.a == v && n.x == cpu.x && n.y == cpu.y
            &&& op == 0xA6 ==> n.x == v && n.a == cpu.a && n.y == cpu.y
            &&& op == 0xA4 ==> n.y == v && n.a == cpu.a && n.x == cpu.x
            &&& (op == 0xA5 || op == 0xA6 || op == 0xA4) ==> n.status == (Status {
                zero: v == 0,
                negative: v >= 128,
                ..cpu.status
            }) && b == bus
            &&& (op == 0x85 || op == 0x86 || op == 0x84) ==> n.a == cpu.a && n.x == cpu.x && n.y == cpu.y
                && n.status == cpu.status && b.mem@ == m.update(
                zp,
                if op == 0x85 {
                    cpu.a
                } else if op == 0x86 {
                    cpu.x
                } else {
                    cpu.y
                },
            )
        }),
{
    let m = bus.mem@;
    let op = m[cpu.pc as int];
    let r = if op == 0xA5 || op == 0x85 {
        Reg::A
    } else if op == 0xA6 || op == 0x86 {
        Reg::X
    } else {
        Reg::Y
    };
    assert(opcode_program(op) == Some(
        if op == 0xA5 || op == 0xA6 || op == 0xA4 {
            seq![MicroOp::ReadPcToAddrLo, MicroOp::ReadZpAddrToRegSetNZ(r)]
        } else {
            seq![MicroOp::ReadPcToAddrLo, MicroOp::WriteRegToZpAddr(r)]
        },
    ));
    let b0 = Cpu { pc: wrap16(cpu.pc + 1), ..cpu };
    let b1 = Cpu { addr_lo: m[wrap16(cpu.pc + 1) as int], pc: wrap16(cpu.pc + 2), ..cpu };
    if op == 0xA5 || op == 0xA6 || op == 0xA4 {
        lemma_zero_page_load_ticks(b0, bus, op, r);
        lemma_zero_page_load_ticks(b1, bus, op, r);
        let fin = b1.load_nz(r, m[b1.addr_lo as int]);
        assert(instruction_spec(at_op(b1, op, 1), bus) == (fin, bus, 1nat));
        assert(instruction_spec(at_op(b0, op, 0), bus) == (fin, bus, 2nat));
    } else {
        lemma_zero_page_store_ticks(b0, bus, op, r);
        lemma_zero_page_store_ticks(b1, bus, op, r);
        let b2 = bus.after_write(b1.addr_lo as u16, b1.reg_value(r));
        assert(instruction_spec(at_op(b1, op, 1), bus) == (b1, b2, 1nat));
        assert(instruction_spec(at_op(b0, op, 0), bus) == (b1, b2, 2nat));
    }
}

} // verus!
