use vstd::prelude::*;

use crate::bus::Bus;
use crate::microcode::{
    decode, interrupt_ops, is_implemented, interrupt_program, opcode_program, AluOp, AluSrc, BranchCond, MicroOp,
    Reg, ShiftOp, StatusPushKind, IRQ_VECTOR, NMI_VECTOR,
};

verus! {

/// Whether the current instruction goes on after a micro-operation.
#[derive(Debug, Clone, Copy, PartialEq, Eq, Structural)]
pub enum MicroFlow {
    /// Continue execution of the current instruction
    Continue,
    /// End the current instruction
    EndInstruction,
}

/// The processor status flags. Bit 5 always reads as set; bit 4 (break) is
/// not a flag: it exists only in the bytes that `PHP` and `BRK` push.
#[derive(Debug, Clone, Copy, PartialEq, Eq, Structural)]
pub struct Status {
    pub carry: bool,
    pub zero: bool,
    pub interrupt_disable: bool,
    pub decimal_mode: bool,
    pub overflow: bool,
    pub negative: bool,
}

/// Whether any bit of `mask` is set in `byte`.
pub open spec fn has_bit(byte: u8, mask: u8) -> bool {
    byte & mask != 0
}

/// `mask` when `b` holds, otherwise zero.
pub open spec fn flag(b: bool, mask: u8) -> u8 {
    if b {
        mask
    } else {
        0
    }
}

impl Status {
    pub open spec fn from_byte(byte: u8) -> Status {
        Status {
            carry: has_bit(byte, 0x01),
            zero: has_bit(byte, 0x02),
            interrupt_disable: has_bit(byte, 0x04),
            decimal_mode: has_bit(byte, 0x08),
            overflow: has_bit(byte, 0x40),
            negative: has_bit(byte, 0x80),
        }
    }

    /// The status as a byte, with bit 5 set and bit 4 clear.
    pub open spec fn to_byte(self) -> u8 {
        flag(self.carry, 0x01) | flag(self.zero, 0x02) | flag(self.interrupt_disable, 0x04) | flag(
            self.decimal_mode,
            0x08,
        ) | 0x20 | flag(self.overflow, 0x40) | flag(
            self.negative,
            0x80,
        )
    }
}

impl From<u8> for Status {
    fn from(byte: u8) -> (s: Self) {
        Status {
            carry: byte & 0x01 != 0,
            zero: byte & 0x02 != 0,
            interrupt_disable: byte & 0x04 != 0,
            decimal_mode: byte & 0x08 != 0,
            overflow: byte & 0x40 != 0,
            negative: byte & 0x80 != 0,
        }
    }
}

impl vstd::std_specs::convert::FromSpecImpl<u8> for Status {
    open spec fn obeys_from_spec() -> bool {
        true
    }

    open spec fn from_spec(v: u8) -> Self {
        Status::from_byte(v)
    }
}

impl From<Status> for u8 {
    fn from(val: Status) -> (byte: Self) {
        let c: u8 = if val.carry { 0x01 } else { 0 };
        let z: u8 = if val.zero { 0x02 } else { 0 };
        let i: u8 = if val.interrupt_disable { 0x04 } else { 0 };
        let d: u8 = if val.decimal_mode { 0x08 } else { 0 };
        let v: u8 = if val.overflow { 0x40 } else { 0 };
        let n: u8 = if val.negative { 0x80 } else { 0 };
        c | z | i | d | 0x20 | v | n
    }
}

impl vstd::std_specs::convert::FromSpecImpl<Status> for u8 {
    open spec fn obeys_from_spec() -> bool {
        true
    }

    open spec fn from_spec(v: Status) -> Self {
        v.to_byte()
    }
}

/// A status byte read back gives the same flags.
pub proof fn lemma_status_byte_round_trip(s: Status)
    ensures
        Status::from_byte(s.to_byte()) == s,
{
    let (c, z, i, d, v, n) = (
        s.carry,
        s.zero,
        s.interrupt_disable,
        s.decimal_mode,
        s.overflow,
        s.negative,
    );
    let b = s.to_byte();
    assert(b == flag(c, 0x01) | flag(z, 0x02) | flag(i, 0x04) | flag(d, 0x08) | 0x20 | flag(
        v,
        0x40,
    ) | flag(n, 0x80) ==> (has_bit(b, 0x01) == c && has_bit(b, 0x02) == z && has_bit(b, 0x04)
        == i && has_bit(b, 0x08) == d && has_bit(b, 0x40) == v && has_bit(b, 0x80) == n))
        by (bit_vector);
}

/// Converting a byte to flags and back sets bit 5, drops bit 4 and keeps
/// the others.
pub proof fn lemma_byte_status_round_trip(byte: u8)
    ensures
        Status::from_byte(byte).to_byte() == (byte & 0xEF) | 0x20,
{
    assert(flag(has_bit(byte, 0x01), 0x01) | flag(has_bit(byte, 0x02), 0x02) | flag(
        has_bit(byte, 0x04),
        0x04,
    ) | flag(has_bit(byte, 0x08), 0x08) | 0x20 | flag(has_bit(byte, 0x40), 0x40) | flag(
        has_bit(byte, 0x80),
        0x80,
    ) == (byte & 0xEF) | 0x20) by (bit_vector);
}

/// `PHP` and `BRK` push the status with bits 4 and 5 set; an interrupt
/// pushes it with bit 5 set and bit 4 clear, whatever was pulled before.
pub proof fn lemma_pushed_break_bit(s: Status)
    ensures
        pushed_status(s, StatusPushKind::PhpOrBrk) == s.to_byte() | 0x30,
        pushed_status(s, StatusPushKind::Interrupt) == s.to_byte(),
        s.to_byte() & 0x10 == 0,
        s.to_byte() & 0x20 == 0x20,
{
    let (c, z, i, d, v, n) = (
        s.carry,
        s.zero,
        s.interrupt_disable,
        s.decimal_mode,
        s.overflow,
        s.negative,
    );
    let b = s.to_byte();
    assert(b == flag(c, 0x01) | flag(z, 0x02) | flag(i, 0x04) | flag(d, 0x08) | 0x20 | flag(
        v,
        0x40,
    ) | flag(n, 0x80) ==> b & 0x10 == 0 && b & 0x20 == 0x20 && b | 0x20 == b) by (bit_vector);
}

/// The low 8 bits of `x`, for any integer.
pub open spec fn wrap8(x: int) -> u8 {
    (x % 256) as u8
}

/// The low 16 bits of `x`, for any integer.
pub open spec fn wrap16(x: int) -> u16 {
    (x % 0x10000) as u16
}

/// The address with high byte `hi` and low byte `lo`.
pub open spec fn word(hi: u8, lo: u8) -> u16 {
    (hi * 256 + lo) as u16
}

/// `v` read as a two's complement signed byte.
pub open spec fn signed(v: u8) -> int {
    if v < 128 {
        v as int
    } else {
        v - 256
    }
}

/// `s` with zero and negative set from `v`.
pub open spec fn with_nz(s: Status, v: u8) -> Status {
    Status { zero: v == 0, negative: v >= 0x80, ..s }
}

/// The new accumulator and flags of an ALU operation on `a` and operand `v`.
/// Decimal mode is ignored, as on the console's CPU.
pub open spec fn alu_result(op: AluOp, a: u8, v: u8, s: Status) -> (u8, Status) {
    match op {
        AluOp::And => (a & v, with_nz(s, a & v)),
        AluOp::Ora => (a | v, with_nz(s, a | v)),
        AluOp::Eor => (a ^ v, with_nz(s, a ^ v)),
        AluOp::Bit => (a, Status { zero: a & v == 0, overflow: has_bit(v, 0x40), negative: v >= 0x80, ..s }),
        AluOp::Adc => {
            let c = if s.carry { 1int } else { 0int };
            let r = wrap8(a + v + c);
            let signed_sum = signed(a) + signed(v) + c;
            (r, Status { carry: a + v + c > 255, overflow: signed_sum < -128 || signed_sum > 127, ..with_nz(s, r) })
        },
        AluOp::Sbc => {
            let b = if s.carry { 0int } else { 1int };
            let r = wrap8(a - v - b);
            let signed_diff = signed(a) - signed(v) - b;
            (r, Status { carry: a >= v + b, overflow: signed_diff < -128 || signed_diff > 127, ..with_nz(s, r) })
        },
    }
}

/// The flags after comparing `lhs` with `v` (carry: no borrow; zero: equal; negative: bit 7 of the difference).
pub open spec fn compare_result(lhs: u8, v: u8, s: Status) -> Status {
    Status { carry: lhs >= v, ..with_nz(s, wrap8(lhs - v)) }
}

/// The shifted value and the new flags (carry gets the bit shifted out).
pub open spec fn shift_result(op: ShiftOp, v: u8, s: Status) -> (u8, Status) {
    let c = if s.carry { 1int } else { 0int };
    let (r, carry) = match op {
        ShiftOp::Asl => (wrap8(v * 2), v >= 0x80),
        ShiftOp::Lsr => ((v / 2) as u8, v % 2 == 1),
        ShiftOp::Rol => (wrap8(v * 2 + c), v >= 0x80),
        ShiftOp::Ror => ((v / 2 + c * 128) as u8, v % 2 == 1),
    };
    (r, Status { carry: carry, ..with_nz(s, r) })
}

pub open spec fn branch_taken(s: Status, cond: BranchCond) -> bool {
    match cond {
        BranchCond::ZeroSet => s.zero,
        BranchCond::ZeroClear => !s.zero,
        BranchCond::NegativeSet => s.negative,
        BranchCond::NegativeClear => !s.negative,
        BranchCond::CarrySet => s.carry,
        BranchCond::CarryClear => !s.carry,
        BranchCond::OverflowSet => s.overflow,
        BranchCond::OverflowClear => !s.overflow,
    }
}

/// `s` with the flags whose bits are set in `mask` cleared.
pub open spec fn clear_bits(s: Status, mask: u8) -> Status {
    Status {
        carry: s.carry && !has_bit(mask, 0x01),
        zero: s.zero && !has_bit(mask, 0x02),
        interrupt_disable: s.interrupt_disable && !has_bit(mask, 0x04),
        decimal_mode: s.decimal_mode && !has_bit(mask, 0x08),
        overflow: s.overflow && !has_bit(mask, 0x40),
        negative: s.negative && !has_bit(mask, 0x80),
    }
}

/// `s` with the flags whose bits are set in `mask` set.
pub open spec fn set_bits(s: Status, mask: u8) -> Status {
    Status {
        carry: s.carry || has_bit(mask, 0x01),
        zero: s.zero || has_bit(mask, 0x02),
        interrupt_disable: s.interrupt_disable || has_bit(mask, 0x04),
        decimal_mode: s.decimal_mode || has_bit(mask, 0x08),
        overflow: s.overflow || has_bit(mask, 0x40),
        negative: s.negative || has_bit(mask, 0x80),
    }
}

/// The byte a push of the status writes: the break bit is set for `PHP` and `BRK`.
pub open spec fn pushed_status(s: Status, kind: StatusPushKind) -> u8 {
    match kind {
        StatusPushKind::PhpOrBrk => s.to_byte() | 0x30,
        StatusPushKind::Interrupt => s.to_byte() | 0x20,
    }
}

/// The program a microcode cursor walks through.
#[derive(Debug, Clone, Copy, PartialEq, Eq, Structural)]
pub enum CpuProgram {
    Opcode(u8),
    Nmi,
    Irq,
}

pub open spec fn program_ops(program: CpuProgram) -> Option<Seq<MicroOp>> {
    match program {
        CpuProgram::Opcode(opcode) => opcode_program(opcode),
        CpuProgram::Nmi => Some(interrupt_program(NMI_VECTOR)),
        CpuProgram::Irq => Some(interrupt_program(IRQ_VECTOR)),
    }
}

/// A position in a program: the micro-operation to run next.
#[derive(Debug, Clone, Copy, PartialEq, Eq, Structural)]
pub struct MicrocodeCursor {
    pub program: CpuProgram,
    pub next_op: u8,
}

impl MicrocodeCursor {
    /// The cursor points at a micro-operation of its program.
    pub open spec fn valid(self) -> bool {
        &&& program_ops(self.program) is Some
        &&& self.next_op < program_ops(self.program)->0.len()
    }

    pub open spec fn op(self) -> MicroOp {
        program_ops(self.program)->0[self.next_op as int]
    }

    /// The number of micro-operations from the cursor to the end of its program.
    pub open spec fn remaining(self) -> int {
        program_ops(self.program)->0.len() - self.next_op
    }
}

#[derive(Debug, Clone, Copy, PartialEq, Eq, Structural)]
pub enum CpuState {
    /// The next cycle fetches an opcode.
    Fetch,
    /// The next cycle runs the micro-operation under the cursor.
    Exec(MicrocodeCursor),
}

#[derive(Debug, Clone, Copy, PartialEq, Eq, Structural)]
pub struct Cpu {
    pub a: u8,
    pub x: u8,
    pub y: u8,
    pub sp: u8,
    pub pc: u16,
    pub status: Status,
    pub addr_lo: u8,
    pub addr_hi: u8,
    pub eff_addr: u16,
    pub data: u8,
    pub branch_target: u16,
    pub branch_page_cross: bool,
    pub state: CpuState,
}

/// Whether a cycle reads or writes the bus.
#[derive(Debug, Clone, Copy, PartialEq, Eq, Structural)]
pub enum CpuCycleKind {
    Read,
    Write,
}

/// The micro-operations that write the bus.
pub open spec fn is_write_op(op: MicroOp) -> bool {
    match op {
        MicroOp::WriteRegToZpAddr(_)
        | MicroOp::WriteRegToEffAddr(_)
        | MicroOp::StackPushReg(_)
        | MicroOp::StackPushPcHi
        | MicroOp::StackPushPcLo
        | MicroOp::StackPushStatus(_)
        | MicroOp::IncDataSetNZAndWriteZpAddr
        | MicroOp::DecDataSetNZAndWriteZpAddr
        | MicroOp::IncDataSetNZAndWriteEffAddr
        | MicroOp::DecDataSetNZAndWriteEffAddr
        | MicroOp::WriteDataToZpAddr
        | MicroOp::WriteDataToEffAddr
        | MicroOp::ShiftDataSetCZNAndWriteZpAddr(_)
        | MicroOp::ShiftDataSetCZNAndWriteEffAddr(_) => true,
        _ => false,
    }
}

/// The micro-operations whose cycles the DMA engines see as write cycles
/// (a halt cannot land on them): every bus write except the register store
/// to an effective address (`STA`/`STX`/`STY` absolute, indexed and
/// indirect), whose cycle is reported as a read, so a DMA halt can land on it.
pub open spec fn is_write_cycle_op(op: MicroOp) -> bool {
    is_write_op(op) && !(op is WriteRegToEffAddr)
}

impl Cpu {
    /// The state's cursor, if any, points into its program.
    pub open spec fn wf(self) -> bool {
        match self.state {
            CpuState::Fetch => true,
            CpuState::Exec(cursor) => cursor.valid(),
        }
    }

    pub open spec fn reg_value(self, r: Reg) -> u8 {
        match r {
            Reg::A => self.a,
            Reg::X => self.x,
            Reg::Y => self.y,
            Reg::SP => self.sp,
        }
    }

    pub open spec fn with_reg(self, r: Reg, v: u8) -> Cpu {
        match r {
            Reg::A => Cpu { a: v, ..self },
            Reg::X => Cpu { x: v, ..self },
            Reg::Y => Cpu { y: v, ..self },
            Reg::SP => Cpu { sp: v, ..self },
        }
    }

    /// `r` loaded with `v`, zero and negative set from `v`.
    pub open spec fn load_nz(self, r: Reg, v: u8) -> Cpu {
        Cpu { status: with_nz(self.status, v), ..self.with_reg(r, v) }
    }

    pub open spec fn stack_address(self) -> u16 {
        (0x100 + self.sp) as u16
    }

    /// The address an ALU or compare operand is read from, and the CPU after
    /// locating it (an immediate operand advances PC).
    pub open spec fn operand(self, src: AluSrc) -> (u16, Cpu) {
        match src {
            AluSrc::Imm => (self.pc, Cpu { pc: wrap16(self.pc + 1), ..self }),
            AluSrc::ZpAddrLo => (self.addr_lo as u16, self),
            AluSrc::EffAddr => (self.eff_addr, self),
        }
    }
}

/// The address of the next zero-page byte after the low byte of `addr`.
pub open spec fn next_zp(addr: u16) -> u16 {
    wrap8(addr % 256 + 1) as u16
}

/// One micro-operation among the reads through PC, the zero page or an address register.
pub open spec fn fetch_step<B: Bus>(cpu: Cpu, bus: B, op: MicroOp) -> (Cpu, B, MicroFlow) {
    let pc1 = wrap16(cpu.pc + 1);
    let go = MicroFlow::Continue;
    let end = MicroFlow::EndInstruction;
    match op {
        MicroOp::ReadPcAndDiscard => (Cpu { pc: pc1, ..cpu }, bus.after_read(cpu.pc), go),
        MicroOp::ReadPcAndDiscardNoInc => (cpu, bus.after_read(cpu.pc), go),
        MicroOp::ReadPcToRegSetNZ(r) => (
            Cpu { pc: pc1, ..cpu }.load_nz(r, bus.read_value(cpu.pc)),
            bus.after_read(cpu.pc),
            go,
        ),
        MicroOp::ReadPcToAddrLo => (
            Cpu { addr_lo: bus.read_value(cpu.pc), pc: pc1, ..cpu },
            bus.after_read(cpu.pc),
            go,
        ),
        MicroOp::ReadPcToAddrHi => {
            let hi = bus.read_value(cpu.pc);
            (
                Cpu { addr_hi: hi, pc: pc1, eff_addr: word(hi, cpu.addr_lo), ..cpu },
                bus.after_read(cpu.pc),
                go,
            )
        },
        MicroOp::ReadPcToAddrHiSetPc => {
            let hi = bus.read_value(cpu.pc);
            (Cpu { addr_hi: hi, pc: word(hi, cpu.addr_lo), ..cpu }, bus.after_read(cpu.pc), end)
        },
        MicroOp::ReadJmpIndirectAddrHiAndJump => {
            let p = word((cpu.eff_addr / 256) as u8, wrap8(cpu.eff_addr % 256 + 1));
            let hi = bus.read_value(p);
            (Cpu { addr_hi: hi, pc: word(hi, cpu.addr_lo), ..cpu }, bus.after_read(p), end)
        },
        MicroOp::ReadEffAddrToRegSetNZ(r) => (
            cpu.load_nz(r, bus.read_value(cpu.eff_addr)),
            bus.after_read(cpu.eff_addr),
            go,
        ),
        MicroOp::ReadEffAddrToAddrLo => (
            Cpu { addr_lo: bus.read_value(cpu.eff_addr), ..cpu },
            bus.after_read(cpu.eff_addr),
            go,
        ),
        MicroOp::ReadEffAddrToAddrHi | MicroOp::ReadZpPtrHiToAddrHi => {
            let p = next_zp(cpu.eff_addr);
            let hi = bus.read_value(p);
            (Cpu { addr_hi: hi, eff_addr: word(hi, cpu.addr_lo), ..cpu }, bus.after_read(p), go)
        },
        MicroOp::ReadZpPtrLoToAddrLo => {
            let p = cpu.addr_lo as u16;
            (Cpu { eff_addr: p, addr_lo: bus.read_value(p), ..cpu }, bus.after_read(p), go)
        },
        MicroOp::ReadZpAddrToRegSetNZ(r) => {
            let p = cpu.addr_lo as u16;
            (cpu.load_nz(r, bus.read_value(p)), bus.after_read(p), go)
        },
        MicroOp::ZpIndexedDummyReadAndCompute(index) => (
            Cpu { eff_addr: wrap8(cpu.addr_lo + cpu.reg_value(index)) as u16, ..cpu },
            bus.after_read(cpu.addr_lo as u16),
            go,
        ),
        MicroOp::IndexEffAddrNoPenalty(index) => {
            let e = wrap16(cpu.eff_addr + cpu.reg_value(index));
            (Cpu { eff_addr: e, ..cpu }, bus.after_read(e), go)
        },
        MicroOp::ReadVectorLo(addr) => (
            Cpu { addr_lo: bus.read_value(addr), ..cpu },
            bus.after_read(addr),
            go,
        ),
        MicroOp::ReadVectorHiSetPcAndI(addr) => {
            let hi = bus.read_value(addr);
            (
                Cpu {
                    addr_hi: hi,
                    pc: word(hi, cpu.addr_lo),
                    status: Status { interrupt_disable: true, ..cpu.status },
                    ..cpu
                },
                bus.after_read(addr),
                go,
            )
        },
        _ => (cpu, bus, go),
    }
}

/// One micro-operation among the indexed reads, ALU operations, compares and branches.
pub open spec fn operand_step<B: Bus>(cpu: Cpu, bus: B, op: MicroOp) -> (Cpu, B, MicroFlow) {
    let pc1 = wrap16(cpu.pc + 1);
    let go = MicroFlow::Continue;
    let end = MicroFlow::EndInstruction;
    match op {
        MicroOp::AbsIndexedReadOrDummy(index, dest) => {
            let sum = cpu.addr_lo + cpu.reg_value(index);
            let p = word(cpu.addr_hi, wrap8(sum));
            if sum <= 255 {
                (cpu.load_nz(dest, bus.read_value(p)), bus.after_read(p), end)
            } else {
                (
                    Cpu { eff_addr: word(wrap8(cpu.addr_hi + 1), wrap8(sum)), ..cpu },
                    bus.after_read(p),
                    go,
                )
            }
        },
        MicroOp::AbsIndexedAluAOrDummy(index, aop) => {
            let sum = cpu.addr_lo + cpu.reg_value(index);
            let p = word(cpu.addr_hi, wrap8(sum));
            if sum <= 255 {
                let (a, st) = alu_result(aop, cpu.a, bus.read_value(p), cpu.status);
                (Cpu { a: a, status: st, ..cpu }, bus.after_read(p), end)
            } else {
                (
                    Cpu { eff_addr: word(wrap8(cpu.addr_hi + 1), wrap8(sum)), ..cpu },
                    bus.after_read(p),
                    go,
                )
            }
        },
        MicroOp::AbsIndexedCompareOrDummy(index, r) => {
            let sum = cpu.addr_lo + cpu.reg_value(index);
            let p = word(cpu.addr_hi, wrap8(sum));
            if sum <= 255 {
                (
                    Cpu { status: compare_result(cpu.reg_value(r), bus.read_value(p), cpu.status), ..cpu },
                    bus.after_read(p),
                    end,
                )
            } else {
                (
                    Cpu { eff_addr: word(wrap8(cpu.addr_hi + 1), wrap8(sum)), ..cpu },
                    bus.after_read(p),
                    go,
                )
            }
        },
        MicroOp::Alu(aop, src) => {
            let (p, c) = cpu.operand(src);
            let (a, st) = alu_result(aop, c.a, bus.read_value(p), c.status);
            (Cpu { a: a, status: st, ..c }, bus.after_read(p), go)
        },
        MicroOp::Compare(r, src) => {
            let (p, c) = cpu.operand(src);
            (
                Cpu { status: compare_result(c.reg_value(r), bus.read_value(p), c.status), ..c },
                bus.after_read(p),
                go,
            )
        },
        MicroOp::BranchReadOffsetAndDecide(cond) => {
            let offset = bus.read_value(cpu.pc);
            if !branch_taken(cpu.status, cond) {
                (Cpu { pc: pc1, ..cpu }, bus.after_read(cpu.pc), end)
            } else {
                let target = wrap16(pc1 + signed(offset));
                (
                    Cpu {
                        pc: pc1,
                        branch_target: target,
                        branch_page_cross: pc1 / 256 != target / 256,
                        ..cpu
                    },
                    bus.after_read(cpu.pc),
                    go,
                )
            }
        },
        MicroOp::BranchApplyIfTaken => (
            Cpu { pc: cpu.branch_target, ..cpu },
            bus.after_read(cpu.pc),
            if cpu.branch_page_cross {
                go
            } else {
                end
            },
        ),
        MicroOp::BranchPageCrossPenalty => (cpu, bus.after_read(cpu.pc), go),
        _ => (cpu, bus, go),
    }
}

/// One micro-operation among the stack operations and the cycles that do nothing on the bus.
pub open spec fn stack_step<B: Bus>(cpu: Cpu, bus: B, op: MicroOp) -> (Cpu, B, MicroFlow) {
    let pc1 = wrap16(cpu.pc + 1);
    let go = MicroFlow::Continue;
    let end = MicroFlow::EndInstruction;
    match op {
        MicroOp::ExtraCycle => (cpu, bus, go),
        MicroOp::StackIncSp => (Cpu { sp: wrap8(cpu.sp + 1), ..cpu }, bus, go),
        MicroOp::StackPushReg(r) => {
            // the register is read after the stack pointer moves
            let c = Cpu { sp: wrap8(cpu.sp - 1), ..cpu };
            (c, bus.after_write(cpu.stack_address(), c.reg_value(r)), go)
        },
        MicroOp::StackPushPcHi => (
            Cpu { sp: wrap8(cpu.sp - 1), ..cpu },
            bus.after_write(cpu.stack_address(), (cpu.pc / 256) as u8),
            go,
        ),
        MicroOp::StackPushPcLo => (
            Cpu { sp: wrap8(cpu.sp - 1), ..cpu },
            bus.after_write(cpu.stack_address(), (cpu.pc % 256) as u8),
            go,
        ),
        MicroOp::StackPushStatus(kind) => (
            Cpu { sp: wrap8(cpu.sp - 1), ..cpu },
            bus.after_write(cpu.stack_address(), pushed_status(cpu.status, kind)),
            go,
        ),
        MicroOp::StackPullRegSetNZ(r) => {
            let c = Cpu { sp: wrap8(cpu.sp + 1), ..cpu };
            let p = c.stack_address();
            (c.load_nz(r, bus.read_value(p)), bus.after_read(p), go)
        },
        MicroOp::StackPullStatus => {
            let c = Cpu { sp: wrap8(cpu.sp + 1), ..cpu };
            let p = c.stack_address();
            (Cpu { status: Status::from_byte(bus.read_value(p)), ..c }, bus.after_read(p), go)
        },
        MicroOp::StackReadPcLoThenIncSp => {
            let p = cpu.stack_address();
            (
                Cpu { addr_lo: bus.read_value(p), sp: wrap8(cpu.sp + 1), ..cpu },
                bus.after_read(p),
                go,
            )
        },
        MicroOp::StackReadPcHi => {
            let p = cpu.stack_address();
            let hi = bus.read_value(p);
            (Cpu { addr_hi: hi, pc: word(hi, cpu.addr_lo), ..cpu }, bus.after_read(p), go)
        },
        MicroOp::StackReadStatusThenIncSp => {
            let p = cpu.stack_address();
            (
                Cpu { status: Status::from_byte(bus.read_value(p)), sp: wrap8(cpu.sp + 1), ..cpu },
                bus.after_read(p),
                go,
            )
        },
        MicroOp::IncPc => (Cpu { pc: pc1, ..cpu }, bus, go),
        _ => (cpu, bus, go),
    }
}

/// One micro-operation among the register, flag and read-modify-write operations.
pub open spec fn modify_step<B: Bus>(cpu: Cpu, bus: B, op: MicroOp) -> (Cpu, B, MicroFlow) {
    let pc1 = wrap16(cpu.pc + 1);
    let go = MicroFlow::Continue;
    let end = MicroFlow::EndInstruction;
    match op {
        MicroOp::WriteRegToEffAddr(r) => (cpu, bus.after_write(cpu.eff_addr, cpu.reg_value(r)), go),
        MicroOp::WriteRegToZpAddr(r) => (
            cpu,
            bus.after_write(cpu.addr_lo as u16, cpu.reg_value(r)),
            go,
        ),
        MicroOp::CopyRegToRegSetNZ(src, dest) => (cpu.load_nz(dest, cpu.reg_value(src)), bus, go),
        MicroOp::CopyRegToReg(src, dest) => (cpu.with_reg(dest, cpu.reg_value(src)), bus, go),
        MicroOp::ClearStatusBit(mask) => (Cpu { status: clear_bits(cpu.status, mask), ..cpu }, bus, go),
        MicroOp::SetStatusBit(mask) => (Cpu { status: set_bits(cpu.status, mask), ..cpu }, bus, go),
        MicroOp::IncRegSetNZ(r) => (cpu.load_nz(r, wrap8(cpu.reg_value(r) + 1)), bus, go),
        MicroOp::DecRegSetNZ(r) => (cpu.load_nz(r, wrap8(cpu.reg_value(r) - 1)), bus, go),
        MicroOp::IncDataSetNZAndWriteZpAddr => {
            let d = wrap8(cpu.data + 1);
            (
                Cpu { data: d, status: with_nz(cpu.status, d), ..cpu },
                bus.after_write(cpu.addr_lo as u16, d),
                go,
            )
        },
        MicroOp::DecDataSetNZAndWriteZpAddr => {
            let d = wrap8(cpu.data - 1);
            (
                Cpu { data: d, status: with_nz(cpu.status, d), ..cpu },
                bus.after_write(cpu.addr_lo as u16, d),
                go,
            )
        },
        MicroOp::IncDataSetNZAndWriteEffAddr => {
            let d = wrap8(cpu.data + 1);
            (
                Cpu { data: d, status: with_nz(cpu.status, d), ..cpu },
                bus.after_write(cpu.eff_addr, d),
                go,
            )
        },
        MicroOp::DecDataSetNZAndWriteEffAddr => {
            let d = wrap8(cpu.data - 1);
            (
                Cpu { data: d, status: with_nz(cpu.status, d), ..cpu },
                bus.after_write(cpu.eff_addr, d),
                go,
            )
        },
        MicroOp::ReadZpAddrToData => (
            Cpu { data: bus.read_value(cpu.addr_lo as u16), ..cpu },
            bus.after_read(cpu.addr_lo as u16),
            go,
        ),
        MicroOp::WriteDataToZpAddr => (cpu, bus.after_write(cpu.addr_lo as u16, cpu.data), go),
        MicroOp::ReadEffAddrToData => (
            Cpu { data: bus.read_value(cpu.eff_addr), ..cpu },
            bus.after_read(cpu.eff_addr),
            go,
        ),
        MicroOp::WriteDataToEffAddr => (cpu, bus.after_write(cpu.eff_addr, cpu.data), go),
        MicroOp::ShiftRegSetCZN(r, sop) => {
            let (v, st) = shift_result(sop, cpu.reg_value(r), cpu.status);
            (Cpu { status: st, ..cpu.with_reg(r, v) }, bus, go)
        },
        MicroOp::ShiftDataSetCZNAndWriteZpAddr(sop) => {
            let (d, st) = shift_result(sop, cpu.data, cpu.status);
            (Cpu { data: d, status: st, ..cpu }, bus.after_write(cpu.addr_lo as u16, d), go)
        },
        MicroOp::ShiftDataSetCZNAndWriteEffAddr(sop) => {
            let (d, st) = shift_result(sop, cpu.data, cpu.status);
            (Cpu { data: d, status: st, ..cpu }, bus.after_write(cpu.eff_addr, d), go)
        },
        _ => (cpu, bus, go),
    }
}

/// One micro-operation: the CPU and bus after it, and whether the instruction ends.
#[verifier::opaque]
pub open spec fn micro_step<B: Bus>(cpu: Cpu, bus: B, op: MicroOp) -> (Cpu, B, MicroFlow) {
    if is_fetch_op(op) {
        fetch_step(cpu, bus, op)
    } else if is_operand_op(op) {
        operand_step(cpu, bus, op)
    } else if is_stack_op(op) {
        stack_step(cpu, bus, op)
    } else {
        modify_step(cpu, bus, op)
    }
}

/// Subtracting `v` with borrow is adding its complement with carry.
pub proof fn lemma_sbc_is_adc_of_complement(a: u8, v: u8, s: Status)
    ensures
        alu_result(AluOp::Sbc, a, v, s) == alu_result(AluOp::Adc, a, (255 - v) as u8, s),
{
    let c = if s.carry { 1int } else { 0int };
    let w = (255 - v) as u8;
    assert(signed(w) == -signed(v) - 1);
    assert(a + w + c == (a - v - (1 - c)) + 256);
    assert(wrap8(a + w + c) == wrap8(a - v - (1 - c)));
}

proof fn lemma_sign_bit_forms(a: u8, v: u8, r: u8)
    by (bit_vector)
    ensures
        ((a ^ r) & (v ^ r) & 0x80 != 0) == ((a < 128 && v < 128 && r >= 128) || (a >= 128 && v >= 128
            && r < 128)),
        ((a ^ r) & (a ^ v) & 0x80 != 0) == ((a < 128 && v >= 128 && r >= 128) || (a >= 128 && v < 128
            && r < 128)),
        (r & 0x80 != 0) == (r >= 128),
{
}

/// A compare sets carry when the register is at least the operand, zero when
/// they are equal, and negative from bit 7 of their difference; it changes no
/// other flag.
pub proof fn lemma_compare_flags(lhs: u8, v: u8, s: Status)
    ensures
        compare_result(lhs, v, s).carry == (lhs >= v),
        compare_result(lhs, v, s).zero == (lhs == v),
        compare_result(lhs, v, s).negative == (wrap8(lhs - v) & 0x80 != 0),
        compare_result(lhs, v, s).overflow == s.overflow,
        compare_result(lhs, v, s).interrupt_disable == s.interrupt_disable,
        compare_result(lhs, v, s).decimal_mode == s.decimal_mode,
{
    lemma_sign_bit_forms(lhs, v, wrap8(lhs - v));
}

/// An addition overflows exactly when both operands have the same sign and
/// the result has the other: `(a ^ r) & (v ^ r) & 0x80 != 0`.
pub proof fn lemma_adc_overflow_sign_rule(a: u8, v: u8, s: Status)
    ensures
        ({
            let (r, t) = alu_result(AluOp::Adc, a, v, s);
            t.overflow == ((a ^ r) & (v ^ r) & 0x80 != 0)
        }),
{
    let (r, t) = alu_result(AluOp::Adc, a, v, s);
    lemma_sign_bit_forms(a, v, r);
    let c = if s.carry { 1int } else { 0int };
    if a >= 128 && v >= 128 {
        assert(r == a + v + c - 256);
    } else if a < 128 && v < 128 {
        assert(r == a + v + c);
    }
}

/// A subtraction overflows exactly when the operands have different signs
/// and the result's sign differs from the minuend's:
/// `(a ^ r) & (a ^ v) & 0x80 != 0`.
pub proof fn lemma_sbc_overflow_sign_rule(a: u8, v: u8, s: Status)
    ensures
        ({
            let (r, t) = alu_result(AluOp::Sbc, a, v, s);
            t.overflow == ((a ^ r) & (a ^ v) & 0x80 != 0)
        }),
{
    let (r, t) = alu_result(AluOp::Sbc, a, v, s);
    lemma_sign_bit_forms(a, v, r);
    let b = if s.carry { 0int } else { 1int };
    if a < 128 && v >= 128 {
        assert(r == a - v - b + 256);
    } else if a >= 128 && v < 128 {
        assert(r == a - v - b);
    }
}

/// Every micro-operation uses the bus at most once: one that the cycle
/// classification counts as a write performs exactly one write and no read,
/// and every other one performs at most one read and no write.
pub proof fn lemma_micro_step_bus_access<B: Bus>(cpu: Cpu, bus: B, op: MicroOp)
    ensures
        is_write_op(op) ==> exists|addr: u16, value: u8| #[trigger]
            bus.after_write(addr, value) == micro_step(cpu, bus, op).1,
        !is_write_op(op) ==> micro_step(cpu, bus, op).1 == bus || exists|addr: u16| #[trigger]
            bus.after_read(addr) == micro_step(cpu, bus, op).1,
{
    reveal(micro_step);
}

/// Only these micro-operations can end an instruction early: the jumps'
/// last reads, a branch not taken or taken within its page, and an indexed
/// read whose address stays within its page.
pub proof fn lemma_micro_step_ends_instruction<B: Bus>(cpu: Cpu, bus: B, op: MicroOp)
    ensures
        micro_step(cpu, bus, op).2 == MicroFlow::EndInstruction <==> {
            ||| op is ReadPcToAddrHiSetPc
            ||| op is ReadJmpIndirectAddrHiAndJump
            ||| (op matches MicroOp::BranchReadOffsetAndDecide(cond) && !branch_taken(cpu.status, cond))
            ||| (op is BranchApplyIfTaken && !cpu.branch_page_cross)
            ||| (op matches MicroOp::AbsIndexedReadOrDummy(i, _) && cpu.addr_lo + cpu.reg_value(i) <= 255)
            ||| (op matches MicroOp::AbsIndexedAluAOrDummy(i, _) && cpu.addr_lo + cpu.reg_value(i) <= 255)
            ||| (op matches MicroOp::AbsIndexedCompareOrDummy(i, _) && cpu.addr_lo + cpu.reg_value(i)
                <= 255)
        },
{
    reveal(micro_step);
}

/// Pushing the flags writes one byte at the stack address and moves the
/// stack pointer down; PHP and BRK push the flags with bits 4 and 5 set, an
/// interrupt with bit 4 clear and bit 5 set. Nothing else changes.
pub proof fn lemma_status_push_step<B: Bus>(cpu: Cpu, bus: B, kind: StatusPushKind)
    ensures
        micro_step(cpu, bus, MicroOp::StackPushStatus(kind)) == (
            Cpu { sp: wrap8(cpu.sp - 1), ..cpu },
            bus.after_write(
                cpu.stack_address(),
                match kind {
                    StatusPushKind::PhpOrBrk => cpu.status.to_byte() | 0x30,
                    StatusPushKind::Interrupt => cpu.status.to_byte(),
                },
            ),
            MicroFlow::Continue,
        ),
        cpu.status.to_byte() & 0x10 == 0,
        cpu.status.to_byte() & 0x20 == 0x20,
{
    reveal(micro_step);
    lemma_pushed_break_bit(cpu.status);
}

/// The accumulator shifts on any bus: `ASL A` ($0A), `LSR A` ($4A), `ROL A`
/// ($2A) and `ROR A` ($6A) take two cycles, read only their opcode, and leave
/// in A the value shifted one place (left for ASL and ROL, right for LSR and
/// ROR), with the old carry rotated in by ROL (at bit 0) and ROR (at bit 7)
/// and the bit shifted out in carry; zero and negative follow the result and
/// every other register and flag is kept.
#[verifier::spinoff_prover]
#[verifier::rlimit(60)]
pub proof fn lemma_accumulator_shift<B: Bus>(cpu: Cpu, bus: B)
    requires
        cpu.state is Fetch,
        bus.read_value(cpu.pc) == 0x0A || bus.read_value(cpu.pc) == 0x4A || bus.read_value(cpu.pc)
            == 0x2A || bus.read_value(cpu.pc) == 0x6A,
    ensures
        ({
            let opcode = bus.read_value(cpu.pc);
            let a = cpu.a as int;
            let c: int = if cpu.status.carry {
                1
            } else {
                0
            };
            let result: int = if opcode == 0x0A {
                (2 * a) % 256
            } else if opcode == 0x4A {
                a / 2
            } else if opcode == 0x2A {
                (2 * a + c) % 256
            } else {
                a / 2 + 128 * c
            };
            let shifted_out = if opcode == 0x0A || opcode == 0x2A {
                a >= 128
            } else {
                a % 2 == 1
            };
            let (n, b, cycles) = instruction_spec(cpu, bus);
            &&& cycles == 2
            &&& n.a == result
            &&& n.status.carry == shifted_out
            &&& n.status.zero == (result == 0)
            &&& n.status.negative == (result >= 128)
            &&& n.status.overflow == cpu.status.overflow
            &&& n.status.interrupt_disable == cpu.status.interrupt_disable
            &&& n.status.decimal_mode == cpu.status.decimal_mode
            &&& n.x == cpu.x && n.y == cpu.y && n.sp == cpu.sp
            &&& n.pc == wrap16(cpu.pc + 1)
            &&& n.state is Fetch
            &&& b == bus.after_read(cpu.pc)
        }),
{
    let opcode = bus.read_value(cpu.pc);
    let b1 = bus.after_read(cpu.pc);
    let c0 = Cpu { pc: wrap16(cpu.pc + 1), ..cpu };
    let c1 = Cpu {
        state: CpuState::Exec(MicrocodeCursor { program: CpuProgram::Opcode(opcode), next_op: 0 }),
        ..c0
    };
    assert(tick_spec(cpu, bus) == (c1, b1, false));
    let sop = if opcode == 0x0A {
        ShiftOp::Asl
    } else if opcode == 0x4A {
        ShiftOp::Lsr
    } else if opcode == 0x2A {
        ShiftOp::Rol
    } else {
        ShiftOp::Ror
    };
    assert(opcode_program(opcode) == Some(seq![MicroOp::ShiftRegSetCZN(Reg::A, sop)]));
    let (v, st) = shift_result(sop, cpu.a, cpu.status);
    let fin = Cpu { a: v, status: st, ..c0 };
    assert(tick_spec(c1, b1) == (fin, b1, true)) by {
        reveal(micro_step);
    }
    assert(instruction_spec(c1, b1) == (fin, b1, 1nat));
}

/// An instruction whose program is the single micro-operation `op`: two
/// cycles, the opcode fetch and `op` with PC past the opcode.
proof fn lemma_one_op_instruction<B: Bus>(cpu: Cpu, bus: B, op: MicroOp)
    requires
        cpu.state is Fetch,
        opcode_program(bus.read_value(cpu.pc)) == Some(seq![op]),
    ensures
        ({
            let (c, b, _) = micro_step(Cpu { pc: wrap16(cpu.pc + 1), ..cpu }, bus.after_read(cpu.pc), op);
            instruction_spec(cpu, bus) == (c, b, 2nat)
        }),
{
    let opcode = bus.read_value(cpu.pc);
    let b1 = bus.after_read(cpu.pc);
    let c0 = Cpu { pc: wrap16(cpu.pc + 1), ..cpu };
    let c1 = Cpu {
        state: CpuState::Exec(MicrocodeCursor { program: CpuProgram::Opcode(opcode), next_op: 0 }),
        ..c0
    };
    assert(tick_spec(cpu, bus) == (c1, b1, false));
    assert(Cpu { state: CpuState::Fetch, ..c1 } == c0);
    let (c, b, _) = micro_step(c0, b1, op);
    assert(tick_spec(c1, b1) == (c, b, true));
    assert(instruction_spec(c1, b1) == (c, b, 1nat));
}

proof fn lemma_flag_masks()
    by (bit_vector)
    ensures
        0x01u8 & 0x01u8 != 0 && 0x01u8 & 0x02u8 == 0 && 0x01u8 & 0x04u8 == 0 && 0x01u8 & 0x08u8 == 0
            && 0x01u8 & 0x40u8 == 0 && 0x01u8 & 0x80u8 == 0,
        0x04u8 & 0x01u8 == 0 && 0x04u8 & 0x02u8 == 0 && 0x04u8 & 0x04u8 != 0 && 0x04u8 & 0x08u8 == 0
            && 0x04u8 & 0x40u8 == 0 && 0x04u8 & 0x80u8 == 0,
        0x08u8 & 0x01u8 == 0 && 0x08u8 & 0x02u8 == 0 && 0x08u8 & 0x04u8 == 0 && 0x08u8 & 0x08u8 != 0
            && 0x08u8 & 0x40u8 == 0 && 0x08u8 & 0x80u8 == 0,
        0x40u8 & 0x01u8 == 0 && 0x40u8 & 0x02u8 == 0 && 0x40u8 & 0x04u8 == 0 && 0x40u8 & 0x08u8 == 0
            && 0x40u8 & 0x40u8 != 0 && 0x40u8 & 0x80u8 == 0,
{
}

/// The flag instructions take two cycles and change exactly one flag: `CLC`
/// ($18) and `SEC` ($38) carry, `CLI` ($58) and `SEI` ($78) interrupt
/// disable, `CLV` ($B8) overflow, `CLD` ($D8) and `SED` ($F8) decimal mode;
/// the registers stay and PC moves past the opcode.
#[verifier::spinoff_prover]
#[verifier::rlimit(60)]
pub proof fn lemma_flag_instructions<B: Bus>(cpu: Cpu, bus: B)
    requires
        cpu.state is Fetch,
        ({
            let op = bus.read_value(cpu.pc);
            op == 0x18 || op == 0x38 || op == 0x58 || op == 0x78 || op == 0xB8 || op == 0xD8 || op == 0xF8
        }),
    ensures
        ({
            let op = bus.read_value(cpu.pc);
            let s = cpu.status;
            let (n, b, cycles) = instruction_spec(cpu, bus);
            &&& cycles == 2
            &&& n.status.carry == if op == 0x18 {
                false
            } else if op == 0x38 {
                true
            } else {
                s.carry
            }
            &&& n.status.interrupt_disable == if op == 0x58 {
                false
            } else if op == 0x78 {
                true
            } else {
                s.interrupt_disable
            }
            &&& n.status.overflow == if op == 0xB8 {
                false
            } else {
                s.overflow
            }
            &&& n.status.decimal_mode == if op == 0xD8 {
                false
            } else if op == 0xF8 {
                true
            } else {
                s.decimal_mode
            }
            &&& n.status.zero == s.zero && n.status.negative == s.negative
            &&& n.a == cpu.a && n.x == cpu.x && n.y == cpu.y && n.sp == cpu.sp
            &&& n.pc == wrap16(cpu.pc + 1)
            &&& b == bus.after_read(cpu.pc)
        }),
{
    let op = bus.read_value(cpu.pc);
    lemma_flag_masks();
    let mop = if op == 0x18 {
        MicroOp::ClearStatusBit(0x01)
    } else if op == 0x38 {
        MicroOp::SetStatusBit(0x01)
    } else if op == 0x58 {
        MicroOp::ClearStatusBit(0x04)
    } else if op == 0x78 {
        MicroOp::SetStatusBit(0x04)
    } else if op == 0xB8 {
        MicroOp::ClearStatusBit(0x40)
    } else if op == 0xD8 {
        MicroOp::ClearStatusBit(0x08)
    } else {
        MicroOp::SetStatusBit(0x08)
    };
    lemma_one_op_instruction(cpu, bus, mop);
    reveal(micro_step);
}

/// The register instructions take two cycles: transfers `TAX` ($AA), `TAY`
/// ($A8), `TXA` ($8A), `TYA` ($98), `TSX` ($BA) copy one register into
/// another and set zero and negative from the value, `TXS` ($9A) copies X
/// into SP and keeps the flags; `INX` ($E8), `INY` ($C8), `DEX` ($CA), `DEY`
/// ($88) add or subtract one modulo 256 and set zero and negative; `NOP`
/// ($EA) changes nothing but PC.
#[verifier::spinoff_prover]
#[verifier::rlimit(80)]
pub proof fn lemma_register_instructions<B: Bus>(cpu: Cpu, bus: B)
    requires
        cpu.state is Fetch,
        ({
            let op = bus.read_value(cpu.pc);
            op == 0xAA || op == 0xA8 || op == 0x8A || op == 0x98 || op == 0xBA || op == 0x9A || op
                == 0xE8 || op == 0xC8 || op == 0xCA || op == 0x88 || op == 0xEA
        }),
    ensures
        ({
            let op = bus.read_value(cpu.pc);
            let (n, b, cycles) = instruction_spec(cpu, bus);
            let a: int = if op == 0x8A {
                cpu.x as int
            } else if op == 0x98 {
                cpu.y as int
            } else {
                cpu.a as int
            };
            let x: int = if op == 0xAA {
                cpu.a as int
            } else if op == 0xBA {
                cpu.sp as int
            } else if op == 0xE8 {
                (cpu.x + 1) % 256
            } else if op == 0xCA {
                (cpu.x + 255) % 256
            } else {
                cpu.x as int
            };
            let y: int = if op == 0xA8 {
                cpu.a as int
            } else if op == 0xC8 {
                (cpu.y + 1) % 256
            } else if op == 0x88 {
                (cpu.y + 255) % 256
            } else {
                cpu.y as int
            };
            let sp: int = if op == 0x9A {
                cpu.x as int
            } else {
                cpu.sp as int
            };
            let result: int = if op == 0x8A || op == 0x98 {
                a
            } else if op == 0xA8 || op == 0xC8 || op == 0x88 {
                y
            } else {
                x
            };
            let sets_nz = op != 0x9A && op != 0xEA;
            &&& cycles == 2
            &&& n.a == a && n.x == x && n.y == y && n.sp == sp
            &&& n.status.zero == if sets_nz {
                result == 0
            } else {
                cpu.status.zero
            }
            &&& n.status.negative == if sets_nz {
                result >= 128
            } else {
                cpu.status.negative
            }
            &&& n.status.carry == cpu.status.carry && n.status.overflow == cpu.status.overflow
            &&& n.status.interrupt_disable == cpu.status.interrupt_disable
            &&& n.status.decimal_mode == cpu.status.decimal_mode
            &&& n.pc == wrap16(cpu.pc + 1)
            &&& b == bus.after_read(cpu.pc)
        }),
{
    let op = bus.read_value(cpu.pc);
    let c0 = Cpu { pc: wrap16(cpu.pc + 1), ..cpu };
    let b1 = bus.after_read(cpu.pc);
    if op == 0xEA {
        lemma_one_op_instruction(cpu, bus, MicroOp::ExtraCycle);
        lemma_stack_step_is(c0, b1, MicroOp::ExtraCycle);
    } else {
        let mop = if op == 0xAA {
            MicroOp::CopyRegToRegSetNZ(Reg::A, Reg::X)
        } else if op == 0xA8 {
            MicroOp::CopyRegToRegSetNZ(Reg::A, Reg::Y)
        } else if op == 0x8A {
            MicroOp::CopyRegToRegSetNZ(Reg::X, Reg::A)
        } else if op == 0x98 {
            MicroOp::CopyRegToRegSetNZ(Reg::Y, Reg::A)
        } else if op == 0xBA {
            MicroOp::CopyRegToRegSetNZ(Reg::SP, Reg::X)
        } else if op == 0x9A {
            MicroOp::CopyRegToReg(Reg::X, Reg::SP)
        } else if op == 0xE8 {
            MicroOp::IncRegSetNZ(Reg::X)
        } else if op == 0xC8 {
            MicroOp::IncRegSetNZ(Reg::Y)
        } else if op == 0xCA {
            MicroOp::DecRegSetNZ(Reg::X)
        } else {
            MicroOp::DecRegSetNZ(Reg::Y)
        };
        lemma_one_op_instruction(cpu, bus, mop);
        lemma_modify_step_is(c0, b1, mop);
    }
}

proof fn lemma_fetch_step_is<B: Bus>(cpu: Cpu, bus: B, op: MicroOp)
    requires
        is_fetch_op(op),
    ensures
        micro_step(cpu, bus, op) == fetch_step(cpu, bus, op),
{
    reveal(micro_step);
}

proof fn lemma_operand_step_is<B: Bus>(cpu: Cpu, bus: B, op: MicroOp)
    requires
        !is_fetch_op(op),
        is_operand_op(op),
    ensures
        micro_step(cpu, bus, op) == operand_step(cpu, bus, op),
{
    reveal(micro_step);
}

/// The immediate loads `LDA #` ($A9), `LDX #` ($A2), `LDY #` ($A0) take two
/// cycles, load the byte after the opcode into their register, set zero and
/// negative from it, and move PC past both bytes.
#[verifier::spinoff_prover]
#[verifier::rlimit(60)]
pub proof fn lemma_immediate_loads<B: Bus>(cpu: Cpu, bus: B)
    requires
        cpu.state is Fetch,
        bus.read_value(cpu.pc) == 0xA9 || bus.read_value(cpu.pc) == 0xA2 || bus.read_value(cpu.pc) == 0xA0,
    ensures
        ({
            let op = bus.read_value(cpu.pc);
            let b1 = bus.after_read(cpu.pc);
            let v = b1.read_value(wrap16(cpu.pc + 1));
            let (n, b, cycles) = instruction_spec(cpu, bus);
            &&& cycles == 2
            &&& n.a == (if op == 0xA9 { v } else { cpu.a })
            &&& n.x == (if op == 0xA2 { v } else { cpu.x })
            &&& n.y == (if op == 0xA0 { v } else { cpu.y })
            &&& n.sp == cpu.sp
            &&& n.status == (Status { zero: v == 0, negative: v >= 128, ..cpu.status })
            &&& n.pc == wrap16(cpu.pc + 2)
            &&& b == b1.after_read(wrap16(cpu.pc + 1))
        }),
{
    let op = bus.read_value(cpu.pc);
    let r = if op == 0xA9 {
        Reg::A
    } else if op == 0xA2 {
        Reg::X
    } else {
        Reg::Y
    };
    lemma_one_op_instruction(cpu, bus, MicroOp::ReadPcToRegSetNZ(r));
    lemma_fetch_step_is(Cpu { pc: wrap16(cpu.pc + 1), ..cpu }, bus.after_read(cpu.pc), MicroOp::ReadPcToRegSetNZ(r));
}

/// `ADC #` ($69) and `SBC #` ($E9) take two cycles and work in binary
/// whatever the decimal flag: ADC leaves `(A + v + C) mod 256` with carry set
/// when the sum passes 255, SBC leaves `(A - v - (1 - C)) mod 256` with carry
/// set when no borrow was needed; overflow is set when the signed result
/// leaves -128..127 (same-sign operands for ADC, different-sign ones for SBC,
/// and a result of the other sign than A); zero and negative follow the
/// result; PC moves past both bytes.
#[verifier::spinoff_prover]
#[verifier::rlimit(60)]
pub proof fn lemma_immediate_arithmetic<B: Bus>(cpu: Cpu, bus: B)
    requires
        cpu.state is Fetch,
        bus.read_value(cpu.pc) == 0x69 || bus.read_value(cpu.pc) == 0xE9,
    ensures
        ({
            let op = bus.read_value(cpu.pc);
            let b1 = bus.after_read(cpu.pc);
            let v = b1.read_value(wrap16(cpu.pc + 1)) as int;
            let a = cpu.a as int;
            let c: int = if cpu.status.carry {
                1
            } else {
                0
            };
            let result: int = if op == 0x69 {
                (a + v + c) % 256
            } else {
                (a - v - (1 - c) + 256) % 256
            };
            let carry = if op == 0x69 {
                a + v + c > 255
            } else {
                a >= v + (1 - c)
            };
            let same_sign_operands = (a < 128) == (v < 128);
            let overflow = (if op == 0x69 {
                same_sign_operands
            } else {
                !same_sign_operands
            }) && ((result < 128) != (a < 128));
            let (n, b, cycles) = instruction_spec(cpu, bus);
            &&& cycles == 2
            &&& n.a == result
            &&& n.status.carry == carry
            &&& n.status.overflow == overflow
            &&& n.status.zero == (result == 0)
            &&& n.status.negative == (result >= 128)
            &&& n.status.interrupt_disable == cpu.status.interrupt_disable
            &&& n.status.decimal_mode == cpu.status.decimal_mode
            &&& n.x == cpu.x && n.y == cpu.y && n.sp == cpu.sp
            &&& n.pc == wrap16(cpu.pc + 2)
            &&& b == b1.after_read(wrap16(cpu.pc + 1))
        }),
{
    let op = bus.read_value(cpu.pc);
    let aop = if op == 0x69 {
        AluOp::Adc
    } else {
        AluOp::Sbc
    };
    let mop = MicroOp::Alu(aop, AluSrc::Imm);
    let c0 = Cpu { pc: wrap16(cpu.pc + 1), ..cpu };
    let b1 = bus.after_read(cpu.pc);
    lemma_one_op_instruction(cpu, bus, mop);
    lemma_operand_step_is(c0, b1, mop);
    lemma_alu_imm_step(c0, b1, aop);
    lemma_binary_arithmetic(cpu.a, b1.read_value(c0.pc), cpu.status);
}

proof fn lemma_alu_imm_step<B: Bus>(c: Cpu, b: B, aop: AluOp)
    ensures
        operand_step(c, b, MicroOp::Alu(aop, AluSrc::Imm)) == ({
            let (a, st) = alu_result(aop, c.a, b.read_value(c.pc), c.status);
            (Cpu { a: a, status: st, pc: wrap16(c.pc + 1), ..c }, b.after_read(c.pc), MicroFlow::Continue)
        }),
{
}

proof fn lemma_compare_imm_step<B: Bus>(c: Cpu, b: B, r: Reg)
    ensures
        operand_step(c, b, MicroOp::Compare(r, AluSrc::Imm)) == (
            Cpu {
                status: compare_result(c.reg_value(r), b.read_value(c.pc), c.status),
                pc: wrap16(c.pc + 1),
                ..c
            },
            b.after_read(c.pc),
            MicroFlow::Continue,
        ),
{
}

proof fn lemma_binary_arithmetic(a: u8, v: u8, s: Status)
    ensures
        ({
            let c: int = if s.carry {
                1
            } else {
                0
            };
            let (r, t) = alu_result(AluOp::Adc, a, v, s);
            &&& r == (a + v + c) % 256
            &&& t.carry == (a + v + c > 255)
            &&& t.overflow == (((a < 128) == (v < 128)) && ((r < 128) != (a < 128)))
            &&& t.zero == (r == 0) && t.negative == (r >= 128)
            &&& t.interrupt_disable == s.interrupt_disable && t.decimal_mode == s.decimal_mode
        }),
        ({
            let c: int = if s.carry {
                1
            } else {
                0
            };
            let (r, t) = alu_result(AluOp::Sbc, a, v, s);
            &&& r == (a - v - (1 - c) + 256) % 256
            &&& t.carry == (a >= v + (1 - c))
            &&& t.overflow == (((a < 128) != (v < 128)) && ((r < 128) != (a < 128)))
            &&& t.zero == (r == 0) && t.negative == (r >= 128)
            &&& t.interrupt_disable == s.interrupt_disable && t.decimal_mode == s.decimal_mode
        }),
{
    lemma_adc_arith(a, v, s);
    lemma_sbc_arith(a, v, s);
}

proof fn lemma_adc_arith(a: u8, v: u8, s: Status)
    ensures
        ({
            let c: int = if s.carry {
                1
            } else {
                0
            };
            let (r, t) = alu_result(AluOp::Adc, a, v, s);
            &&& r == (a + v + c) % 256
            &&& t.overflow == (((a < 128) == (v < 128)) && ((r < 128) != (a < 128)))
        }),
{
    let c: int = if s.carry {
        1
    } else {
        0
    };
    let sum = a + v + c;
    assert(0 <= sum < 512);
    let m = sum % 256;
    if sum >= 256 {
        assert(m == sum - 256);
    } else {
        assert(m == sum);
    }
    assert(wrap8(sum) == m);
}

proof fn lemma_sbc_arith(a: u8, v: u8, s: Status)
    ensures
        ({
            let c: int = if s.carry {
                1
            } else {
                0
            };
            let (r, t) = alu_result(AluOp::Sbc, a, v, s);
            &&& r == (a - v - (1 - c) + 256) % 256
            &&& t.overflow == (((a < 128) != (v < 128)) && ((r < 128) != (a < 128)))
        }),
{
    let c: int = if s.carry {
        1
    } else {
        0
    };
    let d = a - v - (1 - c);
    assert(-256 <= d < 256);
    if d >= 0 {
        assert(d % 256 == d);
        assert((d + 256) % 256 == d);
    } else {
        assert(d % 256 == d + 256);
        assert((d + 256) % 256 == d + 256);
    }
    assert(wrap8(d) == (d + 256) % 256);
}

proof fn lemma_compare_arith(lhs: u8, v: u8, s: Status)
    ensures
        compare_result(lhs, v, s) == (Status {
            carry: lhs >= v,
            zero: lhs == v,
            negative: (lhs - v + 256) % 256 >= 128,
            ..s
        }),
{
    let d = lhs - v;
    if d >= 0 {
        assert(d % 256 == d);
        assert((d + 256) % 256 == d);
    } else {
        assert(d % 256 == d + 256);
        assert((d + 256) % 256 == d + 256);
    }
    assert(wrap8(d) == (d + 256) % 256);
}

/// The immediate compares `CMP #` ($C9), `CPX #` ($E0), `CPY #` ($C0) take
/// two cycles and change only carry (register at least the operand), zero
/// (equal) and negative (bit 7 of the difference modulo 256).
#[verifier::spinoff_prover]
#[verifier::rlimit(60)]
pub proof fn lemma_immediate_compares<B: Bus>(cpu: Cpu, bus: B)
    requires
        cpu.state is Fetch,
        bus.read_value(cpu.pc) == 0xC9 || bus.read_value(cpu.pc) == 0xE0 || bus.read_value(cpu.pc) == 0xC0,
    ensures
        ({
            let op = bus.read_value(cpu.pc);
            let b1 = bus.after_read(cpu.pc);
            let v = b1.read_value(wrap16(cpu.pc + 1)) as int;
            let r: int = if op == 0xC9 {
                cpu.a as int
            } else if op == 0xE0 {
                cpu.x as int
            } else {
                cpu.y as int
            };
            let (n, b, cycles) = instruction_spec(cpu, bus);
            &&& cycles == 2
            &&& n.status == (Status {
                carry: r >= v,
                zero: r == v,
                negative: (r - v + 256) % 256 >= 128,
                ..cpu.status
            })
            &&& n.a == cpu.a && n.x == cpu.x && n.y == cpu.y && n.sp == cpu.sp
            &&& n.pc == wrap16(cpu.pc + 2)
            &&& b == b1.after_read(wrap16(cpu.pc + 1))
        }),
{
    let op = bus.read_value(cpu.pc);
    let r = if op == 0xC9 {
        Reg::A
    } else if op == 0xE0 {
        Reg::X
    } else {
        Reg::Y
    };
    let mop = MicroOp::Compare(r, AluSrc::Imm);
    let c0 = Cpu { pc: wrap16(cpu.pc + 1), ..cpu };
    let b1 = bus.after_read(cpu.pc);
    lemma_one_op_instruction(cpu, bus, mop);
    lemma_operand_step_is(c0, b1, mop);
    lemma_compare_imm_step(c0, b1, r);
    lemma_compare_arith(c0.reg_value(r), b1.read_value(c0.pc), cpu.status);
}

/// The CPU running micro-operation `k` of opcode `opcode`'s program.
pub open spec fn running_op(cpu: Cpu, opcode: u8, k: u8) -> Cpu {
    Cpu {
        state: CpuState::Exec(MicrocodeCursor { program: CpuProgram::Opcode(opcode), next_op: k }),
        ..cpu
    }
}

/// Whether branch opcode `op` branches with the flags `s`: `BPL`/`BMI` on
/// negative, `BVC`/`BVS` on overflow, `BCC`/`BCS` on carry, `BNE`/`BEQ` on
/// zero, the first of each pair when the flag is clear.
pub open spec fn branch_condition(op: u8, s: Status) -> bool {
    if op == 0x10 {
        !s.negative
    } else if op == 0x30 {
        s.negative
    } else if op == 0x50 {
        !s.overflow
    } else if op == 0x70 {
        s.overflow
    } else if op == 0x90 {
        !s.carry
    } else if op == 0xB0 {
        s.carry
    } else if op == 0xD0 {
        !s.zero
    } else {
        s.zero
    }
}

/// The branches take two cycles when not taken, leaving PC after their two
/// bytes; when taken, PC becomes that address plus the signed offset byte
/// (modulo 64 KiB), in three cycles, or four when the target lies in
/// another 256-byte page. No register or flag changes.
#[verifier::spinoff_prover]
#[verifier::rlimit(60)]
pub proof fn lemma_branch_instructions<B: Bus>(cpu: Cpu, bus: B)
    requires
        cpu.state is Fetch,
        ({
            let op = bus.read_value(cpu.pc);
            op == 0x10 || op == 0x30 || op == 0x50 || op == 0x70 || op == 0x90 || op == 0xB0 || op == 0xD0
                || op == 0xF0
        }),
    ensures
        ({
            let op = bus.read_value(cpu.pc);
            let offset = bus.after_read(cpu.pc).read_value(wrap16(cpu.pc + 1));
            let next = wrap16(cpu.pc + 2);
            let target = wrap16(next + if offset < 128 {
                offset as int
            } else {
                offset - 256
            });
            let (n, b, cycles) = instruction_spec(cpu, bus);
            &&& branch_condition(op, cpu.status) ==> n.pc == target && cycles == if next / 256 == target / 256 {
                3nat
            } else {
                4nat
            }
            &&& !branch_condition(op, cpu.status) ==> n.pc == next && cycles == 2
            &&& n.a == cpu.a && n.x == cpu.x && n.y == cpu.y && n.sp == cpu.sp
            &&& n.status == cpu.status
            &&& n.state is Fetch
        }),
{
    let op = bus.read_value(cpu.pc);
    let cond = if op == 0x10 {
        BranchCond::NegativeClear
    } else if op == 0x30 {
        BranchCond::NegativeSet
    } else if op == 0x50 {
        BranchCond::OverflowClear
    } else if op == 0x70 {
        BranchCond::OverflowSet
    } else if op == 0x90 {
        BranchCond::CarryClear
    } else if op == 0xB0 {
        BranchCond::CarrySet
    } else if op == 0xD0 {
        BranchCond::ZeroClear
    } else {
        BranchCond::ZeroSet
    };
    assert(opcode_program(op) == Some(
        seq![
            MicroOp::BranchReadOffsetAndDecide(cond),
            MicroOp::BranchApplyIfTaken,
            MicroOp::BranchPageCrossPenalty,
        ],
    ));
    assert(branch_taken(cpu.status, cond) == branch_condition(op, cpu.status));
    let b1 = bus.after_read(cpu.pc);
    let c0 = Cpu { pc: wrap16(cpu.pc + 1), ..cpu };
    assert(tick_spec(cpu, bus) == (running_op(c0, op, 0), b1, false));
    let offset = b1.read_value(c0.pc);
    let next = wrap16(c0.pc + 1);
    let b2 = b1.after_read(c0.pc);
    lemma_operand_step_is(c0, b1, MicroOp::BranchReadOffsetAndDecide(cond));
    if !branch_taken(cpu.status, cond) {
        let fin = Cpu { pc: next, ..c0 };
        assert(tick_spec(running_op(c0, op, 0), b1) == (fin, b2, true));
        assert(instruction_spec(running_op(c0, op, 0), b1) == (fin, b2, 1nat));
        assert(instruction_spec(cpu, bus) == (fin, b2, 2nat));
    } else {
        let target = wrap16(next + signed(offset));
        let c1 = Cpu { pc: next, branch_target: target, branch_page_cross: next / 256 != target / 256, ..c0 };
        assert(tick_spec(running_op(c0, op, 0), b1) == (running_op(c1, op, 1), b2, false));
        let b3 = b2.after_read(c1.pc);
        let c2 = Cpu { pc: target, ..c1 };
        lemma_operand_step_is(c1, b2, MicroOp::BranchApplyIfTaken);
        if !c1.branch_page_cross {
            assert(tick_spec(running_op(c1, op, 1), b2) == (c2, b3, true));
            assert(instruction_spec(running_op(c1, op, 1), b2) == (c2, b3, 1nat));
            assert(instruction_spec(running_op(c0, op, 0), b1) == (c2, b3, 2nat));
            assert(instruction_spec(cpu, bus) == (c2, b3, 3nat));
        } else {
            assert(tick_spec(running_op(c1, op, 1), b2) == (running_op(c2, op, 2), b3, false));
            lemma_operand_step_is(c2, b3, MicroOp::BranchPageCrossPenalty);
            let b4 = b3.after_read(c2.pc);
            assert(tick_spec(running_op(c2, op, 2), b3) == (c2, b4, true));
            assert(instruction_spec(running_op(c2, op, 2), b3) == (c2, b4, 1nat));
            assert(instruction_spec(running_op(c1, op, 1), b2) == (c2, b4, 2nat));
            assert(instruction_spec(running_op(c0, op, 0), b1) == (c2, b4, 3nat));
            assert(instruction_spec(cpu, bus) == (c2, b4, 4nat));
        }
    }
}

proof fn lemma_modify_step_is<B: Bus>(cpu: Cpu, bus: B, op: MicroOp)
    requires
        !is_fetch_op(op),
        !is_operand_op(op),
        !is_stack_op(op),
    ensures
        micro_step(cpu, bus, op) == modify_step(cpu, bus, op),
{
    reveal(micro_step);
}

proof fn lemma_stack_step_is<B: Bus>(cpu: Cpu, bus: B, op: MicroOp)
    requires
        !is_fetch_op(op),
        !is_operand_op(op),
        is_stack_op(op),
    ensures
        micro_step(cpu, bus, op) == stack_step(cpu, bus, op),
{
    reveal(micro_step);
}

fn inc8(x: u8) -> (r: u8)
    ensures
        r == wrap8(x + 1),
{
    if x == 255 {
        0
    } else {
        x + 1
    }
}

fn dec8(x: u8) -> (r: u8)
    ensures
        r == wrap8(x - 1),
{
    if x == 0 {
        255
    } else {
        x - 1
    }
}

fn inc16(x: u16) -> (r: u16)
    ensures
        r == wrap16(x + 1),
{
    if x == 0xFFFF {
        0
    } else {
        x + 1
    }
}

fn make_word(hi: u8, lo: u8) -> (w: u16)
    ensures
        w == word(hi, lo),
{
    hi as u16 * 256 + lo as u16
}

fn nz(s: Status, v: u8) -> (r: Status)
    ensures
        r == with_nz(s, v),
{
    Status { zero: v == 0, negative: v >= 0x80, ..s }
}

fn signed_value(v: u8) -> (r: i16)
    ensures
        r == signed(v),
{
    if v < 128 {
        v as i16
    } else {
        v as i16 - 256
    }
}

fn alu(op: AluOp, a: u8, v: u8, s: Status) -> (r: (u8, Status))
    ensures
        r == alu_result(op, a, v, s),
{
    match op {
        AluOp::And => (a & v, nz(s, a & v)),
        AluOp::Ora => (a | v, nz(s, a | v)),
        AluOp::Eor => (a ^ v, nz(s, a ^ v)),
        AluOp::Bit => (a, Status { zero: a & v == 0, overflow: v & 0x40 != 0, negative: v >= 0x80, ..s }),
        AluOp::Adc => {
            let c: u16 = if s.carry { 1 } else { 0 };
            let sum: u16 = a as u16 + v as u16 + c;
            let r = (sum % 256) as u8;
            let signed_sum: i16 = signed_value(a) + signed_value(v) + c as i16;
            (r, Status { carry: sum > 255, overflow: signed_sum < -128 || signed_sum > 127, ..nz(s, r) })
        },
        AluOp::Sbc => {
            let b: i16 = if s.carry { 0 } else { 1 };
            let diff: i16 = a as i16 - v as i16 - b;
            let r = ((diff + 256) % 256) as u8;
            let signed_diff: i16 = signed_value(a) - signed_value(v) - b;
            (r, Status { carry: a as i16 >= v as i16 + b, overflow: signed_diff < -128 || signed_diff > 127, ..nz(s, r) })
        },
    }
}

fn compare(lhs: u8, v: u8, s: Status) -> (r: Status)
    ensures
        r == compare_result(lhs, v, s),
{
    let diff: u8 = if lhs >= v {
        lhs - v
    } else {
        (lhs as u16 + 256 - v as u16) as u8
    };
    Status { carry: lhs >= v, ..nz(s, diff) }
}

fn shift(op: ShiftOp, v: u8, s: Status) -> (r: (u8, Status))
    ensures
        r == shift_result(op, v, s),
{
    let c: u8 = if s.carry { 1 } else { 0 };
    let (r, carry) = match op {
        ShiftOp::Asl => (((v as u16 * 2) % 256) as u8, v >= 0x80),
        ShiftOp::Lsr => (v / 2, v % 2 == 1),
        ShiftOp::Rol => (((v as u16 * 2 + c as u16) % 256) as u8, v >= 0x80),
        ShiftOp::Ror => (v / 2 + c * 128, v % 2 == 1),
    };
    (r, Status { carry: carry, ..nz(s, r) })
}

fn taken(s: Status, cond: BranchCond) -> (t: bool)
    ensures
        t == branch_taken(s, cond),
{
    match cond {
        BranchCond::ZeroSet => s.zero,
        BranchCond::ZeroClear => !s.zero,
        BranchCond::NegativeSet => s.negative,
        BranchCond::NegativeClear => !s.negative,
        BranchCond::CarrySet => s.carry,
        BranchCond::CarryClear => !s.carry,
        BranchCond::OverflowSet => s.overflow,
        BranchCond::OverflowClear => !s.overflow,
    }
}

fn cleared(s: Status, mask: u8) -> (r: Status)
    ensures
        r == clear_bits(s, mask),
{
    Status {
        carry: s.carry && mask & 0x01 == 0,
        zero: s.zero && mask & 0x02 == 0,
        interrupt_disable: s.interrupt_disable && mask & 0x04 == 0,
        decimal_mode: s.decimal_mode && mask & 0x08 == 0,
        overflow: s.overflow && mask & 0x40 == 0,
        negative: s.negative && mask & 0x80 == 0,
    }
}

fn set(s: Status, mask: u8) -> (r: Status)
    ensures
        r == set_bits(s, mask),
{
    Status {
        carry: s.carry || mask & 0x01 != 0,
        zero: s.zero || mask & 0x02 != 0,
        interrupt_disable: s.interrupt_disable || mask & 0x04 != 0,
        decimal_mode: s.decimal_mode || mask & 0x08 != 0,
        overflow: s.overflow || mask & 0x40 != 0,
        negative: s.negative || mask & 0x80 != 0,
    }
}

fn status_to_push(s: Status, kind: StatusPushKind) -> (b: u8)
    ensures
        b == pushed_status(s, kind),
{
    let value = u8::from(s);
    match kind {
        StatusPushKind::PhpOrBrk => value | 0x30,
        StatusPushKind::Interrupt => value | 0x20,
    }
}

/// The target of a relative branch by `offset` from `pc`.
fn relative_target(pc: u16, offset: u8) -> (t: u16)
    ensures
        t == wrap16(pc + signed(offset)),
{
    if offset < 128 {
        ((pc as u32 + offset as u32) % 0x10000) as u16
    } else {
        ((pc as u32 + offset as u32 + 0xFF00) % 0x10000) as u16
    }
}

pub open spec fn is_fetch_op(op: MicroOp) -> bool {
    matches!(op,
        MicroOp::ReadPcAndDiscard
        | MicroOp::ReadPcAndDiscardNoInc
        | MicroOp::ReadPcToRegSetNZ(_)
        | MicroOp::ReadPcToAddrLo
        | MicroOp::ReadPcToAddrHi
        | MicroOp::ReadPcToAddrHiSetPc
        | MicroOp::ReadJmpIndirectAddrHiAndJump
        | MicroOp::ReadEffAddrToRegSetNZ(_)
        | MicroOp::ReadEffAddrToAddrLo
        | MicroOp::ReadEffAddrToAddrHi
        | MicroOp::ReadZpPtrLoToAddrLo
        | MicroOp::ReadZpPtrHiToAddrHi
        | MicroOp::ReadZpAddrToRegSetNZ(_)
        | MicroOp::ZpIndexedDummyReadAndCompute(_)
        | MicroOp::IndexEffAddrNoPenalty(_)
        | MicroOp::ReadVectorLo(_)
        | MicroOp::ReadVectorHiSetPcAndI(_))
}

pub open spec fn is_operand_op(op: MicroOp) -> bool {
    matches!(op,
        MicroOp::AbsIndexedReadOrDummy(_, _)
        | MicroOp::AbsIndexedAluAOrDummy(_, _)
        | MicroOp::AbsIndexedCompareOrDummy(_, _)
        | MicroOp::Alu(_, _)
        | MicroOp::Compare(_, _)
        | MicroOp::BranchReadOffsetAndDecide(_)
        | MicroOp::BranchApplyIfTaken
        | MicroOp::BranchPageCrossPenalty)
}

pub open spec fn is_stack_op(op: MicroOp) -> bool {
    matches!(op,
        MicroOp::ExtraCycle
        | MicroOp::StackIncSp
        | MicroOp::StackPushReg(_)
        | MicroOp::StackPushPcHi
        | MicroOp::StackPushPcLo
        | MicroOp::StackPushStatus(_)
        | MicroOp::StackPullRegSetNZ(_)
        | MicroOp::StackPullStatus
        | MicroOp::StackReadPcLoThenIncSp
        | MicroOp::StackReadPcHi
        | MicroOp::StackReadStatusThenIncSp
        | MicroOp::IncPc)
}

impl Cpu {
    fn reg(&self, r: Reg) -> (v: u8)
        ensures
            v == self.reg_value(r),
    {
        match r {
            Reg::A => self.a,
            Reg::X => self.x,
            Reg::Y => self.y,
            Reg::SP => self.sp,
        }
    }

    fn set_reg(&mut self, r: Reg, v: u8)
        ensures
            *final(self) == old(self).with_reg(r, v),
    {
        match r {
            Reg::A => self.a = v,
            Reg::X => self.x = v,
            Reg::Y => self.y = v,
            Reg::SP => self.sp = v,
        }
    }

    fn load_reg(&mut self, r: Reg, v: u8)
        ensures
            *final(self) == old(self).load_nz(r, v),
    {
        self.set_reg(r, v);
        self.status = nz(self.status, v);
    }

    fn stack_addr(&self) -> (addr: u16)
        ensures
            addr == self.stack_address(),
    {
        0x0100 + self.sp as u16
    }

    fn operand_addr(&mut self, src: AluSrc) -> (addr: u16)
        ensures
            (addr, *final(self)) == old(self).operand(src),
    {
        match src {
            AluSrc::Imm => {
                let addr = self.pc;
                self.pc = inc16(self.pc);
                addr
            },
            AluSrc::ZpAddrLo => self.addr_lo as u16,
            AluSrc::EffAddr => self.eff_addr,
        }
    }

    /// Micro-operations that read through PC, the zero page or an address register.
    #[verifier::spinoff_prover]
    #[verifier::rlimit(40)]
    fn exec_fetch_op<B: Bus>(&mut self, bus: &mut B, op: MicroOp) -> (flow: MicroFlow)
        requires
            is_fetch_op(op),
            old(bus).bus_wf(),
        ensures
            final(bus).bus_wf(),
            (*final(self), *final(bus), flow) == fetch_step(*old(self), *old(bus), op),
    {
        match op {
            MicroOp::ReadPcAndDiscard => {
                let _dummy = bus.read(self.pc);
                self.pc = inc16(self.pc);
            },
            MicroOp::ReadPcAndDiscardNoInc => {
                let _dummy = bus.read(self.pc);
            },
            MicroOp::ReadPcToRegSetNZ(reg) => {
                let value = bus.read(self.pc);
                self.pc = inc16(self.pc);
                self.load_reg(reg, value);
            },
            MicroOp::ReadPcToAddrLo => {
                self.addr_lo = bus.read(self.pc);
                self.pc = inc16(self.pc);
            },
            MicroOp::ReadPcToAddrHi => {
                self.addr_hi = bus.read(self.pc);
                self.pc = inc16(self.pc);
                self.eff_addr = make_word(self.addr_hi, self.addr_lo);
            },
            MicroOp::ReadPcToAddrHiSetPc => {
                self.addr_hi = bus.read(self.pc);
                self.pc = make_word(self.addr_hi, self.addr_lo);
                return MicroFlow::EndInstruction;
            },
            MicroOp::ReadJmpIndirectAddrHiAndJump => {
                let ptr = self.eff_addr;
                let page = (ptr / 256) as u8;
                let low = inc8((ptr % 256) as u8);
                self.addr_hi = bus.read(make_word(page, low));
                self.pc = make_word(self.addr_hi, self.addr_lo);
                return MicroFlow::EndInstruction;
            },
            MicroOp::ReadEffAddrToRegSetNZ(reg) => {
                let value = bus.read(self.eff_addr);
                self.load_reg(reg, value);
            },
            MicroOp::ReadEffAddrToAddrLo => {
                self.addr_lo = bus.read(self.eff_addr);
            },
            MicroOp::ReadEffAddrToAddrHi | MicroOp::ReadZpPtrHiToAddrHi => {
                let zp = (self.eff_addr % 256) as u8;
                self.addr_hi = bus.read(inc8(zp) as u16);
                self.eff_addr = make_word(self.addr_hi, self.addr_lo);
            },
            MicroOp::ReadZpPtrLoToAddrLo => {
                let zp = self.addr_lo;
                let lo = bus.read(zp as u16);
                self.eff_addr = zp as u16;
                self.addr_lo = lo;
            },
            MicroOp::ReadZpAddrToRegSetNZ(reg) => {
                let value = bus.read(self.addr_lo as u16);
                self.load_reg(reg, value);
            },
            MicroOp::ZpIndexedDummyReadAndCompute(index) => {
                let base = self.addr_lo;
                let _dummy = bus.read(base as u16);
                let idx = self.reg(index);
                self.eff_addr = ((base as u16 + idx as u16) % 256) as u16;
            },
            MicroOp::IndexEffAddrNoPenalty(index) => {
                let idx = self.reg(index);
                let addr = ((self.eff_addr as u32 + idx as u32) % 0x10000) as u16;
                let _dummy = bus.read(addr);
                self.eff_addr = addr;
            },
            MicroOp::ReadVectorLo(addr) => {
                self.addr_lo = bus.read(addr);
            },
            MicroOp::ReadVectorHiSetPcAndI(addr) => {
                self.addr_hi = bus.read(addr);
                self.pc = make_word(self.addr_hi, self.addr_lo);
                self.status.interrupt_disable = true;
            },
            _ => {},
        }
        MicroFlow::Continue
    }

    /// Micro-operations that use an operand: indexed reads, ALU, compares and branches.
    #[verifier::spinoff_prover]
    #[verifier::rlimit(40)]
    fn exec_operand_op<B: Bus>(&mut self, bus: &mut B, op: MicroOp) -> (flow: MicroFlow)
        requires
            is_operand_op(op),
            old(bus).bus_wf(),
        ensures
            final(bus).bus_wf(),
            (*final(self), *final(bus), flow) == operand_step(*old(self), *old(bus), op),
    {
        match op {
            MicroOp::AbsIndexedReadOrDummy(index, dest) => {
                let sum = self.addr_lo as u16 + self.reg(index) as u16;
                let addr = make_word(self.addr_hi, (sum % 256) as u8);
                if sum <= 255 {
                    let value = bus.read(addr);
                    self.load_reg(dest, value);
                    return MicroFlow::EndInstruction;
                }
                let _dummy = bus.read(addr);
                self.eff_addr = make_word(inc8(self.addr_hi), (sum % 256) as u8);
            },
            MicroOp::AbsIndexedAluAOrDummy(index, aop) => {
                let sum = self.addr_lo as u16 + self.reg(index) as u16;
                let addr = make_word(self.addr_hi, (sum % 256) as u8);
                if sum <= 255 {
                    let value = bus.read(addr);
                    let (a, status) = alu(aop, self.a, value, self.status);
                    self.a = a;
                    self.status = status;
                    return MicroFlow::EndInstruction;
                }
                let _dummy = bus.read(addr);
                self.eff_addr = make_word(inc8(self.addr_hi), (sum % 256) as u8);
            },
            MicroOp::AbsIndexedCompareOrDummy(index, reg) => {
                let sum = self.addr_lo as u16 + self.reg(index) as u16;
                let addr = make_word(self.addr_hi, (sum % 256) as u8);
                if sum <= 255 {
                    let value = bus.read(addr);
                    self.status = compare(self.reg(reg), value, self.status);
                    return MicroFlow::EndInstruction;
                }
                let _dummy = bus.read(addr);
                self.eff_addr = make_word(inc8(self.addr_hi), (sum % 256) as u8);
            },
            MicroOp::Alu(aop, src) => {
                let addr = self.operand_addr(src);
                let value = bus.read(addr);
                let (a, status) = alu(aop, self.a, value, self.status);
                self.a = a;
                self.status = status;
            },
            MicroOp::Compare(reg, src) => {
                let addr = self.operand_addr(src);
                let value = bus.read(addr);
                self.status = compare(self.reg(reg), value, self.status);
            },
            MicroOp::BranchReadOffsetAndDecide(cond) => {
                let offset = bus.read(self.pc);
                self.pc = inc16(self.pc);
                if !taken(self.status, cond) {
                    return MicroFlow::EndInstruction;
                }
                let target = relative_target(self.pc, offset);
                self.branch_target = target;
                self.branch_page_cross = self.pc / 256 != target / 256;
            },
            MicroOp::BranchApplyIfTaken => {
                let _dummy = bus.read(self.pc);
                self.pc = self.branch_target;
                if !self.branch_page_cross {
                    return MicroFlow::EndInstruction;
                }
            },
            MicroOp::BranchPageCrossPenalty => {
                let _dummy = bus.read(self.pc);
            },
            _ => {},
        }
        MicroFlow::Continue
    }

    /// Stack micro-operations, and the cycles that do nothing on the bus.
    #[verifier::spinoff_prover]
    #[verifier::rlimit(40)]
    fn exec_stack_op<B: Bus>(&mut self, bus: &mut B, op: MicroOp) -> (flow: MicroFlow)
        requires
            is_stack_op(op),
            old(bus).bus_wf(),
        ensures
            final(bus).bus_wf(),
            (*final(self), *final(bus), flow) == stack_step(*old(self), *old(bus), op),
    {
        match op {
            MicroOp::ExtraCycle => {},
            MicroOp::StackIncSp => {
                self.sp = inc8(self.sp);
            },
            MicroOp::StackPushReg(reg) => {
                let addr = self.stack_addr();
                self.sp = dec8(self.sp);
                bus.write(addr, self.reg(reg));
            },
            MicroOp::StackPushPcHi => {
                let addr = self.stack_addr();
                self.sp = dec8(self.sp);
                bus.write(addr, (self.pc / 256) as u8);
            },
            MicroOp::StackPushPcLo => {
                let addr = self.stack_addr();
                self.sp = dec8(self.sp);
                bus.write(addr, (self.pc % 256) as u8);
            },
            MicroOp::StackPushStatus(kind) => {
                let pushed = status_to_push(self.status, kind);
                let addr = self.stack_addr();
                self.sp = dec8(self.sp);
                bus.write(addr, pushed);
            },
            MicroOp::StackPullRegSetNZ(reg) => {
                self.sp = inc8(self.sp);
                let addr = self.stack_addr();
                let value = bus.read(addr);
                self.load_reg(reg, value);
            },
            MicroOp::StackPullStatus => {
                self.sp = inc8(self.sp);
                let addr = self.stack_addr();
                self.status = Status::from(bus.read(addr));
            },
            MicroOp::StackReadPcLoThenIncSp => {
                self.addr_lo = bus.read(self.stack_addr());
                self.sp = inc8(self.sp);
            },
            MicroOp::StackReadPcHi => {
                self.addr_hi = bus.read(self.stack_addr());
                self.pc = make_word(self.addr_hi, self.addr_lo);
            },
            MicroOp::StackReadStatusThenIncSp => {
                self.status = Status::from(bus.read(self.stack_addr()));
                self.sp = inc8(self.sp);
            },
            MicroOp::IncPc => {
                self.pc = inc16(self.pc);
            },
            _ => {},
        }
        MicroFlow::Continue
    }

    /// Register, flag and read-modify-write micro-operations.
    #[verifier::spinoff_prover]
    #[verifier::rlimit(40)]
    fn exec_modify_op<B: Bus>(&mut self, bus: &mut B, op: MicroOp) -> (flow: MicroFlow)
        requires
            !is_fetch_op(op),
            !is_operand_op(op),
            !is_stack_op(op),
            old(bus).bus_wf(),
        ensures
            final(bus).bus_wf(),
            (*final(self), *final(bus), flow) == modify_step(*old(self), *old(bus), op),
    {
        match op {
            MicroOp::WriteRegToEffAddr(reg) => {
                bus.write(self.eff_addr, self.reg(reg));
            },
            MicroOp::WriteRegToZpAddr(reg) => {
                bus.write(self.addr_lo as u16, self.reg(reg));
            },
            MicroOp::CopyRegToRegSetNZ(src, dest) => {
                let value = self.reg(src);
                self.load_reg(dest, value);
            },
            MicroOp::CopyRegToReg(src, dest) => {
                let value = self.reg(src);
                self.set_reg(dest, value);
            },
            MicroOp::ClearStatusBit(mask) => {
                self.status = cleared(self.status, mask);
            },
            MicroOp::SetStatusBit(mask) => {
                self.status = set(self.status, mask);
            },
            MicroOp::IncRegSetNZ(reg) => {
                let value = inc8(self.reg(reg));
                self.load_reg(reg, value);
            },
            MicroOp::DecRegSetNZ(reg) => {
                let value = dec8(self.reg(reg));
                self.load_reg(reg, value);
            },
            MicroOp::IncDataSetNZAndWriteZpAddr => {
                self.data = inc8(self.data);
                self.status = nz(self.status, self.data);
                bus.write(self.addr_lo as u16, self.data);
            },
            MicroOp::DecDataSetNZAndWriteZpAddr => {
                self.data = dec8(self.data);
                self.status = nz(self.status, self.data);
                bus.write(self.addr_lo as u16, self.data);
            },
            MicroOp::IncDataSetNZAndWriteEffAddr => {
                self.data = inc8(self.data);
                self.status = nz(self.status, self.data);
                bus.write(self.eff_addr, self.data);
            },
            MicroOp::DecDataSetNZAndWriteEffAddr => {
                self.data = dec8(self.data);
                self.status = nz(self.status, self.data);
                bus.write(self.eff_addr, self.data);
            },
            MicroOp::ReadZpAddrToData => {
                self.data = bus.read(self.addr_lo as u16);
            },
            MicroOp::WriteDataToZpAddr => {
                bus.write(self.addr_lo as u16, self.data);
            },
            MicroOp::ReadEffAddrToData => {
                self.data = bus.read(self.eff_addr);
            },
            MicroOp::WriteDataToEffAddr => {
                bus.write(self.eff_addr, self.data);
            },
            MicroOp::ShiftRegSetCZN(reg, sop) => {
                let (value, status) = shift(sop, self.reg(reg), self.status);
                self.set_reg(reg, value);
                self.status = status;
            },
            MicroOp::ShiftDataSetCZNAndWriteZpAddr(sop) => {
                let (value, status) = shift(sop, self.data, self.status);
                self.data = value;
                self.status = status;
                bus.write(self.addr_lo as u16, self.data);
            },
            MicroOp::ShiftDataSetCZNAndWriteEffAddr(sop) => {
                let (value, status) = shift(sop, self.data, self.status);
                self.data = value;
                self.status = status;
                bus.write(self.eff_addr, self.data);
            },
            _ => {},
        }
        MicroFlow::Continue
    }

    fn exec_micro_op<B: Bus>(&mut self, bus: &mut B, op: MicroOp) -> (flow: MicroFlow)
        requires
            old(bus).bus_wf(),
        ensures
            final(bus).bus_wf(),
            (*final(self), *final(bus), flow) == micro_step(*old(self), *old(bus), op),
    {
        reveal(micro_step);
        if is_fetch_op_exec(op) {
            self.exec_fetch_op(bus, op)
        } else if is_operand_op_exec(op) {
            self.exec_operand_op(bus, op)
        } else if is_stack_op_exec(op) {
            self.exec_stack_op(bus, op)
        } else {
            self.exec_modify_op(bus, op)
        }
    }
}

fn is_fetch_op_exec(op: MicroOp) -> (b: bool)
    ensures
        b == is_fetch_op(op),
{
    matches!(op,
        MicroOp::ReadPcAndDiscard
        | MicroOp::ReadPcAndDiscardNoInc
        | MicroOp::ReadPcToRegSetNZ(_)
        | MicroOp::ReadPcToAddrLo
        | MicroOp::ReadPcToAddrHi
        | MicroOp::ReadPcToAddrHiSetPc
        | MicroOp::ReadJmpIndirectAddrHiAndJump
        | MicroOp::ReadEffAddrToRegSetNZ(_)
        | MicroOp::ReadEffAddrToAddrLo
        | MicroOp::ReadEffAddrToAddrHi
        | MicroOp::ReadZpPtrLoToAddrLo
        | MicroOp::ReadZpPtrHiToAddrHi
        | MicroOp::ReadZpAddrToRegSetNZ(_)
        | MicroOp::ZpIndexedDummyReadAndCompute(_)
        | MicroOp::IndexEffAddrNoPenalty(_)
        | MicroOp::ReadVectorLo(_)
        | MicroOp::ReadVectorHiSetPcAndI(_))
}

fn is_operand_op_exec(op: MicroOp) -> (b: bool)
    ensures
        b == is_operand_op(op),
{
    matches!(op,
        MicroOp::AbsIndexedReadOrDummy(_, _)
        | MicroOp::AbsIndexedAluAOrDummy(_, _)
        | MicroOp::AbsIndexedCompareOrDummy(_, _)
        | MicroOp::Alu(_, _)
        | MicroOp::Compare(_, _)
        | MicroOp::BranchReadOffsetAndDecide(_)
        | MicroOp::BranchApplyIfTaken
        | MicroOp::BranchPageCrossPenalty)
}

fn is_stack_op_exec(op: MicroOp) -> (b: bool)
    ensures
        b == is_stack_op(op),
{
    matches!(op,
        MicroOp::ExtraCycle
        | MicroOp::StackIncSp
        | MicroOp::StackPushReg(_)
        | MicroOp::StackPushPcHi
        | MicroOp::StackPushPcLo
        | MicroOp::StackPushStatus(_)
        | MicroOp::StackPullRegSetNZ(_)
        | MicroOp::StackPullStatus
        | MicroOp::StackReadPcLoThenIncSp
        | MicroOp::StackReadPcHi
        | MicroOp::StackReadStatusThenIncSp
        | MicroOp::IncPc)
}

/// A micro-operation leaves the CPU's state (fetch or cursor) alone.
proof fn lemma_micro_step_keeps_state<B: Bus>(cpu: Cpu, bus: B, op: MicroOp)
    ensures
        micro_step(cpu, bus, op).0.state == cpu.state,
{
    reveal(micro_step);
}

/// A property of the bus that every read and every write keeps also holds
/// after a micro-operation.
proof fn lemma_micro_step_keeps<B: Bus>(cpu: Cpu, bus: B, op: MicroOp, keep: spec_fn(B) -> bool)
    requires
        keep(bus),
        forall|b: B, a: u16| keep(b) ==> keep(#[trigger] b.after_read(a)),
        forall|b: B, a: u16, v: u8| keep(b) ==> keep(#[trigger] b.after_write(a, v)),
    ensures
        keep(micro_step(cpu, bus, op).1),
{
    reveal(micro_step);
}

/// A property of the bus that every read and every write keeps also holds
/// after a clock cycle of the CPU.
pub proof fn lemma_tick_keeps<B: Bus>(cpu: Cpu, bus: B, keep: spec_fn(B) -> bool)
    requires
        keep(bus),
        forall|b: B, a: u16| keep(b) ==> keep(#[trigger] b.after_read(a)),
        forall|b: B, a: u16, v: u8| keep(b) ==> keep(#[trigger] b.after_write(a, v)),
    ensures
        keep(tick_spec(cpu, bus).1),
{
    if let CpuState::Exec(cursor) = cpu.state {
        lemma_micro_step_keeps(Cpu { state: CpuState::Fetch, ..cpu }, bus, cursor.op(), keep);
    }
}

/// Every program has between one and seven micro-operations.
pub proof fn lemma_program_len(program: CpuProgram)
    ensures
        program_ops(program) matches Some(ops) ==> 1 <= ops.len() <= 7,
{
}

impl MicrocodeCursor {
    /// The cursor one micro-operation further on, if the program goes on.
    pub open spec fn advanced(self) -> Option<MicrocodeCursor> {
        let next = MicrocodeCursor { next_op: (self.next_op + 1) as u8, ..self };
        if self.next_op < 255 && next.valid() {
            Some(next)
        } else {
            None
        }
    }

    /// The number of micro-operations from the cursor to the end of its program (0 if it is not valid).
    pub open spec fn ops_left(self) -> nat {
        if self.valid() {
            (program_ops(self.program)->0.len() - self.next_op) as nat
        } else {
            0
        }
    }
}

impl CpuProgram {
    pub fn resolve(self) -> (r: Option<Vec<MicroOp>>)
        ensures
            match r {
                Some(ops) => program_ops(self) == Some(ops@),
                None => program_ops(self) is None,
            },
    {
        match self {
            CpuProgram::Opcode(opcode) => if is_implemented(opcode) {
                Some(decode(opcode))
            } else {
                None
            },
            CpuProgram::Nmi => Some(interrupt_ops(NMI_VECTOR)),
            CpuProgram::Irq => Some(interrupt_ops(IRQ_VECTOR)),
        }
    }
}

impl MicrocodeCursor {
    pub fn new(program: CpuProgram) -> (r: Option<Self>)
        ensures
            r == (if (MicrocodeCursor { program, next_op: 0 }).valid() {
                Some(MicrocodeCursor { program, next_op: 0 })
            } else {
                None
            }),
    {
        Self::from_parts(program, 0)
    }

    /// The cursor at `next_op` in `program`, if the program has that micro-operation.
    pub fn from_parts(program: CpuProgram, next_op: u8) -> (r: Option<Self>)
        ensures
            r == (if (MicrocodeCursor { program, next_op }).valid() {
                Some(MicrocodeCursor { program, next_op })
            } else {
                None
            }),
    {
        match program.resolve() {
            Some(ops) => {
                if (next_op as usize) < ops.len() {
                    Some(MicrocodeCursor { program, next_op })
                } else {
                    None
                }
            },
            None => None,
        }
    }

    pub fn current(self) -> (r: Option<MicroOp>)
        ensures
            r == (if self.valid() {
                Some(self.op())
            } else {
                None
            }),
    {
        match self.program.resolve() {
            Some(ops) => {
                if (self.next_op as usize) < ops.len() {
                    Some(ops[self.next_op as usize])
                } else {
                    None
                }
            },
            None => None,
        }
    }

    pub fn advance(self) -> (r: Option<Self>)
        ensures
            r == self.advanced(),
    {
        if self.next_op == 255 {
            return None;
        }
        Self::from_parts(self.program, self.next_op + 1)
    }
}

/// One clock cycle: the CPU and bus after it, and whether an instruction ended.
pub open spec fn tick_spec<B: Bus>(cpu: Cpu, bus: B) -> (Cpu, B, bool) {
    match cpu.state {
        CpuState::Fetch => {
            let opcode = bus.read_value(cpu.pc);
            (
                Cpu {
                    pc: wrap16(cpu.pc + 1),
                    state: CpuState::Exec(
                        MicrocodeCursor { program: CpuProgram::Opcode(opcode), next_op: 0 },
                    ),
                    ..cpu
                },
                bus.after_read(cpu.pc),
                false,
            )
        },
        CpuState::Exec(cursor) => {
            let (c, b, flow) = micro_step(Cpu { state: CpuState::Fetch, ..cpu }, bus, cursor.op());
            match cursor.advanced() {
                Some(next) if flow == MicroFlow::Continue => (
                    Cpu { state: CpuState::Exec(next), ..c },
                    b,
                    false,
                ),
                _ => (c, b, true),
            }
        },
    }
}

/// The opcode has a program.
pub open spec fn implemented(opcode: u8) -> bool {
    opcode_program(opcode) is Some
}

/// What a tick needs: a well-formed CPU and bus, and an implemented opcode if it fetches one.
pub open spec fn can_tick<B: Bus>(cpu: Cpu, bus: B) -> bool {
    &&& cpu.wf()
    &&& bus.bus_wf()
    &&& cpu.state is Fetch ==> implemented(bus.read_value(cpu.pc))
}

/// An upper bound on the cycles left in the current instruction.
pub open spec fn cycles_left(cpu: Cpu) -> nat {
    match cpu.state {
        CpuState::Fetch => 8,
        CpuState::Exec(cursor) => cursor.ops_left(),
    }
}

/// The rest of the current instruction (a whole one from a fetch): the CPU and
/// bus after it, and the number of cycles it took.
pub open spec fn instruction_spec<B: Bus>(cpu: Cpu, bus: B) -> (Cpu, B, nat)
    decreases cycles_left(cpu),
{
    let (c, b, done) = tick_spec(cpu, bus);
    if done || cycles_left(c) >= cycles_left(cpu) {
        (c, b, 1)
    } else {
        let (c2, b2, n) = instruction_spec(c, b);
        (c2, b2, n + 1)
    }
}

impl Cpu {
    /// The power-on state: registers clear, SP at `$FD`, interrupts disabled, fetching.
    pub open spec fn new_spec() -> Cpu {
        Cpu {
            a: 0,
            x: 0,
            y: 0,
            pc: 0,
            sp: 0xFD,
            status: Status::from_byte(0x24),
            addr_lo: 0,
            addr_hi: 0,
            eff_addr: 0,
            data: 0,
            branch_target: 0,
            branch_page_cross: false,
            state: CpuState::Fetch,
        }
    }

    pub fn new() -> (cpu: Self)
        ensures
            cpu == Cpu::new_spec(),
    {
        Self {
            a: 0,
            x: 0,
            y: 0,
            pc: 0,
            sp: 0xFD,
            status: Status::from(0x24),
            addr_lo: 0,
            addr_hi: 0,
            eff_addr: 0,
            data: 0,
            branch_target: 0,
            branch_page_cross: false,
            state: CpuState::Fetch,
        }
    }

    /// Load PC from the reset vector at `$FFFC`, reset SP and the flags, and
    /// start fetching; A, X and Y keep their values.
    pub fn reset<B: Bus>(&mut self, bus: &mut B)
        requires
            old(bus).bus_wf(),
        ensures
            final(bus).bus_wf(),
            ({
                let lo = old(bus).read_value(0xFFFC);
                let b1 = old(bus).after_read(0xFFFC);
                let hi = b1.read_value(0xFFFD);
                &&& *final(bus) == b1.after_read(0xFFFD)
                &&& *final(self) == (Cpu {
                    pc: word(hi, lo),
                    sp: 0xFD,
                    status: Status::from_byte(0x24),
                    state: CpuState::Fetch,
                    addr_lo: 0,
                    addr_hi: 0,
                    eff_addr: 0,
                    data: 0,
                    branch_target: 0,
                    branch_page_cross: false,
                    ..*old(self)
                })
            }),
    {
        let lo = bus.read(0xFFFC);
        let hi = bus.read(0xFFFD);

        self.pc = make_word(hi, lo);
        self.sp = 0xFD;
        self.status = Status::from(0x24);
        self.state = CpuState::Fetch;

        self.addr_lo = 0;
        self.addr_hi = 0;
        self.eff_addr = 0;
        self.data = 0;
        self.branch_target = 0;
        self.branch_page_cross = false;
    }

    /// Whether the next cycle counts as a read or a write for a DMA halt (see
    /// `is_write_cycle_op`).
    pub fn next_cycle_kind(&self) -> (kind: CpuCycleKind)
        requires
            self.wf(),
        ensures
            kind == (match self.state {
                CpuState::Fetch => CpuCycleKind::Read,
                CpuState::Exec(cursor) => if is_write_cycle_op(cursor.op()) {
                    CpuCycleKind::Write
                } else {
                    CpuCycleKind::Read
                },
            }),
    {
        match self.state {
            CpuState::Fetch => CpuCycleKind::Read,
            CpuState::Exec(cursor) => match cursor.current() {
                Some(op) => if is_write_op_exec(op) && !matches!(op, MicroOp::WriteRegToEffAddr(_)) {
                    CpuCycleKind::Write
                } else {
                    CpuCycleKind::Read
                },
                None => CpuCycleKind::Read,
            },
        }
    }

    /// Run one clock cycle; returns whether an instruction ended with it.
    pub fn tick<B: Bus>(&mut self, bus: &mut B) -> (finished: bool)
        requires
            can_tick(*old(self), *old(bus)),
        ensures
            final(bus).bus_wf(),
            final(self).wf(),
            (*final(self), *final(bus), finished) == tick_spec(*old(self), *old(bus)),
            finished ==> final(self).state is Fetch,
            !finished ==> final(self).state is Exec,
    {
        let exec = self.state;
        self.state = CpuState::Fetch;
        let mut finished = false;
        match exec {
            CpuState::Fetch => {
                let opcode = bus.read(self.pc);
                self.pc = inc16(self.pc);
                let program = CpuProgram::Opcode(opcode);
                proof {
                    lemma_program_len(program);
                }
                match MicrocodeCursor::new(program) {
                    Some(cursor) => {
                        self.state = CpuState::Exec(cursor);
                    },
                    None => {},
                }
            },
            CpuState::Exec(cursor) => {
                let op = match cursor.current() {
                    Some(op) => op,
                    None => {
                        return true;
                    },
                };
                let ghost before = *self;
                let flow = self.exec_micro_op(bus, op);
                proof {
                    lemma_micro_step_keeps_state(before, *old(bus), op);
                }
                match flow {
                    MicroFlow::EndInstruction => finished = true,
                    MicroFlow::Continue => {
                        match cursor.advance() {
                            Some(next) => {
                                self.state = CpuState::Exec(next);
                            },
                            None => {
                                finished = true;
                            },
                        }
                    },
                }
            },
        }
        finished
    }

    /// Run until the current instruction ends (a whole instruction from a
    /// fetch); returns the number of cycles.
    /// One clock cycle, as `tick`, for a CPU that may fetch an opcode without a
    /// program: then the fetch read happens and the opcode comes back as the
    /// error, with the CPU unchanged.
    pub fn try_tick<B: Bus>(&mut self, bus: &mut B) -> (r: Result<bool, u8>)
        requires
            old(self).wf(),
            old(bus).bus_wf(),
        ensures
            final(bus).bus_wf(),
            final(self).wf(),
            match r {
                Ok(finished) => can_tick(*old(self), *old(bus)) && (*final(self), *final(bus), finished)
                    == tick_spec(*old(self), *old(bus)),
                Err(opcode) => !can_tick(*old(self), *old(bus)) && old(self).state is Fetch && opcode
                    == old(bus).read_value(old(self).pc) && *final(bus) == old(bus).after_read(
                    old(self).pc,
                ) && *final(self) == *old(self),
            },
    {
        if let CpuState::Fetch = self.state {
            let opcode = bus.read(self.pc);
            if !is_implemented(opcode) {
                return Err(opcode);
            }
            let program = CpuProgram::Opcode(opcode);
            proof {
                lemma_program_len(program);
            }
            match MicrocodeCursor::new(program) {
                Some(cursor) => {
                    self.pc = inc16(self.pc);
                    self.state = CpuState::Exec(cursor);
                    Ok(false)
                },
                None => Err(opcode),
            }
        } else {
            Ok(self.tick(bus))
        }
    }

    pub fn step_instruction<B: Bus>(&mut self, bus: &mut B) -> (cycles: usize)
        requires
            can_tick(*old(self), *old(bus)),
        ensures
            final(bus).bus_wf(),
            final(self).wf(),
            final(self).state is Fetch,
            (*final(self), *final(bus), cycles as nat) == instruction_spec(*old(self), *old(bus)),
    {
        let mut cycle: usize = 0;
        loop
            invariant
                can_tick(*self, *bus),
                cycle + cycles_left(*self) <= 8,
                cycle > 0 ==> self.state is Exec,
                cycle == 0 ==> *self == *old(self) && *bus == *old(bus),
                ({
                    let (c, b, n) = instruction_spec(*self, *bus);
                    instruction_spec(*old(self), *old(bus)) == (c, b, (n + cycle) as nat)
                }),
            decreases cycles_left(*self),
        {
            let ghost prev = *self;
            let ghost prev_bus = *bus;
            proof {
                if let CpuState::Exec(cursor) = prev.state {
                    lemma_program_len(cursor.program);
                }
            }
            let done = self.tick(bus);
            proof {
                if let CpuState::Exec(cursor) = self.state {
                    lemma_program_len(cursor.program);
                }
            }
            if done {
                return cycle + 1;
            }
            cycle = cycle + 1;
        }
    }

    /// Begin the non-maskable interrupt sequence in place of the next fetch.
    pub fn start_nmi(&mut self)
        requires
            old(self).state is Fetch,
        ensures
            *final(self) == (Cpu {
                state: CpuState::Exec(MicrocodeCursor { program: CpuProgram::Nmi, next_op: 0 }),
                ..*old(self)
            }),
    {
        self.state = CpuState::Exec(MicrocodeCursor { program: CpuProgram::Nmi, next_op: 0 });
    }

    /// Begin the interrupt request sequence in place of the next fetch.
    pub fn start_irq(&mut self)
        requires
            old(self).state is Fetch,
        ensures
            *final(self) == (Cpu {
                state: CpuState::Exec(MicrocodeCursor { program: CpuProgram::Irq, next_op: 0 }),
                ..*old(self)
            }),
    {
        self.state = CpuState::Exec(MicrocodeCursor { program: CpuProgram::Irq, next_op: 0 });
    }

    /// An interrupt can start only between instructions.
    pub fn can_start_interrupt(&self) -> (r: bool)
        ensures
            r == self.state is Fetch,
    {
        matches!(self.state, CpuState::Fetch)
    }
}

impl Default for Cpu {
    fn default() -> (cpu: Self)
        ensures
            cpu == Cpu::new_spec(),
    {
        Self::new()
    }
}

fn is_write_op_exec(op: MicroOp) -> (b: bool)
    ensures
        b == is_write_op(op),
{
    matches!(op,
        MicroOp::WriteRegToZpAddr(_)
        | MicroOp::WriteRegToEffAddr(_)
        | MicroOp::StackPushReg(_)
        | MicroOp::StackPushPcHi
        | MicroOp::StackPushPcLo
        | MicroOp::StackPushStatus(_)
        | MicroOp::IncDataSetNZAndWriteZpAddr
        | MicroOp::DecDataSetNZAndWriteZpAddr
        | MicroOp::IncDataSetNZAndWriteEffAddr
        | MicroOp::DecDataSetNZAndWriteEffAddr
        | MicroOp::WriteDataToZpAddr
        | MicroOp::WriteDataToEffAddr
        | MicroOp::ShiftDataSetCZNAndWriteZpAddr(_)
        | MicroOp::ShiftDataSetCZNAndWriteEffAddr(_))
}

} // verus!
