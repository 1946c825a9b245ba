use vstd::prelude::*;

verus! {

/// A CPU register that micro-operations name.
#[derive(Debug, Clone, Copy, PartialEq, Eq, Structural)]
pub enum Reg {
    A,
    X,
    Y,
    SP,
}

#[derive(Debug, Clone, Copy, PartialEq, Eq, Structural)]
pub enum BranchCond {
    NegativeSet,
    NegativeClear,
    ZeroSet,
    ZeroClear,
    CarrySet,
    CarryClear,
    OverflowSet,
    OverflowClear,
}

/// Where an ALU or compare micro-operation reads its operand.
#[derive(Debug, Clone, Copy, PartialEq, Eq, Structural)]
pub enum AluSrc {
    Imm,
    ZpAddrLo,
    EffAddr,
}

#[derive(Debug, Clone, Copy, PartialEq, Eq, Structural)]
pub enum AluOp {
    /// AND A with the operand
    And,
    /// OR A with the operand
    Ora,
    /// XOR A with the operand
    Eor,
    /// AND A with the operand, only setting the zero, overflow and negative flags
    Bit,
    /// Add with carry
    Adc,
    /// Subtract with borrow
    Sbc,
}

#[derive(Debug, Clone, Copy, PartialEq, Eq, Structural)]
pub enum ShiftOp {
    Asl,
    Lsr,
    Rol,
    Ror,
}

/// Which value of the break bit a pushed status byte carries.
#[derive(Debug, Clone, Copy, PartialEq, Eq, Structural)]
pub enum StatusPushKind {
    /// PHP and BRK push the status with the break bit set.
    PhpOrBrk,
    /// Hardware interrupts push it with the break bit clear.
    Interrupt,
}

/// One bus cycle of an instruction.
#[derive(Debug, Clone, Copy, PartialEq, Eq, Structural)]
pub enum MicroOp {
    /// Read the byte at PC, discard it and increment PC
    ReadPcAndDiscard,
    /// Read the byte at PC and discard it
    ReadPcAndDiscardNoInc,
    /// Read the next byte into a register and set the zero and negative flags
    ReadPcToRegSetNZ(Reg),
    /// Read the next byte into the address low byte
    ReadPcToAddrLo,
    /// Read the next byte into the address high byte and form the effective address
    ReadPcToAddrHi,
    /// Read the next byte into the address high byte and jump to the address
    ReadPcToAddrHiSetPc,
    /// Read the high byte of an indirect jump target, wrapping within the page, and jump
    ReadJmpIndirectAddrHiAndJump,
    /// Read the byte at the effective address into a register and set the zero and negative flags
    ReadEffAddrToRegSetNZ(Reg),
    /// Read the byte at the effective address into the address low byte
    ReadEffAddrToAddrLo,
    /// Read the next zero-page byte into the address high byte and form the effective address
    ReadEffAddrToAddrHi,
    /// Read the low byte of the zero-page pointer at the address low byte
    ReadZpPtrLoToAddrLo,
    /// Read the high byte of the zero-page pointer and form the base address
    ReadZpPtrHiToAddrHi,
    /// Read the zero-page byte at the address low byte into a register and set the zero and negative flags
    ReadZpAddrToRegSetNZ(Reg),
    /// Write a register to the effective address
    WriteRegToEffAddr(Reg),
    /// Copy a register to another and set the zero and negative flags
    CopyRegToRegSetNZ(Reg, Reg),
    /// Copy a register to another
    CopyRegToReg(Reg, Reg),
    /// Dummy read of the zero-page base, then index it within the zero page
    ZpIndexedDummyReadAndCompute(Reg),
    /// Write a register to the zero-page address in the address low byte
    WriteRegToZpAddr(Reg),
    /// Index the effective address by a register with a dummy read (no page-cross penalty)
    IndexEffAddrNoPenalty(Reg),
    /// Indexed load: read and finish without a page cross, otherwise dummy read and continue
    AbsIndexedReadOrDummy(Reg, Reg),
    /// Indexed ALU operation: finish without a page cross, otherwise dummy read and continue
    AbsIndexedAluAOrDummy(Reg, AluOp),
    /// Read the branch offset; finish unless the branch is taken
    BranchReadOffsetAndDecide(BranchCond),
    /// Dummy read and jump; finish unless the target is on another page
    BranchApplyIfTaken,
    /// Dummy read for a branch that crosses a page
    BranchPageCrossPenalty,
    /// A cycle that does nothing
    ExtraCycle,
    /// Increment the stack pointer
    StackIncSp,
    /// Push a register to the stack
    StackPushReg(Reg),
    /// Push the high byte of the program counter
    StackPushPcHi,
    /// Push the low byte of the program counter
    StackPushPcLo,
    /// Push the status flags
    StackPushStatus(StatusPushKind),
    /// Pull a register from the stack and set the zero and negative flags
    StackPullRegSetNZ(Reg),
    /// Pull the status flags from the stack
    StackPullStatus,
    /// Read the low byte of the program counter from the stack, then increment the stack pointer
    StackReadPcLoThenIncSp,
    /// Read the high byte of the program counter from the stack and jump
    StackReadPcHi,
    /// Read the status flags from the stack, then increment the stack pointer
    StackReadStatusThenIncSp,
    /// Increment the program counter
    IncPc,
    /// Perform an ALU operation on A and the operand
    Alu(AluOp, AluSrc),
    /// Compare a register with the operand
    Compare(Reg, AluSrc),
    /// Indexed compare: finish without a page cross, otherwise dummy read and continue
    AbsIndexedCompareOrDummy(Reg, Reg),
    /// Read the low byte of an interrupt vector
    ReadVectorLo(u16),
    /// Read the high byte of an interrupt vector, jump, and set interrupt disable
    ReadVectorHiSetPcAndI(u16),
    /// Clear the status bits of a mask
    ClearStatusBit(u8),
    /// Set the status bits of a mask
    SetStatusBit(u8),
    /// Increment a register and set the zero and negative flags
    IncRegSetNZ(Reg),
    /// Decrement a register and set the zero and negative flags
    DecRegSetNZ(Reg),
    /// Increment the data scratch, set the zero and negative flags, write it to the zero-page address
    IncDataSetNZAndWriteZpAddr,
    /// Decrement the data scratch, set the zero and negative flags, write it to the zero-page address
    DecDataSetNZAndWriteZpAddr,
    /// Increment the data scratch, set the zero and negative flags, write it to the effective address
    IncDataSetNZAndWriteEffAddr,
    /// Decrement the data scratch, set the zero and negative flags, write it to the effective address
    DecDataSetNZAndWriteEffAddr,
    /// Read the zero-page byte at the address low byte into the data scratch
    ReadZpAddrToData,
    /// Write the data scratch to the zero-page address
    WriteDataToZpAddr,
    /// Read the byte at the effective address into the data scratch
    ReadEffAddrToData,
    /// Write the data scratch to the effective address
    WriteDataToEffAddr,
    /// Shift a register, setting carry, zero and negative
    ShiftRegSetCZN(Reg, ShiftOp),
    /// Shift the data scratch, set carry, zero and negative, write it to the zero-page address
    ShiftDataSetCZNAndWriteZpAddr(ShiftOp),
    /// Shift the data scratch, set carry, zero and negative, write it to the effective address
    ShiftDataSetCZNAndWriteEffAddr(ShiftOp),
}

/// The addressing modes of the instruction set.
#[derive(Debug, Clone, Copy, PartialEq, Eq, Structural)]
pub enum AddrMode {
    Imm,
    Zp,
    ZpX,
    ZpY,
    Abs,
    AbsX,
    AbsY,
    IndX,
    IndY,
}

/// The index register of an indexed mode (X for the others).
pub open spec fn mode_index(mode: AddrMode) -> Reg {
    match mode {
        AddrMode::ZpY | AddrMode::AbsY | AddrMode::IndY => Reg::Y,
        _ => Reg::X,
    }
}

/// Loads: `LDA`, `LDX`, `LDY`.
pub open spec fn load_program(r: Reg, mode: AddrMode) -> Seq<MicroOp> {
    let i = mode_index(mode);
    match mode {
        AddrMode::Imm => seq![MicroOp::ReadPcToRegSetNZ(r)],
        AddrMode::Zp => seq![MicroOp::ReadPcToAddrLo, MicroOp::ReadZpAddrToRegSetNZ(r)],
        AddrMode::ZpX | AddrMode::ZpY => seq![
            MicroOp::ReadPcToAddrLo,
            MicroOp::ZpIndexedDummyReadAndCompute(i),
            MicroOp::ReadEffAddrToRegSetNZ(r),
        ],
        AddrMode::Abs => seq![
            MicroOp::ReadPcToAddrLo,
            MicroOp::ReadPcToAddrHi,
            MicroOp::ReadEffAddrToRegSetNZ(r),
        ],
        AddrMode::AbsX | AddrMode::AbsY => seq![
            MicroOp::ReadPcToAddrLo,
            MicroOp::ReadPcToAddrHi,
            MicroOp::AbsIndexedReadOrDummy(i, r),
            MicroOp::ReadEffAddrToRegSetNZ(r),
        ],
        AddrMode::IndX => seq![
            MicroOp::ReadPcToAddrLo,
            MicroOp::ZpIndexedDummyReadAndCompute(Reg::X),
            MicroOp::ReadEffAddrToAddrLo,
            MicroOp::ReadEffAddrToAddrHi,
            MicroOp::ReadEffAddrToRegSetNZ(r),
        ],
        AddrMode::IndY => seq![
            MicroOp::ReadPcToAddrLo,
            MicroOp::ReadZpPtrLoToAddrLo,
            MicroOp::ReadZpPtrHiToAddrHi,
            MicroOp::AbsIndexedReadOrDummy(Reg::Y, r),
            MicroOp::ReadEffAddrToRegSetNZ(r),
        ],
    }
}

/// Stores: `STA`, `STX`, `STY` (there is no immediate store).
pub open spec fn store_program(r: Reg, mode: AddrMode) -> Seq<MicroOp> {
    let i = mode_index(mode);
    match mode {
        AddrMode::Imm => seq![],
        AddrMode::Zp => seq![MicroOp::ReadPcToAddrLo, MicroOp::WriteRegToZpAddr(r)],
        AddrMode::ZpX | AddrMode::ZpY => seq![
            MicroOp::ReadPcToAddrLo,
            MicroOp::ZpIndexedDummyReadAndCompute(i),
            MicroOp::WriteRegToEffAddr(r),
        ],
        AddrMode::Abs => seq![
            MicroOp::ReadPcToAddrLo,
            MicroOp::ReadPcToAddrHi,
            MicroOp::WriteRegToEffAddr(r),
        ],
        AddrMode::AbsX | AddrMode::AbsY => seq![
            MicroOp::ReadPcToAddrLo,
            MicroOp::ReadPcToAddrHi,
            MicroOp::IndexEffAddrNoPenalty(i),
            MicroOp::WriteRegToEffAddr(r),
        ],
        AddrMode::IndX => seq![
            MicroOp::ReadPcToAddrLo,
            MicroOp::ZpIndexedDummyReadAndCompute(Reg::X),
            MicroOp::ReadEffAddrToAddrLo,
            MicroOp::ReadEffAddrToAddrHi,
            MicroOp::WriteRegToEffAddr(r),
        ],
        AddrMode::IndY => seq![
            MicroOp::ReadPcToAddrLo,
            MicroOp::ReadZpPtrLoToAddrLo,
            MicroOp::ReadZpPtrHiToAddrHi,
            MicroOp::IndexEffAddrNoPenalty(Reg::Y),
            MicroOp::WriteRegToEffAddr(r),
        ],
    }
}

/// Accumulator operations: `AND`, `ORA`, `EOR`, `BIT`, `ADC`, `SBC`.
pub open spec fn alu_program(op: AluOp, mode: AddrMode) -> Seq<MicroOp> {
    let i = mode_index(mode);
    match mode {
        AddrMode::Imm => seq![MicroOp::Alu(op, AluSrc::Imm)],
        AddrMode::Zp => seq![MicroOp::ReadPcToAddrLo, MicroOp::Alu(op, AluSrc::ZpAddrLo)],
        AddrMode::ZpX | AddrMode::ZpY => seq![
            MicroOp::ReadPcToAddrLo,
            MicroOp::ZpIndexedDummyReadAndCompute(i),
            MicroOp::Alu(op, AluSrc::EffAddr),
        ],
        AddrMode::Abs => seq![
            MicroOp::ReadPcToAddrLo,
            MicroOp::ReadPcToAddrHi,
            MicroOp::Alu(op, AluSrc::EffAddr),
        ],
        AddrMode::AbsX | AddrMode::AbsY => seq![
            MicroOp::ReadPcToAddrLo,
            MicroOp::ReadPcToAddrHi,
            MicroOp::AbsIndexedAluAOrDummy(i, op),
            MicroOp::Alu(op, AluSrc::EffAddr),
        ],
        AddrMode::IndX => seq![
            MicroOp::ReadPcToAddrLo,
            MicroOp::ZpIndexedDummyReadAndCompute(Reg::X),
            MicroOp::ReadEffAddrToAddrLo,
            MicroOp::ReadEffAddrToAddrHi,
            MicroOp::Alu(op, AluSrc::EffAddr),
        ],
        AddrMode::IndY => seq![
            MicroOp::ReadPcToAddrLo,
            MicroOp::ReadZpPtrLoToAddrLo,
            MicroOp::ReadZpPtrHiToAddrHi,
            MicroOp::AbsIndexedAluAOrDummy(Reg::Y, op),
            MicroOp::Alu(op, AluSrc::EffAddr),
        ],
    }
}

/// Comparisons: `CMP`, `CPX`, `CPY`.
pub open spec fn compare_program(r: Reg, mode: AddrMode) -> Seq<MicroOp> {
    let i = mode_index(mode);
    match mode {
        AddrMode::Imm => seq![MicroOp::Compare(r, AluSrc::Imm)],
        AddrMode::Zp => seq![MicroOp::ReadPcToAddrLo, MicroOp::Compare(r, AluSrc::ZpAddrLo)],
        AddrMode::ZpX | AddrMode::ZpY => seq![
            MicroOp::ReadPcToAddrLo,
            MicroOp::ZpIndexedDummyReadAndCompute(i),
            MicroOp::Compare(r, AluSrc::EffAddr),
        ],
        AddrMode::Abs => seq![
            MicroOp::ReadPcToAddrLo,
            MicroOp::ReadPcToAddrHi,
            MicroOp::Compare(r, AluSrc::EffAddr),
        ],
        AddrMode::AbsX | AddrMode::AbsY => seq![
            MicroOp::ReadPcToAddrLo,
            MicroOp::ReadPcToAddrHi,
            MicroOp::AbsIndexedCompareOrDummy(i, r),
            MicroOp::Compare(r, AluSrc::EffAddr),
        ],
        AddrMode::IndX => seq![
            MicroOp::ReadPcToAddrLo,
            MicroOp::ZpIndexedDummyReadAndCompute(Reg::X),
            MicroOp::ReadEffAddrToAddrLo,
            MicroOp::ReadEffAddrToAddrHi,
            MicroOp::Compare(r, AluSrc::EffAddr),
        ],
        AddrMode::IndY => seq![
            MicroOp::ReadPcToAddrLo,
            MicroOp::ReadZpPtrLoToAddrLo,
            MicroOp::ReadZpPtrHiToAddrHi,
            MicroOp::AbsIndexedCompareOrDummy(Reg::Y, r),
            MicroOp::Compare(r, AluSrc::EffAddr),
        ],
    }
}

/// Read-modify-write on memory (`INC`, `DEC` and the shifts): read the operand,
/// write it back unchanged, then write the result with `zp_op` or `eff_op`.
pub open spec fn rmw_program(zp_op: MicroOp, eff_op: MicroOp, mode: AddrMode) -> Seq<MicroOp> {
    match mode {
        AddrMode::Zp => seq![
            MicroOp::ReadPcToAddrLo,
            MicroOp::ReadZpAddrToData,
            MicroOp::WriteDataToZpAddr,
            zp_op,
        ],
        AddrMode::ZpX => seq![
            MicroOp::ReadPcToAddrLo,
            MicroOp::ZpIndexedDummyReadAndCompute(Reg::X),
            MicroOp::ReadEffAddrToData,
            MicroOp::WriteDataToEffAddr,
            eff_op,
        ],
        AddrMode::Abs => seq![
            MicroOp::ReadPcToAddrLo,
            MicroOp::ReadPcToAddrHi,
            MicroOp::ReadEffAddrToData,
            MicroOp::WriteDataToEffAddr,
            eff_op,
        ],
        AddrMode::AbsX => seq![
            MicroOp::ReadPcToAddrLo,
            MicroOp::ReadPcToAddrHi,
            MicroOp::IndexEffAddrNoPenalty(Reg::X),
            MicroOp::ReadEffAddrToData,
            MicroOp::WriteDataToEffAddr,
            eff_op,
        ],
        _ => seq![],
    }
}

pub open spec fn inc_program(mode: AddrMode) -> Seq<MicroOp> {
    rmw_program(MicroOp::IncDataSetNZAndWriteZpAddr, MicroOp::IncDataSetNZAndWriteEffAddr, mode)
}

pub open spec fn dec_program(mode: AddrMode) -> Seq<MicroOp> {
    rmw_program(MicroOp::DecDataSetNZAndWriteZpAddr, MicroOp::DecDataSetNZAndWriteEffAddr, mode)
}

pub open spec fn shift_program(op: ShiftOp, mode: AddrMode) -> Seq<MicroOp> {
    rmw_program(
        MicroOp::ShiftDataSetCZNAndWriteZpAddr(op),
        MicroOp::ShiftDataSetCZNAndWriteEffAddr(op),
        mode,
    )
}

pub open spec fn branch_program(cond: BranchCond) -> Seq<MicroOp> {
    seq![
        MicroOp::BranchReadOffsetAndDecide(cond),
        MicroOp::BranchApplyIfTaken,
        MicroOp::BranchPageCrossPenalty,
    ]
}

/// The hardware interrupt sequence through the vector at `vector`: two dummy
/// reads, push PC and status, load PC from the vector.
pub open spec fn interrupt_program(vector: u16) -> Seq<MicroOp> {
    seq![
        MicroOp::ReadPcAndDiscardNoInc,
        MicroOp::ReadPcAndDiscardNoInc,
        MicroOp::StackPushPcHi,
        MicroOp::StackPushPcLo,
        MicroOp::StackPushStatus(StatusPushKind::Interrupt),
        MicroOp::ReadVectorLo(vector),
        MicroOp::ReadVectorHiSetPcAndI((vector + 1) as u16),
    ]
}

pub const NMI_VECTOR: u16 = 0xFFFA;
pub const IRQ_VECTOR: u16 = 0xFFFE;

/// The micro-operations of every opcode this CPU implements (the official
/// instruction set); `None` for the others.
pub open spec fn opcode_program(opcode: u8) -> Option<Seq<MicroOp>> {
    match opcode {
        // loads
        0xA9 => Some(load_program(Reg::A, AddrMode::Imm)),
        0xA5 => Some(load_program(Reg::A, AddrMode::Zp)),
        0xB5 => Some(load_program(Reg::A, AddrMode::ZpX)),
        0xAD => Some(load_program(Reg::A, AddrMode::Abs)),
        0xBD => Some(load_program(Reg::A, AddrMode::AbsX)),
        0xB9 => Some(load_program(Reg::A, AddrMode::AbsY)),
        0xA1 => Some(load_program(Reg::A, AddrMode::IndX)),
        0xB1 => Some(load_program(Reg::A, AddrMode::IndY)),
        0xA2 => Some(load_program(Reg::X, AddrMode::Imm)),
        0xA6 => Some(load_program(Reg::X, AddrMode::Zp)),
        0xB6 => Some(load_program(Reg::X, AddrMode::ZpY)),
        0xAE => Some(load_program(Reg::X, AddrMode::Abs)),
        0xBE => Some(load_program(Reg::X, AddrMode::AbsY)),
        0xA0 => Some(load_program(Reg::Y, AddrMode::Imm)),
        0xA4 => Some(load_program(Reg::Y, AddrMode::Zp)),
        0xB4 => Some(load_program(Reg::Y, AddrMode::ZpX)),
        0xAC => Some(load_program(Reg::Y, AddrMode::Abs)),
        0xBC => Some(load_program(Reg::Y, AddrMode::AbsX)),
        // stores
        0x85 => Some(store_program(Reg::A, AddrMode::Zp)),
        0x95 => Some(store_program(Reg::A, AddrMode::ZpX)),
        0x8D => Some(store_program(Reg::A, AddrMode::Abs)),
        0x9D => Some(store_program(Reg::A, AddrMode::AbsX)),
        0x99 => Some(store_program(Reg::A, AddrMode::AbsY)),
        0x81 => Some(store_program(Reg::A, AddrMode::IndX)),
        0x91 => Some(store_program(Reg::A, AddrMode::IndY)),
        0x86 => Some(store_program(Reg::X, AddrMode::Zp)),
        0x96 => Some(store_program(Reg::X, AddrMode::ZpY)),
        0x8E => Some(store_program(Reg::X, AddrMode::Abs)),
        0x84 => Some(store_program(Reg::Y, AddrMode::Zp)),
        0x94 => Some(store_program(Reg::Y, AddrMode::ZpX)),
        0x8C => Some(store_program(Reg::Y, AddrMode::Abs)),
        // accumulator operations
        0x29 => Some(alu_program(AluOp::And, AddrMode::Imm)),
        0x25 => Some(alu_program(AluOp::And, AddrMode::Zp)),
        0x35 => Some(alu_program(AluOp::And, AddrMode::ZpX)),
        0x2D => Some(alu_program(AluOp::And, AddrMode::Abs)),
        0x3D => Some(alu_program(AluOp::And, AddrMode::AbsX)),
        0x39 => Some(alu_program(AluOp::And, AddrMode::AbsY)),
        0x21 => Some(alu_program(AluOp::And, AddrMode::IndX)),
        0x31 => Some(alu_program(AluOp::And, AddrMode::IndY)),
        0x09 => Some(alu_program(AluOp::Ora, AddrMode::Imm)),
        0x05 => Some(alu_program(AluOp::Ora, AddrMode::Zp)),
        0x15 => Some(alu_program(AluOp::Ora, AddrMode::ZpX)),
        0x0D => Some(alu_program(AluOp::Ora, AddrMode::Abs)),
        0x1D => Some(alu_program(AluOp::Ora, AddrMode::AbsX)),
        0x19 => Some(alu_program(AluOp::Ora, AddrMode::AbsY)),
        0x01 => Some(alu_program(AluOp::Ora, AddrMode::IndX)),
        0x11 => Some(alu_program(AluOp::Ora, AddrMode::IndY)),
        0x49 => Some(alu_program(AluOp::Eor, AddrMode::Imm)),
        0x45 => Some(alu_program(AluOp::Eor, AddrMode::Zp)),
        0x55 => Some(alu_program(AluOp::Eor, AddrMode::ZpX)),
        0x4D => Some(alu_program(AluOp::Eor, AddrMode::Abs)),
        0x5D => Some(alu_program(AluOp::Eor, AddrMode::AbsX)),
        0x59 => Some(alu_program(AluOp::Eor, AddrMode::AbsY)),
        0x41 => Some(alu_program(AluOp::Eor, AddrMode::IndX)),
        0x51 => Some(alu_program(AluOp::Eor, AddrMode::IndY)),
        0x69 => Some(alu_program(AluOp::Adc, AddrMode::Imm)),
        0x65 => Some(alu_program(AluOp::Adc, AddrMode::Zp)),
        0x75 => Some(alu_program(AluOp::Adc, AddrMode::ZpX)),
        0x6D => Some(alu_program(AluOp::Adc, AddrMode::Abs)),
        0x7D => Some(alu_program(AluOp::Adc, AddrMode::AbsX)),
        0x79 => Some(alu_program(AluOp::Adc, AddrMode::AbsY)),
        0x61 => Some(alu_program(AluOp::Adc, AddrMode::IndX)),
        0x71 => Some(alu_program(AluOp::Adc, AddrMode::IndY)),
        0xE9 => Some(alu_program(AluOp::Sbc, AddrMode::Imm)),
        0xE5 => Some(alu_program(AluOp::Sbc, AddrMode::Zp)),
        0xF5 => Some(alu_program(AluOp::Sbc, AddrMode::ZpX)),
        0xED => Some(alu_program(AluOp::Sbc, AddrMode::Abs)),
        0xFD => Some(alu_program(AluOp::Sbc, AddrMode::AbsX)),
        0xF9 => Some(alu_program(AluOp::Sbc, AddrMode::AbsY)),
        0xE1 => Some(alu_program(AluOp::Sbc, AddrMode::IndX)),
        0xF1 => Some(alu_program(AluOp::Sbc, AddrMode::IndY)),
        0x24 => Some(alu_program(AluOp::Bit, AddrMode::Zp)),
        0x2C => Some(alu_program(AluOp::Bit, AddrMode::Abs)),
        // comparisons
        0xC9 => Some(compare_program(Reg::A, AddrMode::Imm)),
        0xC5 => Some(compare_program(Reg::A, AddrMode::Zp)),
        0xD5 => Some(compare_program(Reg::A, AddrMode::ZpX)),
        0xCD => Some(compare_program(Reg::A, AddrMode::Abs)),
        0xDD => Some(compare_program(Reg::A, AddrMode::AbsX)),
        0xD9 => Some(compare_program(Reg::A, AddrMode::AbsY)),
        0xC1 => Some(compare_program(Reg::A, AddrMode::IndX)),
        0xD1 => Some(compare_program(Reg::A, AddrMode::IndY)),
        0xE0 => Some(compare_program(Reg::X, AddrMode::Imm)),
        0xE4 => Some(compare_program(Reg::X, AddrMode::Zp)),
        0xEC => Some(compare_program(Reg::X, AddrMode::Abs)),
        0xC0 => Some(compare_program(Reg::Y, AddrMode::Imm)),
        0xC4 => Some(compare_program(Reg::Y, AddrMode::Zp)),
        0xCC => Some(compare_program(Reg::Y, AddrMode::Abs)),
        // read-modify-write
        0xE6 => Some(inc_program(AddrMode::Zp)),
        0xF6 => Some(inc_program(AddrMode::ZpX)),
        0xEE => Some(inc_program(AddrMode::Abs)),
        0xFE => Some(inc_program(AddrMode::AbsX)),
        0xC6 => Some(dec_program(AddrMode::Zp)),
        0xD6 => Some(dec_program(AddrMode::ZpX)),
        0xCE => Some(dec_program(AddrMode::Abs)),
        0xDE => Some(dec_program(AddrMode::AbsX)),
        0x0A => Some(seq![MicroOp::ShiftRegSetCZN(Reg::A, ShiftOp::Asl)]),
        0x06 => Some(shift_program(ShiftOp::Asl, AddrMode::Zp)),
        0x16 => Some(shift_program(ShiftOp::Asl, AddrMode::ZpX)),
        0x0E => Some(shift_program(ShiftOp::Asl, AddrMode::Abs)),
        0x1E => Some(shift_program(ShiftOp::Asl, AddrMode::AbsX)),
        0x4A => Some(seq![MicroOp::ShiftRegSetCZN(Reg::A, ShiftOp::Lsr)]),
        0x46 => Some(shift_program(ShiftOp::Lsr, AddrMode::Zp)),
        0x56 => Some(shift_program(ShiftOp::Lsr, AddrMode::ZpX)),
        0x4E => Some(shift_program(ShiftOp::Lsr, AddrMode::Abs)),
        0x5E => Some(shift_program(ShiftOp::Lsr, AddrMode::AbsX)),
        0x2A => Some(seq![MicroOp::ShiftRegSetCZN(Reg::A, ShiftOp::Rol)]),
        0x26 => Some(shift_program(ShiftOp::Rol, AddrMode::Zp)),
        0x36 => Some(shift_program(ShiftOp::Rol, AddrMode::ZpX)),
        0x2E => Some(shift_program(ShiftOp::Rol, AddrMode::Abs)),
        0x3E => Some(shift_program(ShiftOp::Rol, AddrMode::AbsX)),
        0x6A => Some(seq![MicroOp::ShiftRegSetCZN(Reg::A, ShiftOp::Ror)]),
        0x66 => Some(shift_program(ShiftOp::Ror, AddrMode::Zp)),
        0x76 => Some(shift_program(ShiftOp::Ror, AddrMode::ZpX)),
        0x6E => Some(shift_program(ShiftOp::Ror, AddrMode::Abs)),
        0x7E => Some(shift_program(ShiftOp::Ror, AddrMode::AbsX)),
        // register increments and decrements
        0xE8 => Some(seq![MicroOp::IncRegSetNZ(Reg::X)]),
        0xC8 => Some(seq![MicroOp::IncRegSetNZ(Reg::Y)]),
        0xCA => Some(seq![MicroOp::DecRegSetNZ(Reg::X)]),
        0x88 => Some(seq![MicroOp::DecRegSetNZ(Reg::Y)]),
        // branches
        0x90 => Some(branch_program(BranchCond::CarryClear)),
        0xB0 => Some(branch_program(BranchCond::CarrySet)),
        0xF0 => Some(branch_program(BranchCond::ZeroSet)),
        0xD0 => Some(branch_program(BranchCond::ZeroClear)),
        0x30 => Some(branch_program(BranchCond::NegativeSet)),
        0x10 => Some(branch_program(BranchCond::NegativeClear)),
        0x50 => Some(branch_program(BranchCond::OverflowClear)),
        0x70 => Some(branch_program(BranchCond::OverflowSet)),
        // transfers
        0xAA => Some(seq![MicroOp::CopyRegToRegSetNZ(Reg::A, Reg::X)]),
        0xA8 => Some(seq![MicroOp::CopyRegToRegSetNZ(Reg::A, Reg::Y)]),
        0xBA => Some(seq![MicroOp::CopyRegToRegSetNZ(Reg::SP, Reg::X)]),
        0x8A => Some(seq![MicroOp::CopyRegToRegSetNZ(Reg::X, Reg::A)]),
        0x9A => Some(seq![MicroOp::CopyRegToReg(Reg::X, Reg::SP)]),
        0x98 => Some(seq![MicroOp::CopyRegToRegSetNZ(Reg::Y, Reg::A)]),
        // stack
        0x48 => Some(seq![MicroOp::ExtraCycle, MicroOp::StackPushReg(Reg::A)]),
        0x08 => Some(seq![MicroOp::ExtraCycle, MicroOp::StackPushStatus(StatusPushKind::PhpOrBrk)]),
        0x68 => Some(seq![MicroOp::ExtraCycle, MicroOp::StackPullRegSetNZ(Reg::A), MicroOp::ExtraCycle]),
        0x28 => Some(seq![MicroOp::ExtraCycle, MicroOp::StackPullStatus, MicroOp::ExtraCycle]),
        // flags
        0x18 => Some(seq![MicroOp::ClearStatusBit(0x01)]),
        0x58 => Some(seq![MicroOp::ClearStatusBit(0x04)]),
        0xD8 => Some(seq![MicroOp::ClearStatusBit(0x08)]),
        0xB8 => Some(seq![MicroOp::ClearStatusBit(0x40)]),
        0x38 => Some(seq![MicroOp::SetStatusBit(0x01)]),
        0x78 => Some(seq![MicroOp::SetStatusBit(0x04)]),
        0xF8 => Some(seq![MicroOp::SetStatusBit(0x08)]),
        // control flow
        0xEA => Some(seq![MicroOp::ExtraCycle]),
        0x4C => Some(seq![MicroOp::ReadPcToAddrLo, MicroOp::ReadPcToAddrHiSetPc]),
        0x6C => Some(seq![
            MicroOp::ReadPcToAddrLo,
            MicroOp::ReadPcToAddrHi,
            MicroOp::ReadEffAddrToAddrLo,
            MicroOp::ReadJmpIndirectAddrHiAndJump,
        ]),
        0x20 => Some(seq![
            MicroOp::ReadPcToAddrLo,
            MicroOp::ExtraCycle,
            MicroOp::StackPushPcHi,
            MicroOp::StackPushPcLo,
            MicroOp::ReadPcToAddrHiSetPc,
        ]),
        0x60 => Some(seq![
            MicroOp::ExtraCycle,
            MicroOp::StackIncSp,
            MicroOp::StackReadPcLoThenIncSp,
            MicroOp::StackReadPcHi,
            MicroOp::IncPc,
        ]),
        0x40 => Some(seq![
            MicroOp::ExtraCycle,
            MicroOp::StackIncSp,
            MicroOp::StackReadStatusThenIncSp,
            MicroOp::StackReadPcLoThenIncSp,
            MicroOp::StackReadPcHi,
        ]),
        0x00 => Some(seq![
            MicroOp::ReadPcAndDiscard,
            MicroOp::StackPushPcHi,
            MicroOp::StackPushPcLo,
            MicroOp::StackPushStatus(StatusPushKind::PhpOrBrk),
            MicroOp::ReadVectorLo(IRQ_VECTOR),
            MicroOp::ReadVectorHiSetPcAndI((IRQ_VECTOR + 1) as u16),
        ]),
        _ => None,
    }
}

fn load_ops(r: Reg, mode: AddrMode) -> (v: Vec<MicroOp>)
    ensures
        v@ == load_program(r, mode),
{
    let i = if matches!(mode, AddrMode::ZpY | AddrMode::AbsY | AddrMode::IndY) {
        Reg::Y
    } else {
        Reg::X
    };
    match mode {
        AddrMode::Imm => vec![MicroOp::ReadPcToRegSetNZ(r)],
        AddrMode::Zp => vec![MicroOp::ReadPcToAddrLo, MicroOp::ReadZpAddrToRegSetNZ(r)],
        AddrMode::ZpX | AddrMode::ZpY => vec![
            MicroOp::ReadPcToAddrLo,
            MicroOp::ZpIndexedDummyReadAndCompute(i),
            MicroOp::ReadEffAddrToRegSetNZ(r),
        ],
        AddrMode::Abs => vec![
            MicroOp::ReadPcToAddrLo,
            MicroOp::ReadPcToAddrHi,
            MicroOp::ReadEffAddrToRegSetNZ(r),
        ],
        AddrMode::AbsX | AddrMode::AbsY => vec![
            MicroOp::ReadPcToAddrLo,
            MicroOp::ReadPcToAddrHi,
            MicroOp::AbsIndexedReadOrDummy(i, r),
            MicroOp::ReadEffAddrToRegSetNZ(r),
        ],
        AddrMode::IndX => vec![
            MicroOp::ReadPcToAddrLo,
            MicroOp::ZpIndexedDummyReadAndCompute(Reg::X),
            MicroOp::ReadEffAddrToAddrLo,
            MicroOp::ReadEffAddrToAddrHi,
            MicroOp::ReadEffAddrToRegSetNZ(r),
        ],
        AddrMode::IndY => vec![
            MicroOp::ReadPcToAddrLo,
            MicroOp::ReadZpPtrLoToAddrLo,
            MicroOp::ReadZpPtrHiToAddrHi,
            MicroOp::AbsIndexedReadOrDummy(Reg::Y, r),
            MicroOp::ReadEffAddrToRegSetNZ(r),
        ],
    }
}


fn store_ops(r: Reg, mode: AddrMode) -> (v: Vec<MicroOp>)
    ensures
        v@ == store_program(r, mode),
{
    let i = if matches!(mode, AddrMode::ZpY | AddrMode::AbsY | AddrMode::IndY) {
        Reg::Y
    } else {
        Reg::X
    };
    match mode {
        AddrMode::Imm => vec![],
        AddrMode::Zp => vec![MicroOp::ReadPcToAddrLo, MicroOp::WriteRegToZpAddr(r)],
        AddrMode::ZpX | AddrMode::ZpY => vec![
            MicroOp::ReadPcToAddrLo,
            MicroOp::ZpIndexedDummyReadAndCompute(i),
            MicroOp::WriteRegToEffAddr(r),
        ],
        AddrMode::Abs => vec![
            MicroOp::ReadPcToAddrLo,
            MicroOp::ReadPcToAddrHi,
            MicroOp::WriteRegToEffAddr(r),
        ],
        AddrMode::AbsX | AddrMode::AbsY => vec![
            MicroOp::ReadPcToAddrLo,
            MicroOp::ReadPcToAddrHi,
            MicroOp::IndexEffAddrNoPenalty(i),
            MicroOp::WriteRegToEffAddr(r),
        ],
        AddrMode::IndX => vec![
            MicroOp::ReadPcToAddrLo,
            MicroOp::ZpIndexedDummyReadAndCompute(Reg::X),
            MicroOp::ReadEffAddrToAddrLo,
            MicroOp::ReadEffAddrToAddrHi,
            MicroOp::WriteRegToEffAddr(r),
        ],
        AddrMode::IndY => vec![
            MicroOp::ReadPcToAddrLo,
            MicroOp::ReadZpPtrLoToAddrLo,
            MicroOp::ReadZpPtrHiToAddrHi,
            MicroOp::IndexEffAddrNoPenalty(Reg::Y),
            MicroOp::WriteRegToEffAddr(r),
        ],
    }
}


fn alu_ops(op: AluOp, mode: AddrMode) -> (v: Vec<MicroOp>)
    ensures
        v@ == alu_program(op, mode),
{
    let i = if matches!(mode, AddrMode::ZpY | AddrMode::AbsY | AddrMode::IndY) {
        Reg::Y
    } else {
        Reg::X
    };
    match mode {
        AddrMode::Imm => vec![MicroOp::Alu(op, AluSrc::Imm)],
        AddrMode::Zp => vec![MicroOp::ReadPcToAddrLo, MicroOp::Alu(op, AluSrc::ZpAddrLo)],
        AddrMode::ZpX | AddrMode::ZpY => vec![
            MicroOp::ReadPcToAddrLo,
            MicroOp::ZpIndexedDummyReadAndCompute(i),
            MicroOp::Alu(op, AluSrc::EffAddr),
        ],
        AddrMode::Abs => vec![
            MicroOp::ReadPcToAddrLo,
            MicroOp::ReadPcToAddrHi,
            MicroOp::Alu(op, AluSrc::EffAddr),
        ],
        AddrMode::AbsX | AddrMode::AbsY => vec![
            MicroOp::ReadPcToAddrLo,
            MicroOp::ReadPcToAddrHi,
            MicroOp::AbsIndexedAluAOrDummy(i, op),
            MicroOp::Alu(op, AluSrc::EffAddr),
        ],
        AddrMode::IndX => vec![
            MicroOp::ReadPcToAddrLo,
            MicroOp::ZpIndexedDummyReadAndCompute(Reg::X),
            MicroOp::ReadEffAddrToAddrLo,
            MicroOp::ReadEffAddrToAddrHi,
            MicroOp::Alu(op, AluSrc::EffAddr),
        ],
        AddrMode::IndY => vec![
            MicroOp::ReadPcToAddrLo,
            MicroOp::ReadZpPtrLoToAddrLo,
            MicroOp::ReadZpPtrHiToAddrHi,
            MicroOp::AbsIndexedAluAOrDummy(Reg::Y, op),
            MicroOp::Alu(op, AluSrc::EffAddr),
        ],
    }
}


fn compare_ops(r: Reg, mode: AddrMode) -> (v: Vec<MicroOp>)
    ensures
        v@ == compare_program(r, mode),
{
    let i = if matches!(mode, AddrMode::ZpY | AddrMode::AbsY | AddrMode::IndY) {
        Reg::Y
    } else {
        Reg::X
    };
    match mode {
        AddrMode::Imm => vec![MicroOp::Compare(r, AluSrc::Imm)],
        AddrMode::Zp => vec![MicroOp::ReadPcToAddrLo, MicroOp::Compare(r, AluSrc::ZpAddrLo)],
        AddrMode::ZpX | AddrMode::ZpY => vec![
            MicroOp::ReadPcToAddrLo,
            MicroOp::ZpIndexedDummyReadAndCompute(i),
            MicroOp::Compare(r, AluSrc::EffAddr),
        ],
        AddrMode::Abs => vec![
            MicroOp::ReadPcToAddrLo,
            MicroOp::ReadPcToAddrHi,
            MicroOp::Compare(r, AluSrc::EffAddr),
        ],
        AddrMode::AbsX | AddrMode::AbsY => vec![
            MicroOp::ReadPcToAddrLo,
            MicroOp::ReadPcToAddrHi,
            MicroOp::AbsIndexedCompareOrDummy(i, r),
            MicroOp::Compare(r, AluSrc::EffAddr),
        ],
        AddrMode::IndX => vec![
            MicroOp::ReadPcToAddrLo,
            MicroOp::ZpIndexedDummyReadAndCompute(Reg::X),
            MicroOp::ReadEffAddrToAddrLo,
            MicroOp::ReadEffAddrToAddrHi,
            MicroOp::Compare(r, AluSrc::EffAddr),
        ],
        AddrMode::IndY => vec![
            MicroOp::ReadPcToAddrLo,
            MicroOp::ReadZpPtrLoToAddrLo,
            MicroOp::ReadZpPtrHiToAddrHi,
            MicroOp::AbsIndexedCompareOrDummy(Reg::Y, r),
            MicroOp::Compare(r, AluSrc::EffAddr),
        ],
    }
}

fn rmw_ops(zp_op: MicroOp, eff_op: MicroOp, mode: AddrMode) -> (v: Vec<MicroOp>)
    ensures
        v@ == rmw_program(zp_op, eff_op, mode),
{
    match mode {
        AddrMode::Zp => vec![
            MicroOp::ReadPcToAddrLo,
            MicroOp::ReadZpAddrToData,
            MicroOp::WriteDataToZpAddr,
            zp_op,
        ],
        AddrMode::ZpX => vec![
            MicroOp::ReadPcToAddrLo,
            MicroOp::ZpIndexedDummyReadAndCompute(Reg::X),
            MicroOp::ReadEffAddrToData,
            MicroOp::WriteDataToEffAddr,
            eff_op,
        ],
        AddrMode::Abs => vec![
            MicroOp::ReadPcToAddrLo,
            MicroOp::ReadPcToAddrHi,
            MicroOp::ReadEffAddrToData,
            MicroOp::WriteDataToEffAddr,
            eff_op,
        ],
        AddrMode::AbsX => vec![
            MicroOp::ReadPcToAddrLo,
            MicroOp::ReadPcToAddrHi,
            MicroOp::IndexEffAddrNoPenalty(Reg::X),
            MicroOp::ReadEffAddrToData,
            MicroOp::WriteDataToEffAddr,
            eff_op,
        ],
        _ => vec![],
    }
}

fn inc_ops(mode: AddrMode) -> (v: Vec<MicroOp>)
    ensures
        v@ == inc_program(mode),
{
    rmw_ops(MicroOp::IncDataSetNZAndWriteZpAddr, MicroOp::IncDataSetNZAndWriteEffAddr, mode)
}

fn dec_ops(mode: AddrMode) -> (v: Vec<MicroOp>)
    ensures
        v@ == dec_program(mode),
{
    rmw_ops(MicroOp::DecDataSetNZAndWriteZpAddr, MicroOp::DecDataSetNZAndWriteEffAddr, mode)
}

fn shift_ops(op: ShiftOp, mode: AddrMode) -> (v: Vec<MicroOp>)
    ensures
        v@ == shift_program(op, mode),
{
    rmw_ops(
        MicroOp::ShiftDataSetCZNAndWriteZpAddr(op),
        MicroOp::ShiftDataSetCZNAndWriteEffAddr(op),
        mode,
    )
}

fn branch_ops(cond: BranchCond) -> (v: Vec<MicroOp>)
    ensures
        v@ == branch_program(cond),
{
    vec![
        MicroOp::BranchReadOffsetAndDecide(cond),
        MicroOp::BranchApplyIfTaken,
        MicroOp::BranchPageCrossPenalty,
    ]
}

/// The micro-operations of the hardware interrupt through `vector`.
pub fn interrupt_ops(vector: u16) -> (v: Vec<MicroOp>)
    requires
        vector < 0xFFFF,
    ensures
        v@ == interrupt_program(vector),
{
    vec![
        MicroOp::ReadPcAndDiscardNoInc,
        MicroOp::ReadPcAndDiscardNoInc,
        MicroOp::StackPushPcHi,
        MicroOp::StackPushPcLo,
        MicroOp::StackPushStatus(StatusPushKind::Interrupt),
        MicroOp::ReadVectorLo(vector),
        MicroOp::ReadVectorHiSetPcAndI(vector + 1),
    ]
}

/// Whether this CPU has a program for `opcode`.
pub fn is_implemented(opcode: u8) -> (b: bool)
    ensures
        b == (opcode_program(opcode) is Some),
{
    match opcode {
        0xA9 | 0xA5 | 0xB5 | 0xAD | 0xBD | 0xB9 | 0xA1 | 0xB1 |
        0xA2 | 0xA6 | 0xB6 | 0xAE | 0xBE | 0xA0 | 0xA4 | 0xB4 |
        0xAC | 0xBC | 0x85 | 0x95 | 0x8D | 0x9D | 0x99 | 0x81 |
        0x91 | 0x86 | 0x96 | 0x8E | 0x84 | 0x94 | 0x8C | 0x29 |
        0x25 | 0x35 | 0x2D | 0x3D | 0x39 | 0x21 | 0x31 | 0x09 |
        0x05 | 0x15 | 0x0D | 0x1D | 0x19 | 0x01 | 0x11 | 0x49 |
        0x45 | 0x55 | 0x4D | 0x5D | 0x59 | 0x41 | 0x51 | 0x69 |
        0x65 | 0x75 | 0x6D | 0x7D | 0x79 | 0x61 | 0x71 | 0xE9 |
        0xE5 | 0xF5 | 0xED | 0xFD | 0xF9 | 0xE1 | 0xF1 | 0x24 |
        0x2C | 0xC9 | 0xC5 | 0xD5 | 0xCD | 0xDD | 0xD9 | 0xC1 |
        0xD1 | 0xE0 | 0xE4 | 0xEC | 0xC0 | 0xC4 | 0xCC | 0xE6 |
        0xF6 | 0xEE | 0xFE | 0xC6 | 0xD6 | 0xCE | 0xDE | 0x0A |
        0x06 | 0x16 | 0x0E | 0x1E | 0x4A | 0x46 | 0x56 | 0x4E |
        0x5E | 0x2A | 0x26 | 0x36 | 0x2E | 0x3E | 0x6A | 0x66 |
        0x76 | 0x6E | 0x7E | 0xE8 | 0xC8 | 0xCA | 0x88 | 0x90 |
        0xB0 | 0xF0 | 0xD0 | 0x30 | 0x10 | 0x50 | 0x70 | 0xAA |
        0xA8 | 0xBA | 0x8A | 0x9A | 0x98 | 0x48 | 0x08 | 0x68 |
        0x28 | 0x18 | 0x58 | 0xD8 | 0xB8 | 0x38 | 0x78 | 0xF8 |
        0xEA | 0x4C | 0x6C | 0x20 | 0x60 | 0x40 | 0x00 => true,
        _ => false,
    }
}

/// The micro-operations of `opcode`, which must be one this CPU implements.
pub fn decode(opcode: u8) -> (ops: Vec<MicroOp>)
    requires
        opcode_program(opcode) is Some,
    ensures
        opcode_program(opcode) == Some(ops@),
{
    match opcode {
        // loads
        0xA9 => load_ops(Reg::A, AddrMode::Imm),
        0xA5 => load_ops(Reg::A, AddrMode::Zp),
        0xB5 => load_ops(Reg::A, AddrMode::ZpX),
        0xAD => load_ops(Reg::A, AddrMode::Abs),
        0xBD => load_ops(Reg::A, AddrMode::AbsX),
        0xB9 => load_ops(Reg::A, AddrMode::AbsY),
        0xA1 => load_ops(Reg::A, AddrMode::IndX),
        0xB1 => load_ops(Reg::A, AddrMode::IndY),
        0xA2 => load_ops(Reg::X, AddrMode::Imm),
        0xA6 => load_ops(Reg::X, AddrMode::Zp),
        0xB6 => load_ops(Reg::X, AddrMode::ZpY),
        0xAE => load_ops(Reg::X, AddrMode::Abs),
        0xBE => load_ops(Reg::X, AddrMode::AbsY),
        0xA0 => load_ops(Reg::Y, AddrMode::Imm),
        0xA4 => load_ops(Reg::Y, AddrMode::Zp),
        0xB4 => load_ops(Reg::Y, AddrMode::ZpX),
        0xAC => load_ops(Reg::Y, AddrMode::Abs),
        0xBC => load_ops(Reg::Y, AddrMode::AbsX),
        // stores
        0x85 => store_ops(Reg::A, AddrMode::Zp),
        0x95 => store_ops(Reg::A, AddrMode::ZpX),
        0x8D => store_ops(Reg::A, AddrMode::Abs),
        0x9D => store_ops(Reg::A, AddrMode::AbsX),
        0x99 => store_ops(Reg::A, AddrMode::AbsY),
        0x81 => store_ops(Reg::A, AddrMode::IndX),
        0x91 => store_ops(Reg::A, AddrMode::IndY),
        0x86 => store_ops(Reg::X, AddrMode::Zp),
        0x96 => store_ops(Reg::X, AddrMode::ZpY),
        0x8E => store_ops(Reg::X, AddrMode::Abs),
        0x84 => store_ops(Reg::Y, AddrMode::Zp),
        0x94 => store_ops(Reg::Y, AddrMode::ZpX),
        0x8C => store_ops(Reg::Y, AddrMode::Abs),
        // accumulator operations
        0x29 => alu_ops(AluOp::And, AddrMode::Imm),
        0x25 => alu_ops(AluOp::And, AddrMode::Zp),
        0x35 => alu_ops(AluOp::And, AddrMode::ZpX),
        0x2D => alu_ops(AluOp::And, AddrMode::Abs),
        0x3D => alu_ops(AluOp::And, AddrMode::AbsX),
        0x39 => alu_ops(AluOp::And, AddrMode::AbsY),
        0x21 => alu_ops(AluOp::And, AddrMode::IndX),
        0x31 => alu_ops(AluOp::And, AddrMode::IndY),
        0x09 => alu_ops(AluOp::Ora, AddrMode::Imm),
        0x05 => alu_ops(AluOp::Ora, AddrMode::Zp),
        0x15 => alu_ops(AluOp::Ora, AddrMode::ZpX),
        0x0D => alu_ops(AluOp::Ora, AddrMode::Abs),
        0x1D => alu_ops(AluOp::Ora, AddrMode::AbsX),
        0x19 => alu_ops(AluOp::Ora, AddrMode::AbsY),
        0x01 => alu_ops(AluOp::Ora, AddrMode::IndX),
        0x11 => alu_ops(AluOp::Ora, AddrMode::IndY),
        0x49 => alu_ops(AluOp::Eor, AddrMode::Imm),
        0x45 => alu_ops(AluOp::Eor, AddrMode::Zp),
        0x55 => alu_ops(AluOp::Eor, AddrMode::ZpX),
        0x4D => alu_ops(AluOp::Eor, AddrMode::Abs),
        0x5D => alu_ops(AluOp::Eor, AddrMode::AbsX),
        0x59 => alu_ops(AluOp::Eor, AddrMode::AbsY),
        0x41 => alu_ops(AluOp::Eor, AddrMode::IndX),
        0x51 => alu_ops(AluOp::Eor, AddrMode::IndY),
        0x69 => alu_ops(AluOp::Adc, AddrMode::Imm),
        0x65 => alu_ops(AluOp::Adc, AddrMode::Zp),
        0x75 => alu_ops(AluOp::Adc, AddrMode::ZpX),
        0x6D => alu_ops(AluOp::Adc, AddrMode::Abs),
        0x7D => alu_ops(AluOp::Adc, AddrMode::AbsX),
        0x79 => alu_ops(AluOp::Adc, AddrMode::AbsY),
        0x61 => alu_ops(AluOp::Adc, AddrMode::IndX),
        0x71 => alu_ops(AluOp::Adc, AddrMode::IndY),
        0xE9 => alu_ops(AluOp::Sbc, AddrMode::Imm),
        0xE5 => alu_ops(AluOp::Sbc, AddrMode::Zp),
        0xF5 => alu_ops(AluOp::Sbc, AddrMode::ZpX),
        0xED => alu_ops(AluOp::Sbc, AddrMode::Abs),
        0xFD => alu_ops(AluOp::Sbc, AddrMode::AbsX),
        0xF9 => alu_ops(AluOp::Sbc, AddrMode::AbsY),
        0xE1 => alu_ops(AluOp::Sbc, AddrMode::IndX),
        0xF1 => alu_ops(AluOp::Sbc, AddrMode::IndY),
        0x24 => alu_ops(AluOp::Bit, AddrMode::Zp),
        0x2C => alu_ops(AluOp::Bit, AddrMode::Abs),
        // comparisons
        0xC9 => compare_ops(Reg::A, AddrMode::Imm),
        0xC5 => compare_ops(Reg::A, AddrMode::Zp),
        0xD5 => compare_ops(Reg::A, AddrMode::ZpX),
        0xCD => compare_ops(Reg::A, AddrMode::Abs),
        0xDD => compare_ops(Reg::A, AddrMode::AbsX),
        0xD9 => compare_ops(Reg::A, AddrMode::AbsY),
        0xC1 => compare_ops(Reg::A, AddrMode::IndX),
        0xD1 => compare_ops(Reg::A, AddrMode::IndY),
        0xE0 => compare_ops(Reg::X, AddrMode::Imm),
        0xE4 => compare_ops(Reg::X, AddrMode::Zp),
        0xEC => compare_ops(Reg::X, AddrMode::Abs),
        0xC0 => compare_ops(Reg::Y, AddrMode::Imm),
        0xC4 => compare_ops(Reg::Y, AddrMode::Zp),
        0xCC => compare_ops(Reg::Y, AddrMode::Abs),
        // read-modify-write
        0xE6 => inc_ops(AddrMode::Zp),
        0xF6 => inc_ops(AddrMode::ZpX),
        0xEE => inc_ops(AddrMode::Abs),
        0xFE => inc_ops(AddrMode::AbsX),
        0xC6 => dec_ops(AddrMode::Zp),
        0xD6 => dec_ops(AddrMode::ZpX),
        0xCE => dec_ops(AddrMode::Abs),
        0xDE => dec_ops(AddrMode::AbsX),
        0x0A => vec![MicroOp::ShiftRegSetCZN(Reg::A, ShiftOp::Asl)],
        0x06 => shift_ops(ShiftOp::Asl, AddrMode::Zp),
        0x16 => shift_ops(ShiftOp::Asl, AddrMode::ZpX),
        0x0E => shift_ops(ShiftOp::Asl, AddrMode::Abs),
        0x1E => shift_ops(ShiftOp::Asl, AddrMode::AbsX),
        0x4A => vec![MicroOp::ShiftRegSetCZN(Reg::A, ShiftOp::Lsr)],
        0x46 => shift_ops(ShiftOp::Lsr, AddrMode::Zp),
        0x56 => shift_ops(ShiftOp::Lsr, AddrMode::ZpX),
        0x4E => shift_ops(ShiftOp::Lsr, AddrMode::Abs),
        0x5E => shift_ops(ShiftOp::Lsr, AddrMode::AbsX),
        0x2A => vec![MicroOp::ShiftRegSetCZN(Reg::A, ShiftOp::Rol)],
        0x26 => shift_ops(ShiftOp::Rol, AddrMode::Zp),
        0x36 => shift_ops(ShiftOp::Rol, AddrMode::ZpX),
        0x2E => shift_ops(ShiftOp::Rol, AddrMode::Abs),
        0x3E => shift_ops(ShiftOp::Rol, AddrMode::AbsX),
        0x6A => vec![MicroOp::ShiftRegSetCZN(Reg::A, ShiftOp::Ror)],
        0x66 => shift_ops(ShiftOp::Ror, AddrMode::Zp),
        0x76 => shift_ops(ShiftOp::Ror, AddrMode::ZpX),
        0x6E => shift_ops(ShiftOp::Ror, AddrMode::Abs),
        0x7E => shift_ops(ShiftOp::Ror, AddrMode::AbsX),
        // register increments and decrements
        0xE8 => vec![MicroOp::IncRegSetNZ(Reg::X)],
        0xC8 => vec![MicroOp::IncRegSetNZ(Reg::Y)],
        0xCA => vec![MicroOp::DecRegSetNZ(Reg::X)],
        0x88 => vec![MicroOp::DecRegSetNZ(Reg::Y)],
        // branches
        0x90 => branch_ops(BranchCond::CarryClear),
        0xB0 => branch_ops(BranchCond::CarrySet),
        0xF0 => branch_ops(BranchCond::ZeroSet),
        0xD0 => branch_ops(BranchCond::ZeroClear),
        0x30 => branch_ops(BranchCond::NegativeSet),
        0x10 => branch_ops(BranchCond::NegativeClear),
        0x50 => branch_ops(BranchCond::OverflowClear),
        0x70 => branch_ops(BranchCond::OverflowSet),
        // transfers
        0xAA => vec![MicroOp::CopyRegToRegSetNZ(Reg::A, Reg::X)],
        0xA8 => vec![MicroOp::CopyRegToRegSetNZ(Reg::A, Reg::Y)],
        0xBA => vec![MicroOp::CopyRegToRegSetNZ(Reg::SP, Reg::X)],
        0x8A => vec![MicroOp::CopyRegToRegSetNZ(Reg::X, Reg::A)],
        0x9A => vec![MicroOp::CopyRegToReg(Reg::X, Reg::SP)],
        0x98 => vec![MicroOp::CopyRegToRegSetNZ(Reg::Y, Reg::A)],
        // stack
        0x48 => vec![MicroOp::ExtraCycle, MicroOp::StackPushReg(Reg::A)],
        0x08 => vec![MicroOp::ExtraCycle, MicroOp::StackPushStatus(StatusPushKind::PhpOrBrk)],
        0x68 => vec![MicroOp::ExtraCycle, MicroOp::StackPullRegSetNZ(Reg::A), MicroOp::ExtraCycle],
        0x28 => vec![MicroOp::ExtraCycle, MicroOp::StackPullStatus, MicroOp::ExtraCycle],
        // flags
        0x18 => vec![MicroOp::ClearStatusBit(0x01)],
        0x58 => vec![MicroOp::ClearStatusBit(0x04)],
        0xD8 => vec![MicroOp::ClearStatusBit(0x08)],
        0xB8 => vec![MicroOp::ClearStatusBit(0x40)],
        0x38 => vec![MicroOp::SetStatusBit(0x01)],
        0x78 => vec![MicroOp::SetStatusBit(0x04)],
        0xF8 => vec![MicroOp::SetStatusBit(0x08)],
        // control flow
        0xEA => vec![MicroOp::ExtraCycle],
        0x4C => vec![MicroOp::ReadPcToAddrLo, MicroOp::ReadPcToAddrHiSetPc],
        0x6C => vec![
            MicroOp::ReadPcToAddrLo,
            MicroOp::ReadPcToAddrHi,
            MicroOp::ReadEffAddrToAddrLo,
            MicroOp::ReadJmpIndirectAddrHiAndJump,
        ],
        0x20 => vec![
            MicroOp::ReadPcToAddrLo,
            MicroOp::ExtraCycle,
            MicroOp::StackPushPcHi,
            MicroOp::StackPushPcLo,
            MicroOp::ReadPcToAddrHiSetPc,
        ],
        0x60 => vec![
            MicroOp::ExtraCycle,
            MicroOp::StackIncSp,
            MicroOp::StackReadPcLoThenIncSp,
            MicroOp::StackReadPcHi,
            MicroOp::IncPc,
        ],
        0x40 => vec![
            MicroOp::ExtraCycle,
            MicroOp::StackIncSp,
            MicroOp::StackReadStatusThenIncSp,
            MicroOp::StackReadPcLoThenIncSp,
            MicroOp::StackReadPcHi,
        ],
        0x00 => vec![
            MicroOp::ReadPcAndDiscard,
            MicroOp::StackPushPcHi,
            MicroOp::StackPushPcLo,
            MicroOp::StackPushStatus(StatusPushKind::PhpOrBrk),
            MicroOp::ReadVectorLo(IRQ_VECTOR),
            MicroOp::ReadVectorHiSetPcAndI(IRQ_VECTOR + 1),
        ],
        _ => {
            proof {
                assert(opcode_program(opcode) is None);
            }
            Vec::new()
        },
    }
}

} // verus!
