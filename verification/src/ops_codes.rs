//! The instruction set: which opcode byte encodes which operation under
//! which addressing mode.

use vstd::prelude::*;
use crate::addressing_modes::AddrMode;
use crate::error::CpuError;

verus! {

/// The operation an instruction performs; the execution engine selects its
/// handler by this tag.
#[derive(Clone, Copy, Debug, PartialEq, Eq, Structural)]
pub enum Mnemonic {
    /// Add memory and carry to the accumulator.
    Adc,
    /// Bitwise AND of memory into the accumulator.
    And,
    /// Shift left by one bit.
    Asl,
    /// Branch if carry is clear.
    Bcc,
    /// Branch if carry is set.
    Bcs,
    /// Branch if zero is set.
    Beq,
    /// Test memory bits against the accumulator.
    Bit,
    /// Branch if negative is set.
    Bmi,
    /// Branch if zero is clear.
    Bne,
    /// Branch if negative is clear.
    Bpl,
    /// Force break: halts the processor.
    Brk,
    /// Branch if overflow is clear.
    Bvc,
    /// Branch if overflow is set.
    Bvs,
    /// Clear carry.
    Clc,
    /// Clear decimal.
    Cld,
    /// Clear interrupt-disable.
    Cli,
    /// Clear overflow.
    Clv,
    /// Compare memory with the accumulator.
    Cmp,
    /// Compare memory with X.
    Cpx,
    /// Compare memory with Y.
    Cpy,
    /// Decrement memory.
    Dec,
    /// Decrement X.
    Dex,
    /// Decrement Y.
    Dey,
    /// Bitwise exclusive OR of memory into the accumulator.
    Eor,
    /// Increment memory.
    Inc,
    /// Increment X.
    Inx,
    /// Increment Y.
    Iny,
    /// Jump.
    Jmp,
    /// Jump to subroutine.
    Jsr,
    /// Load the accumulator.
    Lda,
    /// Load X.
    Ldx,
    /// Load Y.
    Ldy,
    /// Shift right by one bit.
    Lsr,
    /// No operation.
    Nop,
    /// Bitwise OR of memory into the accumulator.
    Ora,
    /// Push the accumulator.
    Pha,
    /// Push the status byte.
    Php,
    /// Pull the accumulator.
    Pla,
    /// Pull the status byte.
    Plp,
    /// Rotate left through carry.
    Rol,
    /// Rotate right through carry.
    Ror,
    /// Return from interrupt.
    Rti,
    /// Return from subroutine.
    Rts,
    /// Subtract memory and borrow from the accumulator.
    Sbc,
    /// Set carry.
    Sec,
    /// Set decimal.
    Sed,
    /// Set interrupt-disable.
    Sei,
    /// Store the accumulator.
    Sta,
    /// Store X.
    Stx,
    /// Store Y.
    Sty,
    /// Transfer the accumulator to X.
    Tax,
    /// Transfer the accumulator to Y.
    Tay,
    /// Transfer the stack pointer to X.
    Tsx,
    /// Transfer X to the accumulator.
    Txa,
    /// Transfer X to the stack pointer.
    Txs,
    /// Transfer Y to the accumulator.
    Tya,
}

/// One row of the instruction set: what a given opcode byte means.
#[derive(Clone, Copy, Debug, PartialEq, Eq, Structural)]
pub struct OpCode {
    pub addressing_mode: AddrMode,
    pub mnemonic: Mnemonic,
    pub opc: u8,
    pub bytes: u8,
    pub cycles: u8,
}

/// `opcode` under `wanted`, nothing under any other mode.
pub open spec fn only(mode: AddrMode, wanted: AddrMode, opcode: u8) -> Option<u8> {
    if mode == wanted {
        Some(opcode)
    } else {
        None
    }
}

/// The instruction set as an assembler sees it: the opcode byte that encodes
/// `mnemonic` under `mode`, where the processor has such an instruction.
pub open spec fn opcode_for(mnemonic: Mnemonic, mode: AddrMode) -> Option<u8> {
    match mnemonic {
        Mnemonic::Adc => match mode {
            AddrMode::Immediate => Some(0x69u8),
            AddrMode::ZeroPage => Some(0x65u8),
            AddrMode::ZeroPageX => Some(0x75u8),
            AddrMode::Absolute => Some(0x6Du8),
            AddrMode::AbsoluteX => Some(0x7Du8),
            AddrMode::AbsoluteY => Some(0x79u8),
            AddrMode::IndirectX => Some(0x61u8),
            AddrMode::IndirectY => Some(0x71u8),
            _ => None,
        },
        Mnemonic::And => match mode {
            AddrMode::Immediate => Some(0x29u8),
            AddrMode::ZeroPage => Some(0x25u8),
            AddrMode::ZeroPageX => Some(0x35u8),
            AddrMode::Absolute => Some(0x2Du8),
            AddrMode::AbsoluteX => Some(0x3Du8),
            AddrMode::AbsoluteY => Some(0x39u8),
            AddrMode::IndirectX => Some(0x21u8),
            AddrMode::IndirectY => Some(0x31u8),
            _ => None,
        },
        Mnemonic::Asl => match mode {
            AddrMode::Accumulator => Some(0x0Au8),
            AddrMode::ZeroPage => Some(0x06u8),
            AddrMode::ZeroPageX => Some(0x16u8),
            AddrMode::Absolute => Some(0x0Eu8),
            AddrMode::AbsoluteX => Some(0x1Eu8),
            _ => None,
        },
        Mnemonic::Bcc => only(mode, AddrMode::Relative, 0x90),
        Mnemonic::Bcs => only(mode, AddrMode::Relative, 0xB0),
        Mnemonic::Beq => only(mode, AddrMode::Relative, 0xF0),
        Mnemonic::Bit => match mode {
            AddrMode::ZeroPage => Some(0x24u8),
            AddrMode::Absolute => Some(0x2Cu8),
            _ => None,
        },
        Mnemonic::Bmi => only(mode, AddrMode::Relative, 0x30),
        Mnemonic::Bne => only(mode, AddrMode::Relative, 0xD0),
        Mnemonic::Bpl => only(mode, AddrMode::Relative, 0x10),
        Mnemonic::Brk => only(mode, AddrMode::Implied, 0x00),
        Mnemonic::Bvc => only(mode, AddrMode::Relative, 0x50),
        Mnemonic::Bvs => only(mode, AddrMode::Relative, 0x70),
        Mnemonic::Clc => only(mode, AddrMode::Implied, 0x18),
        Mnemonic::Cld => only(mode, AddrMode::Implied, 0xD8),
        Mnemonic::Cli => only(mode, AddrMode::Implied, 0x58),
        Mnemonic::Clv => only(mode, AddrMode::Implied, 0xB8),
        Mnemonic::Cmp => match mode {
            AddrMode::Immediate => Some(0xC9u8),
            AddrMode::ZeroPage => Some(0xC5u8),
            AddrMode::ZeroPageX => Some(0xD5u8),
            AddrMode::Absolute => Some(0xCDu8),
            AddrMode::AbsoluteX => Some(0xDDu8),
            AddrMode::AbsoluteY => Some(0xD9u8),
            AddrMode::IndirectX => Some(0xC1u8),
            AddrMode::IndirectY => Some(0xD1u8),
            _ => None,
        },
        Mnemonic::Cpx => match mode {
            AddrMode::Immediate => Some(0xE0u8),
            AddrMode::ZeroPage => Some(0xE4u8),
            AddrMode::Absolute => Some(0xECu8),
            _ => None,
        },
        Mnemonic::Cpy => match mode {
            AddrMode::Immediate => Some(0xC0u8),
            AddrMode::ZeroPage => Some(0xC4u8),
            AddrMode::Absolute => Some(0xCCu8),
            _ => None,
        },
        Mnemonic::Dec => match mode {
            AddrMode::ZeroPage => Some(0xC6u8),
            AddrMode::ZeroPageX => Some(0xD6u8),
            AddrMode::Absolute => Some(0xCEu8),
            AddrMode::AbsoluteX => Some(0xDEu8),
            _ => None,
        },
        Mnemonic::Dex => only(mode, AddrMode::Implied, 0xCA),
        Mnemonic::Dey => only(mode, AddrMode::Implied, 0x88),
        Mnemonic::Eor => match mode {
            AddrMode::Immediate => Some(0x49u8),
            AddrMode::ZeroPage => Some(0x45u8),
            AddrMode::ZeroPageX => Some(0x55u8),
            AddrMode::Absolute => Some(0x4Du8),
            AddrMode::AbsoluteX => Some(0x5Du8),
            AddrMode::AbsoluteY => Some(0x59u8),
            AddrMode::IndirectX => Some(0x41u8),
            AddrMode::IndirectY => Some(0x51u8),
            _ => None,
        },
        Mnemonic::Inc => match mode {
            AddrMode::ZeroPage => Some(0xE6u8),
            AddrMode::ZeroPageX => Some(0xF6u8),
            AddrMode::Absolute => Some(0xEEu8),
            AddrMode::AbsoluteX => Some(0xFEu8),
            _ => None,
        },
        Mnemonic::Inx => only(mode, AddrMode::Implied, 0xE8),
        Mnemonic::Iny => only(mode, AddrMode::Implied, 0xC8),
        Mnemonic::Jmp => match mode {
            AddrMode::Absolute => Some(0x4Cu8),
            AddrMode::Indirect => Some(0x6Cu8),
            _ => None,
        },
        Mnemonic::Jsr => only(mode, AddrMode::Absolute, 0x20),
        Mnemonic::Lda => match mode {
            AddrMode::Immediate => Some(0xA9u8),
            AddrMode::ZeroPage => Some(0xA5u8),
            AddrMode::ZeroPageX => Some(0xB5u8),
            AddrMode::Absolute => Some(0xADu8),
            AddrMode::AbsoluteX => Some(0xBDu8),
            AddrMode::AbsoluteY => Some(0xB9u8),
            AddrMode::IndirectX => Some(0xA1u8),
            AddrMode::IndirectY => Some(0xB1u8),
            _ => None,
        },
        Mnemonic::Ldx => match mode {
            AddrMode::Immediate => Some(0xA2u8),
            AddrMode::ZeroPage => Some(0xA6u8),
            AddrMode::ZeroPageY => Some(0xB6u8),
            AddrMode::Absolute => Some(0xAEu8),
            AddrMode::AbsoluteY => Some(0xBEu8),
            _ => None,
        },
        Mnemonic::Ldy => match mode {
            AddrMode::Immediate => Some(0xA0u8),
            AddrMode::ZeroPage => Some(0xA4u8),
            AddrMode::ZeroPageX => Some(0xB4u8),
            AddrMode::Absolute => Some(0xACu8),
            AddrMode::AbsoluteX => Some(0xBCu8),
            _ => None,
        },
        Mnemonic::Lsr => match mode {
            AddrMode::Accumulator => Some(0x4Au8),
            AddrMode::ZeroPage => Some(0x46u8),
            AddrMode::ZeroPageX => Some(0x56u8),
            AddrMode::Absolute => Some(0x4Eu8),
            AddrMode::AbsoluteX => Some(0x5Eu8),
            _ => None,
        },
        Mnemonic::Nop => only(mode, AddrMode::Implied, 0xEA),
        Mnemonic::Ora => match mode {
            AddrMode::Immediate => Some(0x09u8),
            AddrMode::ZeroPage => Some(0x05u8),
            AddrMode::ZeroPageX => Some(0x15u8),
            AddrMode::Absolute => Some(0x0Du8),
            AddrMode::AbsoluteX => Some(0x1Du8),
            AddrMode::AbsoluteY => Some(0x19u8),
            AddrMode::IndirectX => Some(0x01u8),
            AddrMode::IndirectY => Some(0x11u8),
            _ => None,
        },
        Mnemonic::Pha => only(mode, AddrMode::Implied, 0x48),
        Mnemonic::Php => only(mode, AddrMode::Implied, 0x08),
        Mnemonic::Pla => only(mode, AddrMode::Implied, 0x68),
        Mnemonic::Plp => only(mode, AddrMode::Implied, 0x28),
        Mnemonic::Rol => match mode {
            AddrMode::Accumulator => Some(0x2Au8),
            AddrMode::ZeroPage => Some(0x26u8),
            AddrMode::ZeroPageX => Some(0x36u8),
            AddrMode::Absolute => Some(0x2Eu8),
            AddrMode::AbsoluteX => Some(0x3Eu8),
            _ => None,
        },
        Mnemonic::Ror => match mode {
            AddrMode::Accumulator => Some(0x6Au8),
            AddrMode::ZeroPage => Some(0x66u8),
            AddrMode::ZeroPageX => Some(0x76u8),
            AddrMode::Absolute => Some(0x6Eu8),
            AddrMode::AbsoluteX => Some(0x7Eu8),
            _ => None,
        },
        Mnemonic::Rti => only(mode, AddrMode::Implied, 0x40),
        Mnemonic::Rts => only(mode, AddrMode::Implied, 0x60),
        Mnemonic::Sbc => match mode {
            AddrMode::Immediate => Some(0xE9u8),
            AddrMode::ZeroPage => Some(0xE5u8),
            AddrMode::ZeroPageX => Some(0xF5u8),
            AddrMode::Absolute => Some(0xEDu8),
            AddrMode::AbsoluteX => Some(0xFDu8),
            AddrMode::AbsoluteY => Some(0xF9u8),
            AddrMode::IndirectX => Some(0xE1u8),
            AddrMode::IndirectY => Some(0xF1u8),
            _ => None,
        },
        Mnemonic::Sec => only(mode, AddrMode::Implied, 0x38),
        Mnemonic::Sed => only(mode, AddrMode::Implied, 0xF8),
        Mnemonic::Sei => only(mode, AddrMode::Implied, 0x78),
        Mnemonic::Sta => match mode {
            AddrMode::ZeroPage => Some(0x85u8),
            AddrMode::ZeroPageX => Some(0x95u8),
            AddrMode::Absolute => Some(0x8Du8),
            AddrMode::AbsoluteX => Some(0x9Du8),
            AddrMode::AbsoluteY => Some(0x99u8),
            AddrMode::IndirectX => Some(0x81u8),
            AddrMode::IndirectY => Some(0x91u8),
            _ => None,
        },
        Mnemonic::Stx => match mode {
            AddrMode::ZeroPage => Some(0x86u8),
            AddrMode::ZeroPageY => Some(0x96u8),
            AddrMode::Absolute => Some(0x8Eu8),
            _ => None,
        },
        Mnemonic::Sty => match mode {
            AddrMode::ZeroPage => Some(0x84u8),
            AddrMode::ZeroPageX => Some(0x94u8),
            AddrMode::Absolute => Some(0x8Cu8),
            _ => None,
        },
        Mnemonic::Tax => only(mode, AddrMode::Implied, 0xAA),
        Mnemonic::Tay => only(mode, AddrMode::Implied, 0xA8),
        Mnemonic::Tsx => only(mode, AddrMode::Implied, 0xBA),
        Mnemonic::Txa => only(mode, AddrMode::Implied, 0x8A),
        Mnemonic::Txs => only(mode, AddrMode::Implied, 0x9A),
        Mnemonic::Tya => only(mode, AddrMode::Implied, 0x98),
    }
}

/// Base cycle cost of `mnemonic` under `mode`, before any page-crossing or
/// branch-taken penalty.
pub open spec fn base_cycles(mnemonic: Mnemonic, mode: AddrMode) -> int {
    match mnemonic {
        Mnemonic::Brk => 7,
        Mnemonic::Jsr | Mnemonic::Rts | Mnemonic::Rti => 6,
        Mnemonic::Jmp => if mode == AddrMode::Indirect { 5 } else { 3 },
        Mnemonic::Pha | Mnemonic::Php => 3,
        Mnemonic::Pla | Mnemonic::Plp => 4,
        // read, modify, write back
        Mnemonic::Asl | Mnemonic::Lsr | Mnemonic::Rol | Mnemonic::Ror | Mnemonic::Inc
        | Mnemonic::Dec => match mode {
            AddrMode::Accumulator => 2,
            AddrMode::ZeroPage => 5,
            AddrMode::ZeroPageX | AddrMode::Absolute => 6,
            _ => 7,
        },
        // write only
        Mnemonic::Sta | Mnemonic::Stx | Mnemonic::Sty => match mode {
            AddrMode::ZeroPage => 3,
            AddrMode::ZeroPageX | AddrMode::ZeroPageY | AddrMode::Absolute => 4,
            AddrMode::AbsoluteX | AddrMode::AbsoluteY => 5,
            _ => 6,
        },
        // read only
        Mnemonic::Lda | Mnemonic::Ldx | Mnemonic::Ldy | Mnemonic::Adc | Mnemonic::Sbc
        | Mnemonic::And | Mnemonic::Ora | Mnemonic::Eor | Mnemonic::Cmp | Mnemonic::Cpx
        | Mnemonic::Cpy | Mnemonic::Bit => match mode {
            AddrMode::Immediate => 2,
            AddrMode::ZeroPage => 3,
            AddrMode::IndirectY => 5,
            AddrMode::IndirectX => 6,
            _ => 4,
        },
        // branches and the one-byte register and flag instructions
        _ => 2,
    }
}

/// The descriptor of the instruction `mnemonic` under `mode`.
pub open spec fn entry(mnemonic: Mnemonic, mode: AddrMode) -> OpCode
    recommends
        opcode_for(mnemonic, mode) is Some,
{
    OpCode {
        addressing_mode: mode,
        mnemonic,
        opc: opcode_for(mnemonic, mode).unwrap(),
        bytes: (1 + mode.operand_len()) as u8,
        cycles: base_cycles(mnemonic, mode) as u8,
    }
}

/// Whether `opcode` encodes an instruction.
pub open spec fn is_opcode(opcode: u8) -> bool {
    exists|mnemonic: Mnemonic, mode: AddrMode| opcode_for(mnemonic, mode) == Some(opcode)
}

/// The descriptor that `opcode` stands for, if it encodes an instruction.
#[verifier::opaque]
pub open spec fn decode(opcode: u8) -> Option<OpCode> {
    if is_opcode(opcode) {
        let (mnemonic, mode) = choose|mnemonic: Mnemonic, mode: AddrMode|
            opcode_for(mnemonic, mode) == Some(opcode);
        Some(entry(mnemonic, mode))
    } else {
        None
    }
}

/// What `lookup` answers for `opcode`.
pub open spec fn decode_result(opcode: u8) -> Result<OpCode, CpuError> {
    match decode(opcode) {
        Some(op) => Ok(op),
        None => Err(CpuError::Decode(opcode)),
    }
}

impl OpCode {
    /// A descriptor with the given fields.
    pub fn new(mode: AddrMode, mnemonic: Mnemonic, opc: u8, bytes: u8, cycles: u8) -> (op: OpCode)
        returns
            (OpCode { addressing_mode: mode, mnemonic, opc, bytes, cycles }),
    {
        OpCode { addressing_mode: mode, mnemonic, opc, bytes, cycles }
    }

    /// Whether this descriptor is a row of the instruction set.
    pub open spec fn is_entry(self) -> bool {
        &&& opcode_for(self.mnemonic, self.addressing_mode) == Some(self.opc)
        &&& self == entry(self.mnemonic, self.addressing_mode)
    }
}

/// No two instructions share an opcode byte.
pub proof fn lemma_opcode_unique(m1: Mnemonic, mode1: AddrMode, m2: Mnemonic, mode2: AddrMode)
    requires
        opcode_for(m1, mode1) is Some,
        opcode_for(m1, mode1) == opcode_for(m2, mode2),
    ensures
        m1 == m2,
        mode1 == mode2,
{
}

/// Decoding undoes encoding: the byte that encodes an instruction decodes to
/// that instruction's descriptor.
pub proof fn lemma_decode_entry(mnemonic: Mnemonic, mode: AddrMode)
    requires
        opcode_for(mnemonic, mode) is Some,
    ensures
        decode(opcode_for(mnemonic, mode).unwrap()) == Some(entry(mnemonic, mode)),
{
    reveal(decode);
    let opcode = opcode_for(mnemonic, mode).unwrap();
    let (m, md) = choose|m: Mnemonic, md: AddrMode| opcode_for(m, md) == Some(opcode);
    lemma_opcode_unique(mnemonic, mode, m, md);
}

/// What decodes is a row of the instruction set, under its own opcode and
/// one to three bytes long.
pub proof fn lemma_decode_is_entry(opcode: u8)
    ensures
        decode(opcode) matches Some(op) ==> op.is_entry() && op.opc == opcode && 1 <= op.bytes <= 3,
{
    reveal(decode);
}

/// A byte that encodes no instruction decodes to nothing.
pub proof fn lemma_decode_undefined(opcode: u8)
    requires
        !is_opcode(opcode),
    ensures
        decode(opcode) is None,
{
    reveal(decode);
}

/// Looks up the instruction that `opcode` encodes.
pub fn lookup(opcode: u8) -> (r: Result<OpCode, CpuError>)
    ensures
        r == decode_result(opcode),
{
    let r = match opcode {
        0x00 => Ok(OpCode::new(AddrMode::Implied, Mnemonic::Brk, 0x00, 1, 7)),
        0x01 => Ok(OpCode::new(AddrMode::IndirectX, Mnemonic::Ora, 0x01, 2, 6)),
        0x05 => Ok(OpCode::new(AddrMode::ZeroPage, Mnemonic::Ora, 0x05, 2, 3)),
        0x06 => Ok(OpCode::new(AddrMode::ZeroPage, Mnemonic::Asl, 0x06, 2, 5)),
        0x08 => Ok(OpCode::new(AddrMode::Implied, Mnemonic::Php, 0x08, 1, 3)),
        0x09 => Ok(OpCode::new(AddrMode::Immediate, Mnemonic::Ora, 0x09, 2, 2)),
        0x0A => Ok(OpCode::new(AddrMode::Accumulator, Mnemonic::Asl, 0x0A, 1, 2)),
        0x0D => Ok(OpCode::new(AddrMode::Absolute, Mnemonic::Ora, 0x0D, 3, 4)),
        0x0E => Ok(OpCode::new(AddrMode::Absolute, Mnemonic::Asl, 0x0E, 3, 6)),
        0x10 => Ok(OpCode::new(AddrMode::Relative, Mnemonic::Bpl, 0x10, 2, 2)),
        0x11 => Ok(OpCode::new(AddrMode::IndirectY, Mnemonic::Ora, 0x11, 2, 5)),
        0x15 => Ok(OpCode::new(AddrMode::ZeroPageX, Mnemonic::Ora, 0x15, 2, 4)),
        0x16 => Ok(OpCode::new(AddrMode::ZeroPageX, Mnemonic::Asl, 0x16, 2, 6)),
        0x18 => Ok(OpCode::new(AddrMode::Implied, Mnemonic::Clc, 0x18, 1, 2)),
        0x19 => Ok(OpCode::new(AddrMode::AbsoluteY, Mnemonic::Ora, 0x19, 3, 4)),
        0x1D => Ok(OpCode::new(AddrMode::AbsoluteX, Mnemonic::Ora, 0x1D, 3, 4)),
        0x1E => Ok(OpCode::new(AddrMode::AbsoluteX, Mnemonic::Asl, 0x1E, 3, 7)),
        0x20 => Ok(OpCode::new(AddrMode::Absolute, Mnemonic::Jsr, 0x20, 3, 6)),
        0x21 => Ok(OpCode::new(AddrMode::IndirectX, Mnemonic::And, 0x21, 2, 6)),
        0x24 => Ok(OpCode::new(AddrMode::ZeroPage, Mnemonic::Bit, 0x24, 2, 3)),
        0x25 => Ok(OpCode::new(AddrMode::ZeroPage, Mnemonic::And, 0x25, 2, 3)),
        0x26 => Ok(OpCode::new(AddrMode::ZeroPage, Mnemonic::Rol, 0x26, 2, 5)),
        0x28 => Ok(OpCode::new(AddrMode::Implied, Mnemonic::Plp, 0x28, 1, 4)),
        0x29 => Ok(OpCode::new(AddrMode::Immediate, Mnemonic::And, 0x29, 2, 2)),
        0x2A => Ok(OpCode::new(AddrMode::Accumulator, Mnemonic::Rol, 0x2A, 1, 2)),
        0x2C => Ok(OpCode::new(AddrMode::Absolute, Mnemonic::Bit, 0x2C, 3, 4)),
        0x2D => Ok(OpCode::new(AddrMode::Absolute, Mnemonic::And, 0x2D, 3, 4)),
        0x2E => Ok(OpCode::new(AddrMode::Absolute, Mnemonic::Rol, 0x2E, 3, 6)),
        0x30 => Ok(OpCode::new(AddrMode::Relative, Mnemonic::Bmi, 0x30, 2, 2)),
        0x31 => Ok(OpCode::new(AddrMode::IndirectY, Mnemonic::And, 0x31, 2, 5)),
        0x35 => Ok(OpCode::new(AddrMode::ZeroPageX, Mnemonic::And, 0x35, 2, 4)),
        0x36 => Ok(OpCode::new(AddrMode::ZeroPageX, Mnemonic::Rol, 0x36, 2, 6)),
        0x38 => Ok(OpCode::new(AddrMode::Implied, Mnemonic::Sec, 0x38, 1, 2)),
        0x39 => Ok(OpCode::new(AddrMode::AbsoluteY, Mnemonic::And, 0x39, 3, 4)),
        0x3D => Ok(OpCode::new(AddrMode::AbsoluteX, Mnemonic::And, 0x3D, 3, 4)),
        0x3E => Ok(OpCode::new(AddrMode::AbsoluteX, Mnemonic::Rol, 0x3E, 3, 7)),
        0x40 => Ok(OpCode::new(AddrMode::Implied, Mnemonic::Rti, 0x40, 1, 6)),
        0x41 => Ok(OpCode::new(AddrMode::IndirectX, Mnemonic::Eor, 0x41, 2, 6)),
        0x45 => Ok(OpCode::new(AddrMode::ZeroPage, Mnemonic::Eor, 0x45, 2, 3)),
        0x46 => Ok(OpCode::new(AddrMode::ZeroPage, Mnemonic::Lsr, 0x46, 2, 5)),
        0x48 => Ok(OpCode::new(AddrMode::Implied, Mnemonic::Pha, 0x48, 1, 3)),
        0x49 => Ok(OpCode::new(AddrMode::Immediate, Mnemonic::Eor, 0x49, 2, 2)),
        0x4A => Ok(OpCode::new(AddrMode::Accumulator, Mnemonic::Lsr, 0x4A, 1, 2)),
        0x4C => Ok(OpCode::new(AddrMode::Absolute, Mnemonic::Jmp, 0x4C, 3, 3)),
        0x4D => Ok(OpCode::new(AddrMode::Absolute, Mnemonic::Eor, 0x4D, 3, 4)),
        0x4E => Ok(OpCode::new(AddrMode::Absolute, Mnemonic::Lsr, 0x4E, 3, 6)),
        0x50 => Ok(OpCode::new(AddrMode::Relative, Mnemonic::Bvc, 0x50, 2, 2)),
        0x51 => Ok(OpCode::new(AddrMode::IndirectY, Mnemonic::Eor, 0x51, 2, 5)),
        0x55 => Ok(OpCode::new(AddrMode::ZeroPageX, Mnemonic::Eor, 0x55, 2, 4)),
        0x56 => Ok(OpCode::new(AddrMode::ZeroPageX, Mnemonic::Lsr, 0x56, 2, 6)),
        0x58 => Ok(OpCode::new(AddrMode::Implied, Mnemonic::Cli, 0x58, 1, 2)),
        0x59 => Ok(OpCode::new(AddrMode::AbsoluteY, Mnemonic::Eor, 0x59, 3, 4)),
        0x5D => Ok(OpCode::new(AddrMode::AbsoluteX, Mnemonic::Eor, 0x5D, 3, 4)),
        0x5E => Ok(OpCode::new(AddrMode::AbsoluteX, Mnemonic::Lsr, 0x5E, 3, 7)),
        0x60 => Ok(OpCode::new(AddrMode::Implied, Mnemonic::Rts, 0x60, 1, 6)),
        0x61 => Ok(OpCode::new(AddrMode::IndirectX, Mnemonic::Adc, 0x61, 2, 6)),
        0x65 => Ok(OpCode::new(AddrMode::ZeroPage, Mnemonic::Adc, 0x65, 2, 3)),
        0x66 => Ok(OpCode::new(AddrMode::ZeroPage, Mnemonic::Ror, 0x66, 2, 5)),
        0x68 => Ok(OpCode::new(AddrMode::Implied, Mnemonic::Pla, 0x68, 1, 4)),
        0x69 => Ok(OpCode::new(AddrMode::Immediate, Mnemonic::Adc, 0x69, 2, 2)),
        0x6A => Ok(OpCode::new(AddrMode::Accumulator, Mnemonic::Ror, 0x6A, 1, 2)),
        0x6C => Ok(OpCode::new(AddrMode::Indirect, Mnemonic::Jmp, 0x6C, 3, 5)),
        0x6D => Ok(OpCode::new(AddrMode::Absolute, Mnemonic::Adc, 0x6D, 3, 4)),
        0x6E => Ok(OpCode::new(AddrMode::Absolute, Mnemonic::Ror, 0x6E, 3, 6)),
        0x70 => Ok(OpCode::new(AddrMode::Relative, Mnemonic::Bvs, 0x70, 2, 2)),
        0x71 => Ok(OpCode::new(AddrMode::IndirectY, Mnemonic::Adc, 0x71, 2, 5)),
        0x75 => Ok(OpCode::new(AddrMode::ZeroPageX, Mnemonic::Adc, 0x75, 2, 4)),
        0x76 => Ok(OpCode::new(AddrMode::ZeroPageX, Mnemonic::Ror, 0x76, 2, 6)),
        0x78 => Ok(OpCode::new(AddrMode::Implied, Mnemonic::Sei, 0x78, 1, 2)),
        0x79 => Ok(OpCode::new(AddrMode::AbsoluteY, Mnemonic::Adc, 0x79, 3, 4)),
        0x7D => Ok(OpCode::new(AddrMode::AbsoluteX, Mnemonic::Adc, 0x7D, 3, 4)),
        0x7E => Ok(OpCode::new(AddrMode::AbsoluteX, Mnemonic::Ror, 0x7E, 3, 7)),
        0x81 => Ok(OpCode::new(AddrMode::IndirectX, Mnemonic::Sta, 0x81, 2, 6)),
        0x84 => Ok(OpCode::new(AddrMode::ZeroPage, Mnemonic::Sty, 0x84, 2, 3)),
        0x85 => Ok(OpCode::new(AddrMode::ZeroPage, Mnemonic::Sta, 0x85, 2, 3)),
        0x86 => Ok(OpCode::new(AddrMode::ZeroPage, Mnemonic::Stx, 0x86, 2, 3)),
        0x88 => Ok(OpCode::new(AddrMode::Implied, Mnemonic::Dey, 0x88, 1, 2)),
        0x8A => Ok(OpCode::new(AddrMode::Implied, Mnemonic::Txa, 0x8A, 1, 2)),
        0x8C => Ok(OpCode::new(AddrMode::Absolute, Mnemonic::Sty, 0x8C, 3, 4)),
        0x8D => Ok(OpCode::new(AddrMode::Absolute, Mnemonic::Sta, 0x8D, 3, 4)),
        0x8E => Ok(OpCode::new(AddrMode::Absolute, Mnemonic::Stx, 0x8E, 3, 4)),
        0x90 => Ok(OpCode::new(AddrMode::Relative, Mnemonic::Bcc, 0x90, 2, 2)),
        0x91 => Ok(OpCode::new(AddrMode::IndirectY, Mnemonic::Sta, 0x91, 2, 6)),
        0x94 => Ok(OpCode::new(AddrMode::ZeroPageX, Mnemonic::Sty, 0x94, 2, 4)),
        0x95 => Ok(OpCode::new(AddrMode::ZeroPageX, Mnemonic::Sta, 0x95, 2, 4)),
        0x96 => Ok(OpCode::new(AddrMode::ZeroPageY, Mnemonic::Stx, 0x96, 2, 4)),
        0x98 => Ok(OpCode::new(AddrMode::Implied, Mnemonic::Tya, 0x98, 1, 2)),
        0x99 => Ok(OpCode::new(AddrMode::AbsoluteY, Mnemonic::Sta, 0x99, 3, 5)),
        0x9A => Ok(OpCode::new(AddrMode::Implied, Mnemonic::Txs, 0x9A, 1, 2)),
        0x9D => Ok(OpCode::new(AddrMode::AbsoluteX, Mnemonic::Sta, 0x9D, 3, 5)),
        0xA0 => Ok(OpCode::new(AddrMode::Immediate, Mnemonic::Ldy, 0xA0, 2, 2)),
        0xA1 => Ok(OpCode::new(AddrMode::IndirectX, Mnemonic::Lda, 0xA1, 2, 6)),
        0xA2 => Ok(OpCode::new(AddrMode::Immediate, Mnemonic::Ldx, 0xA2, 2, 2)),
        0xA4 => Ok(OpCode::new(AddrMode::ZeroPage, Mnemonic::Ldy, 0xA4, 2, 3)),
        0xA5 => Ok(OpCode::new(AddrMode::ZeroPage, Mnemonic::Lda, 0xA5, 2, 3)),
        0xA6 => Ok(OpCode::new(AddrMode::ZeroPage, Mnemonic::Ldx, 0xA6, 2, 3)),
        0xA8 => Ok(OpCode::new(AddrMode::Implied, Mnemonic::Tay, 0xA8, 1, 2)),
        0xA9 => Ok(OpCode::new(AddrMode::Immediate, Mnemonic::Lda, 0xA9, 2, 2)),
        0xAA => Ok(OpCode::new(AddrMode::Implied, Mnemonic::Tax, 0xAA, 1, 2)),
        0xAC => Ok(OpCode::new(AddrMode::Absolute, Mnemonic::Ldy, 0xAC, 3, 4)),
        0xAD => Ok(OpCode::new(AddrMode::Absolute, Mnemonic::Lda, 0xAD, 3, 4)),
        0xAE => Ok(OpCode::new(AddrMode::Absolute, Mnemonic::Ldx, 0xAE, 3, 4)),
        0xB0 => Ok(OpCode::new(AddrMode::Relative, Mnemonic::Bcs, 0xB0, 2, 2)),
        0xB1 => Ok(OpCode::new(AddrMode::IndirectY, Mnemonic::Lda, 0xB1, 2, 5)),
        0xB4 => Ok(OpCode::new(AddrMode::ZeroPageX, Mnemonic::Ldy, 0xB4, 2, 4)),
        0xB5 => Ok(OpCode::new(AddrMode::ZeroPageX, Mnemonic::Lda, 0xB5, 2, 4)),
        0xB6 => Ok(OpCode::new(AddrMode::ZeroPageY, Mnemonic::Ldx, 0xB6, 2, 4)),
        0xB8 => Ok(OpCode::new(AddrMode::Implied, Mnemonic::Clv, 0xB8, 1, 2)),
        0xB9 => Ok(OpCode::new(AddrMode::AbsoluteY, Mnemonic::Lda, 0xB9, 3, 4)),
        0xBA => Ok(OpCode::new(AddrMode::Implied, Mnemonic::Tsx, 0xBA, 1, 2)),
        0xBC => Ok(OpCode::new(AddrMode::AbsoluteX, Mnemonic::Ldy, 0xBC, 3, 4)),
        0xBD => Ok(OpCode::new(AddrMode::AbsoluteX, Mnemonic::Lda, 0xBD, 3, 4)),
        0xBE => Ok(OpCode::new(AddrMode::AbsoluteY, Mnemonic::Ldx, 0xBE, 3, 4)),
        0xC0 => Ok(OpCode::new(AddrMode::Immediate, Mnemonic::Cpy, 0xC0, 2, 2)),
        0xC1 => Ok(OpCode::new(AddrMode::IndirectX, Mnemonic::Cmp, 0xC1, 2, 6)),
        0xC4 => Ok(OpCode::new(AddrMode::ZeroPage, Mnemonic::Cpy, 0xC4, 2, 3)),
        0xC5 => Ok(OpCode::new(AddrMode::ZeroPage, Mnemonic::Cmp, 0xC5, 2, 3)),
        0xC6 => Ok(OpCode::new(AddrMode::ZeroPage, Mnemonic::Dec, 0xC6, 2, 5)),
        0xC8 => Ok(OpCode::new(AddrMode::Implied, Mnemonic::Iny, 0xC8, 1, 2)),
        0xC9 => Ok(OpCode::new(AddrMode::Immediate, Mnemonic::Cmp, 0xC9, 2, 2)),
        0xCA => Ok(OpCode::new(AddrMode::Implied, Mnemonic::Dex, 0xCA, 1, 2)),
        0xCC => Ok(OpCode::new(AddrMode::Absolute, Mnemonic::Cpy, 0xCC, 3, 4)),
        0xCD => Ok(OpCode::new(AddrMode::Absolute, Mnemonic::Cmp, 0xCD, 3, 4)),
        0xCE => Ok(OpCode::new(AddrMode::Absolute, Mnemonic::Dec, 0xCE, 3, 6)),
        0xD0 => Ok(OpCode::new(AddrMode::Relative, Mnemonic::Bne, 0xD0, 2, 2)),
        0xD1 => Ok(OpCode::new(AddrMode::IndirectY, Mnemonic::Cmp, 0xD1, 2, 5)),
        0xD5 => Ok(OpCode::new(AddrMode::ZeroPageX, Mnemonic::Cmp, 0xD5, 2, 4)),
        0xD6 => Ok(OpCode::new(AddrMode::ZeroPageX, Mnemonic::Dec, 0xD6, 2, 6)),
        0xD8 => Ok(OpCode::new(AddrMode::Implied, Mnemonic::Cld, 0xD8, 1, 2)),
        0xD9 => Ok(OpCode::new(AddrMode::AbsoluteY, Mnemonic::Cmp, 0xD9, 3, 4)),
        0xDD => Ok(OpCode::new(AddrMode::AbsoluteX, Mnemonic::Cmp, 0xDD, 3, 4)),
        0xDE => Ok(OpCode::new(AddrMode::AbsoluteX, Mnemonic::Dec, 0xDE, 3, 7)),
        0xE0 => Ok(OpCode::new(AddrMode::Immediate, Mnemonic::Cpx, 0xE0, 2, 2)),
        0xE1 => Ok(OpCode::new(AddrMode::IndirectX, Mnemonic::Sbc, 0xE1, 2, 6)),
        0xE4 => Ok(OpCode::new(AddrMode::ZeroPage, Mnemonic::Cpx, 0xE4, 2, 3)),
        0xE5 => Ok(OpCode::new(AddrMode::ZeroPage, Mnemonic::Sbc, 0xE5, 2, 3)),
        0xE6 => Ok(OpCode::new(AddrMode::ZeroPage, Mnemonic::Inc, 0xE6, 2, 5)),
        0xE8 => Ok(OpCode::new(AddrMode::Implied, Mnemonic::Inx, 0xE8, 1, 2)),
        0xE9 => Ok(OpCode::new(AddrMode::Immediate, Mnemonic::Sbc, 0xE9, 2, 2)),
        0xEA => Ok(OpCode::new(AddrMode::Implied, Mnemonic::Nop, 0xEA, 1, 2)),
        0xEC => Ok(OpCode::new(AddrMode::Absolute, Mnemonic::Cpx, 0xEC, 3, 4)),
        0xED => Ok(OpCode::new(AddrMode::Absolute, Mnemonic::Sbc, 0xED, 3, 4)),
        0xEE => Ok(OpCode::new(AddrMode::Absolute, Mnemonic::Inc, 0xEE, 3, 6)),
        0xF0 => Ok(OpCode::new(AddrMode::Relative, Mnemonic::Beq, 0xF0, 2, 2)),
        0xF1 => Ok(OpCode::new(AddrMode::IndirectY, Mnemonic::Sbc, 0xF1, 2, 5)),
        0xF5 => Ok(OpCode::new(AddrMode::ZeroPageX, Mnemonic::Sbc, 0xF5, 2, 4)),
        0xF6 => Ok(OpCode::new(AddrMode::ZeroPageX, Mnemonic::Inc, 0xF6, 2, 6)),
        0xF8 => Ok(OpCode::new(AddrMode::Implied, Mnemonic::Sed, 0xF8, 1, 2)),
        0xF9 => Ok(OpCode::new(AddrMode::AbsoluteY, Mnemonic::Sbc, 0xF9, 3, 4)),
        0xFD => Ok(OpCode::new(AddrMode::AbsoluteX, Mnemonic::Sbc, 0xFD, 3, 4)),
        0xFE => Ok(OpCode::new(AddrMode::AbsoluteX, Mnemonic::Inc, 0xFE, 3, 7)),
        _ => Err(CpuError::Decode(opcode)),
    };
    proof {
        match r {
            Ok(op) => lemma_decode_entry(op.mnemonic, op.addressing_mode),
            Err(_) => {
                assert forall|m: Mnemonic, mode: AddrMode| opcode_for(m, mode) != Some(opcode) by {}
                lemma_decode_undefined(opcode);
            },
        }
    }
    r
}

} // verus!
