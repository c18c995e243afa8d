//! The addressing-mode tags.

use vstd::prelude::*;

verus! {

/// How the operand bytes that follow an opcode are turned into the location
/// an instruction works on.
#[derive(Clone, Copy, Debug, PartialEq, Eq, Structural)]
pub enum AddrMode {
    /// The operand is the accumulator itself.
    Accumulator,
    /// Two operand bytes hold the address, low byte first.
    Absolute,
    /// Absolute address plus X, carried into the high byte.
    AbsoluteX,
    /// Absolute address plus Y, carried into the high byte.
    AbsoluteY,
    /// The operand byte itself is the value.
    Immediate,
    /// The instruction names no operand.
    Implied,
    /// Two operand bytes point at the word that holds the address.
    Indirect,
    /// Operand byte plus X, within page zero, points at the address word.
    IndirectX,
    /// Operand byte points at a page-zero word; Y is added to that word.
    IndirectY,
    /// The operand byte is a signed displacement from the next instruction.
    Relative,
    /// One operand byte holds an address in page zero.
    ZeroPage,
    /// Page-zero address plus X, without carry out of the low byte.
    ZeroPageX,
    /// Page-zero address plus Y, without carry out of the low byte.
    ZeroPageY,
}

impl AddrMode {
    /// Number of operand bytes that follow the opcode byte, as a number.
    pub open spec fn operand_len(self) -> int {
        match self {
            AddrMode::Accumulator | AddrMode::Implied => 0,
            AddrMode::Absolute | AddrMode::AbsoluteX | AddrMode::AbsoluteY | AddrMode::Indirect => 2,
            _ => 1,
        }
    }

    /// Number of operand bytes that follow the opcode byte.
    pub fn operand_bytes(&self) -> (n: u8)
        ensures
            n == self.operand_len(),
    {
        match self {
            AddrMode::Accumulator | AddrMode::Implied => 0,
            AddrMode::Absolute | AddrMode::AbsoluteX | AddrMode::AbsoluteY | AddrMode::Indirect => 2,
            _ => 1,
        }
    }
}

} // verus!
