//! The faults of the processor.

use vstd::prelude::*;
use crate::addressing_modes::AddrMode;

verus! {

/// The faults that stop the processor or refuse a program image.
#[derive(Clone, Copy, Debug, PartialEq, Eq, Structural)]
pub enum CpuError {
    /// The fetched byte is not an opcode of the instruction set.
    Decode(u8),
    /// An instruction asked for a memory operand under a mode that has none.
    AddressingMode(AddrMode),
    /// A program image would reach past the end of memory.
    Range,
}

} // verus!
