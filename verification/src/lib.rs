//! The instruction-execution core of a 6502-class processor: an opcode
//! table, an addressing-mode resolver and an execution engine over a flat
//! 64 KiB memory, each exec function proved against a mathematical model of
//! the processor.

pub mod addressing_modes;
pub mod bits;
pub mod cpu;
pub mod error;
pub mod flags;
pub mod laws;
pub mod ops_codes;
pub mod state;

pub use crate::addressing_modes::AddrMode;
pub use crate::cpu::CPU;
pub use crate::error::CpuError;
pub use crate::ops_codes::{lookup, Mnemonic, OpCode};
pub use crate::state::{Control, State, Status};
