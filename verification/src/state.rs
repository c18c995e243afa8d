//! The processor as a mathematical value, and what each instruction does
//! to it.

use vstd::prelude::*;
use crate::addressing_modes::AddrMode;
use crate::error::CpuError;
use crate::flags::{
    flag, with_flag, with_zn, CARRY, DECIMAL, INTERRUPT, NEGATIVE, OVERFLOW, ZERO,
};
use crate::ops_codes::{decode, Mnemonic, OpCode};

verus! {

/// Number of memory cells.
pub const MEMORY_SIZE: usize = 65536;

/// Where programs are loaded by convention.
pub const PROGRAM_ORIGIN: u16 = 0x8000;

/// First address of the stack page.
pub const STACK_BASE: u16 = 0x0100;

/// Address of the word that holds the program counter's value after a reset.
pub const RESET_VECTOR: u16 = 0xFFFC;

/// `n` reduced to a byte.
pub open spec fn wrap8(n: int) -> u8 {
    (n % 0x100) as u8
}

/// `n` reduced to an address.
pub open spec fn wrap16(n: int) -> u16 {
    (n % 0x1_0000) as u16
}

/// The 16-bit word with low byte `lo` and high byte `hi`.
pub open spec fn word(lo: u8, hi: u8) -> u16 {
    (lo + 0x100 * hi) as u16
}

/// Low byte of `w`.
pub open spec fn low_byte(w: u16) -> u8 {
    (w % 0x100) as u8
}

/// High byte of `w`.
pub open spec fn high_byte(w: u16) -> u8 {
    (w / 0x100) as u8
}

/// `b` read as a two's-complement number.
pub open spec fn signed(b: u8) -> int {
    if b < 0x80 {
        b as int
    } else {
        b - 0x100
    }
}

/// What the engine does after an instruction's handler has run.
#[derive(Clone, Copy, Debug, PartialEq, Eq, Structural)]
pub enum Control {
    /// Move the program counter past the instruction's operand bytes.
    Advance,
    /// The handler has set the program counter; leave it alone.
    Redirect,
    /// The handler was the halt instruction.
    Halt,
}

/// Whether the processor can go on.
#[derive(Clone, Copy, Debug, PartialEq, Eq, Structural)]
pub enum Status {
    /// The last instruction retired was not the halt instruction.
    Running,
    /// The halt instruction has retired.
    Halted,
}

/// The processor as a mathematical value: the register file and the whole of
/// memory.
#[verifier::ext_equal]
pub struct State {
    pub accumulator: u8,
    pub register_x: u8,
    pub register_y: u8,
    pub stack_ptr: u8,
    pub status: u8,
    pub program_counter: u16,
    pub memory: Seq<u8>,
}

impl State {
    /// Every address names a cell.
    pub open spec fn wf(self) -> bool {
        self.memory.len() == MEMORY_SIZE
    }

    /// The state in which everything is zero.
    pub open spec fn zeroed() -> State {
        State {
            accumulator: 0,
            register_x: 0,
            register_y: 0,
            stack_ptr: 0,
            status: 0,
            program_counter: 0,
            memory: Seq::new(MEMORY_SIZE as nat, |i: int| 0u8),
        }
    }

    // ------------------------------------------------------------------
    // Memory
    // ------------------------------------------------------------------

    /// The cell at `addr`.
    pub open spec fn read(self, addr: u16) -> u8 {
        self.memory[addr as int]
    }

    /// The little-endian word at `addr`; the high byte of a word at the last
    /// address is the cell at address 0.
    pub open spec fn read_u16(self, addr: u16) -> u16 {
        word(self.read(addr), self.read(wrap16(addr + 1)))
    }

    /// The little-endian word at page-zero address `ptr`; the high byte of a
    /// word at 0x00FF is the cell at address 0.
    pub open spec fn read_zero_page_u16(self, ptr: u8) -> u16 {
        word(self.read(ptr as u16), self.read(wrap8(ptr + 1) as u16))
    }

    /// The cell at `addr` replaced by `data`.
    pub open spec fn write(self, addr: u16, data: u8) -> State {
        State { memory: self.memory.update(addr as int, data), ..self }
    }

    /// `data` stored at `addr`, low byte first.
    pub open spec fn write_u16(self, addr: u16, data: u16) -> State {
        self.write(addr, low_byte(data)).write(wrap16(addr + 1), high_byte(data))
    }

    /// Memory with `bytes` copied in from `origin` on, and the reset vector
    /// then pointed at `origin`.
    pub open spec fn load(self, origin: u16, bytes: Seq<u8>) -> State
        recommends
            origin + bytes.len() <= MEMORY_SIZE,
    {
        (State {
            memory: Seq::new(
                self.memory.len(),
                |i: int|
                    if origin <= i < origin + bytes.len() {
                        bytes[i - origin]
                    } else {
                        self.memory[i]
                    },
            ),
            ..self
        }).write_u16(RESET_VECTOR, origin)
    }

    /// Registers cleared, program counter taken from the reset vector, memory
    /// as it was.
    pub open spec fn reset(self) -> State {
        State {
            accumulator: 0,
            register_x: 0,
            register_y: 0,
            stack_ptr: 0,
            status: 0,
            program_counter: self.read_u16(RESET_VECTOR),
            memory: self.memory,
        }
    }

    // ------------------------------------------------------------------
    // Flags
    // ------------------------------------------------------------------

    /// Whether the flag `mask` is set.
    pub open spec fn flag(self, mask: u8) -> bool {
        flag(self.status, mask)
    }

    /// The flag `mask` set to `on`.
    pub open spec fn set_flag(self, mask: u8, on: bool) -> State {
        State { status: with_flag(self.status, mask, on), ..self }
    }

    /// Zero and Negative made to describe `value`.
    pub open spec fn set_zn(self, value: u8) -> State {
        State { status: with_zn(self.status, value), ..self }
    }

    /// The carry flag as a number.
    pub open spec fn carry(self) -> int {
        if self.flag(CARRY) {
            1
        } else {
            0
        }
    }

    // ------------------------------------------------------------------
    // Operands
    // ------------------------------------------------------------------

    /// The effective address of the instruction whose operand bytes start at
    /// the program counter, or `None` where `mode` names no memory operand.
    pub open spec fn operand_addr(self, mode: AddrMode) -> Option<u16> {
        let pc = self.program_counter;
        match mode {
            AddrMode::Immediate => Some(pc),
            AddrMode::Absolute => Some(self.read_u16(pc)),
            AddrMode::AbsoluteX => Some(wrap16(self.read_u16(pc) + self.register_x)),
            AddrMode::AbsoluteY => Some(wrap16(self.read_u16(pc) + self.register_y)),
            AddrMode::ZeroPage => Some(self.read(pc) as u16),
            AddrMode::ZeroPageX => Some(wrap8(self.read(pc) + self.register_x) as u16),
            AddrMode::ZeroPageY => Some(wrap8(self.read(pc) + self.register_y) as u16),
            AddrMode::Indirect => Some(self.read_u16(self.read_u16(pc))),
            AddrMode::IndirectX => Some(
                self.read_zero_page_u16(wrap8(self.read(pc) + self.register_x)),
            ),
            AddrMode::IndirectY => Some(
                wrap16(self.read_zero_page_u16(self.read(pc)) + self.register_y),
            ),
            AddrMode::Accumulator | AddrMode::Implied | AddrMode::Relative => None,
        }
    }

    /// `Ok` where `mode` names a memory operand, the addressing-mode fault
    /// where it does not.
    pub open spec fn resolves(self, mode: AddrMode) -> Result<(), CpuError> {
        match self.operand_addr(mode) {
            Some(_) => Ok(()),
            None => Err(CpuError::AddressingMode(mode)),
        }
    }

    /// Whether the handler of `mnemonic` can work under `mode`: it cannot
    /// where it asks the resolver for an address that the mode does not name.
    pub open spec fn accepts(self, mnemonic: Mnemonic, mode: AddrMode) -> Result<(), CpuError> {
        if Self::uses_resolver(mnemonic, mode) {
            self.resolves(mode)
        } else {
            Ok(())
        }
    }

    /// The effective address under a mode that names a memory operand.
    pub open spec fn target(self, mode: AddrMode) -> u16
        recommends
            self.operand_addr(mode) is Some,
    {
        self.operand_addr(mode).unwrap()
    }

    /// The byte an instruction reads under `mode`.
    pub open spec fn operand(self, mode: AddrMode) -> u8
        recommends
            self.operand_addr(mode) is Some,
    {
        self.read(self.target(mode))
    }

    /// Where a taken branch goes: the signed displacement at the program
    /// counter, counted from the instruction after the branch.
    pub open spec fn branch_target(self) -> u16 {
        wrap16(self.program_counter + 1 + signed(self.read(self.program_counter)))
    }

    // ------------------------------------------------------------------
    // Stack
    // ------------------------------------------------------------------

    /// Address of the cell the stack pointer names.
    pub open spec fn stack_addr(self) -> u16 {
        (STACK_BASE + self.stack_ptr) as u16
    }

    /// `data` stored at the stack pointer, which then moves down.
    pub open spec fn push(self, data: u8) -> State {
        State { stack_ptr: wrap8(self.stack_ptr - 1), ..self.write(self.stack_addr(), data) }
    }

    /// High byte, then low byte.
    pub open spec fn push_u16(self, data: u16) -> State {
        self.push(high_byte(data)).push(low_byte(data))
    }

    /// The stack pointer moved up by one.
    pub open spec fn pop(self) -> State {
        State { stack_ptr: wrap8(self.stack_ptr + 1), ..self }
    }

    /// The byte a pull hands out: the one above the stack pointer.
    pub open spec fn top(self) -> u8 {
        self.pop().read(self.pop().stack_addr())
    }

    /// The word that two pulls hand out, low byte first.
    pub open spec fn top_u16(self) -> u16 {
        word(self.top(), self.pop().top())
    }

    // ------------------------------------------------------------------
    // Register and arithmetic building blocks
    // ------------------------------------------------------------------

    /// `data` in the accumulator, Zero and Negative describing it.
    pub open spec fn set_accumulator(self, data: u8) -> State {
        State { accumulator: data, ..self }.set_zn(data)
    }

    /// `data` in X, Zero and Negative describing it.
    pub open spec fn set_register_x(self, data: u8) -> State {
        State { register_x: data, ..self }.set_zn(data)
    }

    /// `data` in Y, Zero and Negative describing it.
    pub open spec fn set_register_y(self, data: u8) -> State {
        State { register_y: data, ..self }.set_zn(data)
    }

    /// Accumulator plus `data` plus carry. Carry is the carry out of bit 7;
    /// Overflow says that the sum of the three, read as signed numbers, does
    /// not fit a signed byte.
    pub open spec fn add_to_accumulator(self, data: u8) -> State {
        let sum = self.accumulator + data + self.carry();
        let signed_sum = signed(self.accumulator) + signed(data) + self.carry();
        self.set_flag(CARRY, sum > 0xFF).set_flag(
            OVERFLOW,
            signed_sum < -0x80 || signed_sum > 0x7F,
        ).set_accumulator(wrap8(sum))
    }

    /// `register` against the operand: Carry says that `register` is not
    /// below it, Zero and Negative describe their wrapped difference.
    pub open spec fn compare(self, register: u8, mode: AddrMode) -> State {
        let data = self.operand(mode);
        self.set_flag(CARRY, register >= data).set_zn(wrap8(register - data))
    }

    /// Whether a shift or rotate can work under `mode`: on the accumulator, or
    /// on a memory operand that the mode names.
    pub open spec fn shift_accepts(self, mode: AddrMode) -> Result<(), CpuError> {
        if mode == AddrMode::Accumulator {
            Ok(())
        } else {
            self.resolves(mode)
        }
    }

    /// The byte a shift or rotate works on: the accumulator, or the operand.
    pub open spec fn shift_input(self, mode: AddrMode) -> u8 {
        if mode == AddrMode::Accumulator {
            self.accumulator
        } else {
            self.operand(mode)
        }
    }

    /// `result` put where the shifted byte came from, Carry set to
    /// `carry_out`, Zero and Negative describing `result`.
    pub open spec fn shift_output(self, mode: AddrMode, result: u8, carry_out: bool) -> State {
        let s = self.set_flag(CARRY, carry_out);
        if mode == AddrMode::Accumulator {
            s.set_accumulator(result)
        } else {
            s.write(self.target(mode), result).set_zn(result)
        }
    }

    /// The operand cell changed by `delta`, modulo 256.
    pub open spec fn bump_memory(self, mode: AddrMode, delta: int) -> State {
        let result = wrap8(self.operand(mode) + delta);
        self.write(self.target(mode), result).set_zn(result)
    }

    /// The program counter moved to the branch target if `taken`.
    pub open spec fn branch(self, taken: bool) -> State {
        if taken {
            State { program_counter: self.branch_target(), ..self }
        } else {
            self
        }
    }

    // ------------------------------------------------------------------
    // Instructions
    // ------------------------------------------------------------------

    /// Whether the handler of `mnemonic` asks the resolver for an address
    /// under `mode`.
    pub open spec fn uses_resolver(mnemonic: Mnemonic, mode: AddrMode) -> bool {
        match mnemonic {
            Mnemonic::Lda | Mnemonic::Ldx | Mnemonic::Ldy | Mnemonic::Sta | Mnemonic::Stx
            | Mnemonic::Sty | Mnemonic::Adc | Mnemonic::Sbc | Mnemonic::And | Mnemonic::Ora
            | Mnemonic::Eor | Mnemonic::Bit | Mnemonic::Cmp | Mnemonic::Cpx | Mnemonic::Cpy
            | Mnemonic::Inc | Mnemonic::Dec | Mnemonic::Jmp | Mnemonic::Jsr => true,
            Mnemonic::Asl | Mnemonic::Lsr | Mnemonic::Rol | Mnemonic::Ror => mode
                != AddrMode::Accumulator,
            _ => false,
        }
    }

    /// The condition a branch instruction tests; `false` for every other
    /// instruction.
    pub open spec fn branch_condition(self, mnemonic: Mnemonic) -> bool {
        match mnemonic {
            Mnemonic::Bcc => !self.flag(CARRY),
            Mnemonic::Bcs => self.flag(CARRY),
            Mnemonic::Bne => !self.flag(ZERO),
            Mnemonic::Beq => self.flag(ZERO),
            Mnemonic::Bpl => !self.flag(NEGATIVE),
            Mnemonic::Bmi => self.flag(NEGATIVE),
            Mnemonic::Bvc => !self.flag(OVERFLOW),
            Mnemonic::Bvs => self.flag(OVERFLOW),
            _ => false,
        }
    }

    /// What `mnemonic` under `mode` does to the processor, the program
    /// counter standing on the first operand byte. Instructions that do not
    /// redirect control leave the program counter there.
    pub open spec fn apply(self, mnemonic: Mnemonic, mode: AddrMode) -> State {
        match mnemonic {
            // loads and stores
            Mnemonic::Lda => self.set_accumulator(self.operand(mode)),
            Mnemonic::Ldx => self.set_register_x(self.operand(mode)),
            Mnemonic::Ldy => self.set_register_y(self.operand(mode)),
            Mnemonic::Sta => self.write(self.target(mode), self.accumulator),
            Mnemonic::Stx => self.write(self.target(mode), self.register_x),
            Mnemonic::Sty => self.write(self.target(mode), self.register_y),
            // transfers
            Mnemonic::Tax => self.set_register_x(self.accumulator),
            Mnemonic::Tay => self.set_register_y(self.accumulator),
            Mnemonic::Txa => self.set_accumulator(self.register_x),
            Mnemonic::Tya => self.set_accumulator(self.register_y),
            Mnemonic::Tsx => self.set_register_x(self.stack_ptr),
            Mnemonic::Txs => State { stack_ptr: self.register_x, ..self },
            // increments and decrements
            Mnemonic::Inx => self.set_register_x(wrap8(self.register_x + 1)),
            Mnemonic::Iny => self.set_register_y(wrap8(self.register_y + 1)),
            Mnemonic::Dex => self.set_register_x(wrap8(self.register_x - 1)),
            Mnemonic::Dey => self.set_register_y(wrap8(self.register_y - 1)),
            Mnemonic::Inc => self.bump_memory(mode, 1),
            Mnemonic::Dec => self.bump_memory(mode, -1),
            // logic
            Mnemonic::And => self.set_accumulator(self.accumulator & self.operand(mode)),
            Mnemonic::Ora => self.set_accumulator(self.accumulator | self.operand(mode)),
            Mnemonic::Eor => self.set_accumulator(self.accumulator ^ self.operand(mode)),
            Mnemonic::Bit => {
                let data = self.operand(mode);
                self.set_flag(NEGATIVE, data >= 0x80).set_flag(OVERFLOW, data / 0x40 % 2 == 1)
                    .set_flag(ZERO, self.accumulator & data == 0)
            },
            // arithmetic
            Mnemonic::Adc => self.add_to_accumulator(self.operand(mode)),
            Mnemonic::Sbc => self.add_to_accumulator((0xFF - self.operand(mode)) as u8),
            Mnemonic::Cmp => self.compare(self.accumulator, mode),
            Mnemonic::Cpx => self.compare(self.register_x, mode),
            Mnemonic::Cpy => self.compare(self.register_y, mode),
            // shifts and rotates
            Mnemonic::Asl => {
                let v = self.shift_input(mode);
                self.shift_output(mode, wrap8(2 * v), v >= 0x80)
            },
            Mnemonic::Lsr => {
                let v = self.shift_input(mode);
                self.shift_output(mode, v / 2, v % 2 == 1)
            },
            Mnemonic::Rol => {
                let v = self.shift_input(mode);
                self.shift_output(mode, wrap8(2 * v + self.carry()), v >= 0x80)
            },
            Mnemonic::Ror => {
                let v = self.shift_input(mode);
                self.shift_output(mode, (v / 2 + 0x80 * self.carry()) as u8, v % 2 == 1)
            },
            // branches
            Mnemonic::Bcc | Mnemonic::Bcs | Mnemonic::Bne | Mnemonic::Beq | Mnemonic::Bpl
            | Mnemonic::Bmi | Mnemonic::Bvc | Mnemonic::Bvs => self.branch(
                self.branch_condition(mnemonic),
            ),
            // jumps, calls and returns
            Mnemonic::Jmp => State { program_counter: self.target(mode), ..self },
            Mnemonic::Jsr => State {
                program_counter: self.target(mode),
                ..self.push_u16(wrap16(self.program_counter + 1))
            },
            Mnemonic::Rts => State {
                program_counter: wrap16(self.top_u16() + 1),
                ..self.pop().pop()
            },
            Mnemonic::Rti => State {
                status: self.top(),
                program_counter: self.pop().top_u16(),
                ..self.pop().pop().pop()
            },
            // stack
            Mnemonic::Pha => self.push(self.accumulator),
            Mnemonic::Php => self.push(self.status),
            Mnemonic::Pla => self.pop().set_accumulator(self.top()),
            Mnemonic::Plp => State { status: self.top(), ..self.pop() },
            // flags
            Mnemonic::Clc => self.set_flag(CARRY, false),
            Mnemonic::Sec => self.set_flag(CARRY, true),
            Mnemonic::Cld => self.set_flag(DECIMAL, false),
            Mnemonic::Sed => self.set_flag(DECIMAL, true),
            Mnemonic::Cli => self.set_flag(INTERRUPT, false),
            Mnemonic::Sei => self.set_flag(INTERRUPT, true),
            Mnemonic::Clv => self.set_flag(OVERFLOW, false),
            // nothing to do
            Mnemonic::Nop | Mnemonic::Brk => self,
        }
    }

    /// What the engine does with the program counter after `mnemonic`.
    pub open spec fn flow(self, mnemonic: Mnemonic) -> Control {
        match mnemonic {
            Mnemonic::Brk => Control::Halt,
            Mnemonic::Jmp | Mnemonic::Jsr | Mnemonic::Rts | Mnemonic::Rti => Control::Redirect,
            _ => if self.branch_condition(mnemonic) {
                Control::Redirect
            } else {
                Control::Advance
            },
        }
    }

    /// The handler of `op` run on a processor whose program counter stands on
    /// the first operand byte. A handler that asks for an address under a
    /// mode without one faults and changes nothing.
    pub open spec fn execute(self, op: OpCode) -> (State, Result<Control, CpuError>) {
        match self.accepts(op.mnemonic, op.addressing_mode) {
            Ok(_) => (self.apply(op.mnemonic, op.addressing_mode), Ok(self.flow(op.mnemonic))),
            Err(e) => (self, Err(e)),
        }
    }

    /// The program counter moved forward by `count` bytes.
    pub open spec fn advance(self, count: int) -> State {
        State { program_counter: wrap16(self.program_counter + count), ..self }
    }

    /// One instruction: fetch, decode, execute, advance. A fetched byte that
    /// is no opcode faults with the program counter past it and nothing else
    /// changed.
    pub open spec fn step(self) -> (State, Result<Status, CpuError>) {
        let opcode = self.read(self.program_counter);
        let fetched = self.advance(1);
        match decode(opcode) {
            None => (fetched, Err(CpuError::Decode(opcode))),
            Some(op) => {
                let (after, outcome) = fetched.execute(op);
                match outcome {
                    Err(e) => (after, Err(e)),
                    Ok(Control::Redirect) => (after, Ok(Status::Running)),
                    Ok(Control::Advance) => (after.advance(op.bytes - 1), Ok(Status::Running)),
                    Ok(Control::Halt) => (after.advance(op.bytes - 1), Ok(Status::Halted)),
                }
            },
        }
    }

    /// Up to `limit` instructions, stopping early at a halt or a fault.
    pub open spec fn run(self, limit: nat) -> (State, Result<Status, CpuError>)
        decreases limit,
    {
        if limit == 0 {
            (self, Ok(Status::Running))
        } else {
            let (next, outcome) = self.step();
            match outcome {
                Ok(Status::Running) => next.run((limit - 1) as nat),
                _ => (next, outcome),
            }
        }
    }
}

} // verus!
