//! The execution engine: registers, memory, instruction handlers and the
//! fetch-decode-execute loop.

use vstd::prelude::*;
use crate::addressing_modes::AddrMode;
use crate::bits::{
    lemma_add_bits, lemma_bit_tests, lemma_displacement_bits, lemma_shift_bits, lemma_word_bits,
    lemma_wrapping_u16, lemma_wrapping_u8,
};
use crate::error::CpuError;
use crate::flags::{
    lemma_with_zn, BREAK, CARRY, DECIMAL, INTERRUPT, NEGATIVE, OVERFLOW, ZERO,
};
use crate::ops_codes::{lemma_decode_is_entry, lookup, Mnemonic, OpCode};
use crate::state::{
    Control, State, Status, MEMORY_SIZE, PROGRAM_ORIGIN, RESET_VECTOR, STACK_BASE,
};

verus! {

/// The processor: its registers, its flags and the memory it owns.
pub struct CPU {
    pub accumulator: u8,
    pub register_x: u8,
    pub register_y: u8,
    pub stack_ptr: u8,
    pub status: u8,
    pub program_counter: u16,
    pub memory: [u8; MEMORY_SIZE],
}

impl View for CPU {
    type V = State;

    open spec fn view(&self) -> State {
        State {
            accumulator: self.accumulator,
            register_x: self.register_x,
            register_y: self.register_y,
            stack_ptr: self.stack_ptr,
            status: self.status,
            program_counter: self.program_counter,
            memory: self.memory@,
        }
    }
}

impl CPU {
    /// A processor with every register and every memory cell zero.
    pub fn new() -> (cpu: CPU)
        ensures
            cpu@ == State::zeroed(),
    {
        CPU {
            accumulator: 0,
            register_x: 0,
            register_y: 0,
            stack_ptr: 0,
            status: 0,
            program_counter: 0,
            memory: [0;MEMORY_SIZE],
        }
    }

    // ------------------------------------------------------------------
    // Flags
    // ------------------------------------------------------------------

    /// Sets Carry.
    pub fn set_status_carry(&mut self)
        ensures
            final(self)@ == old(self)@.set_flag(CARRY, true),
    {
        self.status |= CARRY;
    }

    /// Clears Carry.
    pub fn clear_status_carry(&mut self)
        ensures
            final(self)@ == old(self)@.set_flag(CARRY, false),
    {
        self.status &= !CARRY;
    }

    /// Sets Zero.
    pub fn set_status_zero(&mut self)
        ensures
            final(self)@ == old(self)@.set_flag(ZERO, true),
    {
        self.status |= ZERO;
    }

    /// Clears Zero.
    pub fn clear_status_zero(&mut self)
        ensures
            final(self)@ == old(self)@.set_flag(ZERO, false),
    {
        self.status &= !ZERO;
    }

    /// Sets Interrupt-disable.
    pub fn set_status_interrupt(&mut self)
        ensures
            final(self)@ == old(self)@.set_flag(INTERRUPT, true),
    {
        self.status |= INTERRUPT;
    }

    /// Clears Interrupt-disable.
    pub fn clear_status_interrupt(&mut self)
        ensures
            final(self)@ == old(self)@.set_flag(INTERRUPT, false),
    {
        self.status &= !INTERRUPT;
    }

    /// Sets Decimal.
    pub fn set_status_decimal(&mut self)
        ensures
            final(self)@ == old(self)@.set_flag(DECIMAL, true),
    {
        self.status |= DECIMAL;
    }

    /// Clears Decimal.
    pub fn clear_status_decimal(&mut self)
        ensures
            final(self)@ == old(self)@.set_flag(DECIMAL, false),
    {
        self.status &= !DECIMAL;
    }

    /// Sets Break.
    pub fn set_status_break(&mut self)
        ensures
            final(self)@ == old(self)@.set_flag(BREAK, true),
    {
        self.status |= BREAK;
    }

    /// Clears Break.
    pub fn clear_status_break(&mut self)
        ensures
            final(self)@ == old(self)@.set_flag(BREAK, false),
    {
        self.status &= !BREAK;
    }

    /// Sets Overflow.
    pub fn set_status_overflow(&mut self)
        ensures
            final(self)@ == old(self)@.set_flag(OVERFLOW, true),
    {
        self.status |= OVERFLOW;
    }

    /// Clears Overflow.
    pub fn clear_status_overflow(&mut self)
        ensures
            final(self)@ == old(self)@.set_flag(OVERFLOW, false),
    {
        self.status &= !OVERFLOW;
    }

    /// Sets Negative.
    pub fn set_status_negative(&mut self)
        ensures
            final(self)@ == old(self)@.set_flag(NEGATIVE, true),
    {
        self.status |= NEGATIVE;
    }

    /// Clears Negative.
    pub fn clear_status_negative(&mut self)
        ensures
            final(self)@ == old(self)@.set_flag(NEGATIVE, false),
    {
        self.status &= !NEGATIVE;
    }

    /// Whether the flag `mask` is set.
    pub fn status_flag(&self, mask: u8) -> (on: bool)
        ensures
            on == self@.flag(mask),
    {
        self.status & mask != 0
    }

    /// Makes Zero and Negative describe `result`.
    pub fn calc_token(&mut self, result: u8)
        ensures
            final(self)@ == old(self)@.set_zn(result),
            final(self)@.flag(ZERO) <==> result == 0,
            final(self)@.flag(NEGATIVE) <==> result & 0x80 != 0,
    {
        proof {
            lemma_with_zn(self.status, result, CARRY);
        }
        if result == 0 {
            self.set_status_zero();
        } else {
            self.clear_status_zero();
        }
        proof {
            lemma_bit_tests(result);
        }
        if result & 0b1000_0000 != 0 {
            self.set_status_negative();
        } else {
            self.clear_status_negative();
        }
    }

    // ------------------------------------------------------------------
    // Memory
    // ------------------------------------------------------------------

    /// Reads the cell at `pos`.
    pub fn memory_read(&self, pos: u16) -> (data: u8)
        ensures
            data == self@.read(pos),
    {
        self.memory[pos as usize]
    }

    /// Reads the little-endian word at `pos`.
    pub fn memory_read_u16(&self, pos: u16) -> (data: u16)
        ensures
            data == self@.read_u16(pos),
    {
        let low = self.memory_read(pos);
        let high = self.memory_read(pos.wrapping_add(1));
        proof {
            lemma_wrapping_u16(pos, 1);
            lemma_word_bits(low, high, 0);
        }
        (low as u16) | ((high as u16) << 8)
    }

    /// Reads the little-endian word at page-zero address `ptr`, without
    /// leaving page zero.
    pub fn memory_read_zero_page_u16(&self, ptr: u8) -> (data: u16)
        ensures
            data == self@.read_zero_page_u16(ptr),
    {
        let low = self.memory_read(ptr as u16);
        let high = self.memory_read(ptr.wrapping_add(1) as u16);
        proof {
            lemma_wrapping_u8(ptr, 1);
            lemma_word_bits(low, high, 0);
        }
        (low as u16) | ((high as u16) << 8)
    }

    /// Writes `data` to the cell at `pos`.
    pub fn memory_write(&mut self, pos: u16, data: u8)
        ensures
            final(self)@ == old(self)@.write(pos, data),
    {
        self.memory[pos as usize] = data;
    }

    /// Writes `data` at `pos`, low byte first.
    pub fn memory_write_u16(&mut self, pos: u16, data: u16)
        ensures
            final(self)@ == old(self)@.write_u16(pos, data),
    {
        proof {
            lemma_wrapping_u16(pos, 1);
            lemma_word_bits(0, 0, data);
        }
        let low = (data & 0xff) as u8;
        let high = (data >> 8) as u8;
        self.memory_write(pos, low);
        self.memory_write(pos.wrapping_add(1), high);
    }

    /// Copies `bytes` into memory from `origin` on and points the reset vector
    /// at `origin`. An image that would reach past the last address is
    /// refused before anything is written.
    pub fn load(&mut self, origin: u16, bytes: &[u8]) -> (r: Result<(), CpuError>)
        ensures
            r is Ok <==> origin + bytes@.len() <= MEMORY_SIZE,
            r is Err ==> r == Err::<(), CpuError>(CpuError::Range) && final(self)@ == old(self)@,
            r is Ok ==> final(self)@ == old(self)@.load(origin, bytes@),
    {
        let len = bytes.len();
        if len > MEMORY_SIZE - origin as usize {
            return Err(CpuError::Range);
        }
        let ghost before = self@;
        let mut i: usize = 0;
        while i < len
            invariant
                i <= len,
                len == bytes@.len(),
                origin + len <= MEMORY_SIZE,
                self@ == (State {
                    memory: Seq::new(
                        MEMORY_SIZE as nat,
                        |k: int|
                            if origin <= k < origin + i {
                                bytes@[k - origin]
                            } else {
                                before.memory[k]
                            },
                    ),
                    ..before
                }),
            decreases len - i,
        {
            self.memory[origin as usize + i] = bytes[i];
            i += 1;
        }
        self.memory_write_u16(RESET_VECTOR, origin);
        Ok(())
    }

    /// Loads `program` at the conventional origin.
    pub fn load_program(&mut self, program: Vec<u8>) -> (r: Result<(), CpuError>)
        ensures
            r is Ok <==> PROGRAM_ORIGIN + program@.len() <= MEMORY_SIZE,
            r is Err ==> r == Err::<(), CpuError>(CpuError::Range) && final(self)@ == old(self)@,
            r is Ok ==> final(self)@ == old(self)@.load(PROGRAM_ORIGIN, program@),
    {
        self.load(PROGRAM_ORIGIN, program.as_slice())
    }

    /// Clears the registers and takes the program counter from the reset
    /// vector.
    pub fn reset(&mut self)
        ensures
            final(self)@ == old(self)@.reset(),
    {
        self.status = 0;
        self.register_x = 0;
        self.register_y = 0;
        self.accumulator = 0;
        self.stack_ptr = 0;

        self.program_counter = self.memory_read_u16(RESET_VECTOR);
    }

    // ------------------------------------------------------------------
    // Operands
    // ------------------------------------------------------------------

    /// Resolves the effective address of the instruction whose operand bytes
    /// start at the program counter. Modes that name no memory operand are
    /// refused.
    pub fn get_operand_addr(&self, mode: &AddrMode) -> (r: Result<u16, CpuError>)
        ensures
            match self@.operand_addr(*mode) {
                Some(addr) => r == Ok::<u16, CpuError>(addr),
                None => r == Err::<u16, CpuError>(CpuError::AddressingMode(*mode)),
            },
    {
        match mode {
            AddrMode::Immediate => Ok(self.program_counter),
            AddrMode::Absolute => Ok(self.memory_read_u16(self.program_counter)),
            AddrMode::AbsoluteX => {
                let base = self.memory_read_u16(self.program_counter);
                proof {
                    lemma_wrapping_u16(base, self.register_x as u16);
                }
                Ok(base.wrapping_add(self.register_x as u16))
            },
            AddrMode::AbsoluteY => {
                let base = self.memory_read_u16(self.program_counter);
                proof {
                    lemma_wrapping_u16(base, self.register_y as u16);
                }
                Ok(base.wrapping_add(self.register_y as u16))
            },
            AddrMode::Indirect => {
                let ptr = self.memory_read_u16(self.program_counter);
                Ok(self.memory_read_u16(ptr))
            },
            AddrMode::IndirectX => {
                let base = self.memory_read(self.program_counter);
                let ptr = base.wrapping_add(self.register_x);
                proof {
                    lemma_wrapping_u8(base, self.register_x);
                }
                Ok(self.memory_read_zero_page_u16(ptr))
            },
            AddrMode::IndirectY => {
                let ptr = self.memory_read(self.program_counter);
                let base = self.memory_read_zero_page_u16(ptr);
                proof {
                    lemma_wrapping_u16(base, self.register_y as u16);
                }
                Ok(base.wrapping_add(self.register_y as u16))
            },
            AddrMode::ZeroPage => Ok(self.memory_read(self.program_counter) as u16),
            AddrMode::ZeroPageX => {
                let base = self.memory_read(self.program_counter);
                proof {
                    lemma_wrapping_u8(base, self.register_x);
                }
                Ok(base.wrapping_add(self.register_x) as u16)
            },
            AddrMode::ZeroPageY => {
                let base = self.memory_read(self.program_counter);
                proof {
                    lemma_wrapping_u8(base, self.register_y);
                }
                Ok(base.wrapping_add(self.register_y) as u16)
            },
            AddrMode::Accumulator => Err(CpuError::AddressingMode(AddrMode::Accumulator)),
            AddrMode::Implied => Err(CpuError::AddressingMode(AddrMode::Implied)),
            AddrMode::Relative => Err(CpuError::AddressingMode(AddrMode::Relative)),
        }
    }

    // ------------------------------------------------------------------
    // Stack
    // ------------------------------------------------------------------

    /// Stores `data` at the stack pointer, then moves the stack pointer down.
    pub fn stack_push(&mut self, data: u8)
        ensures
            final(self)@ == old(self)@.push(data),
    {
        proof {
            lemma_wrapping_u8(self.stack_ptr, 1);
        }
        self.memory_write(STACK_BASE + self.stack_ptr as u16, data);
        self.stack_ptr = self.stack_ptr.wrapping_sub(1);
    }

    /// Moves the stack pointer up, then reads the byte it names.
    pub fn stack_pop(&mut self) -> (data: u8)
        ensures
            data == old(self)@.top(),
            final(self)@ == old(self)@.pop(),
    {
        proof {
            lemma_wrapping_u8(self.stack_ptr, 1);
        }
        self.stack_ptr = self.stack_ptr.wrapping_add(1);
        self.memory_read(STACK_BASE + self.stack_ptr as u16)
    }

    /// Pushes the high byte of `data`, then the low byte.
    pub fn stack_push_u16(&mut self, data: u16)
        ensures
            final(self)@ == old(self)@.push_u16(data),
    {
        proof {
            lemma_word_bits(0, 0, data);
        }
        let low = (data & 0xff) as u8;
        let high = (data >> 8) as u8;
        self.stack_push(high);
        self.stack_push(low);
    }

    /// Pulls a low byte, then a high byte.
    pub fn stack_pop_u16(&mut self) -> (data: u16)
        ensures
            data == old(self)@.top_u16(),
            final(self)@ == old(self)@.pop().pop(),
    {
        let low = self.stack_pop();
        let high = self.stack_pop();
        proof {
            lemma_word_bits(low, high, 0);
        }
        (low as u16) | ((high as u16) << 8)
    }

    // ------------------------------------------------------------------
    // Building blocks
    // ------------------------------------------------------------------

    /// Puts `data` in the accumulator and makes Zero and Negative describe it.
    pub fn set_accumulator(&mut self, data: u8)
        ensures
            final(self)@ == old(self)@.set_accumulator(data),
    {
        self.accumulator = data;
        self.calc_token(self.accumulator);
    }

    /// Puts `data` in X and makes Zero and Negative describe it.
    pub fn set_register_x(&mut self, data: u8)
        ensures
            final(self)@ == old(self)@.set_register_x(data),
    {
        self.register_x = data;
        self.calc_token(self.register_x);
    }

    /// Puts `data` in Y and makes Zero and Negative describe it.
    pub fn set_register_y(&mut self, data: u8)
        ensures
            final(self)@ == old(self)@.set_register_y(data),
    {
        self.register_y = data;
        self.calc_token(self.register_y);
    }

    /// Adds `data` and the carry to the accumulator and updates Carry,
    /// Overflow, Zero and Negative.
    pub fn add_to_accumulator(&mut self, data: u8)
        ensures
            final(self)@ == old(self)@.add_to_accumulator(data),
    {
        let carry_in: u8 = if self.status & CARRY != 0 {
            1
        } else {
            0
        };
        let sum: u16 = self.accumulator as u16 + data as u16 + carry_in as u16;
        let result = #[verifier::truncate] (sum as u8);
        let overflow = (result ^ data) & (result ^ self.accumulator) & 0b1000_0000 != 0;
        proof {
            lemma_add_bits(self.accumulator, data, carry_in);
        }
        if sum > 255 {
            self.set_status_carry();
        } else {
            self.clear_status_carry();
        }
        if overflow {
            self.set_status_overflow();
        } else {
            self.clear_status_overflow();
        }
        self.set_accumulator(result);
    }

    /// Moves the program counter by the signed displacement it stands on,
    /// counted from the byte after it, if `condition` holds.
    pub fn branch(&mut self, condition: bool) -> (taken: bool)
        ensures
            taken == condition,
            final(self)@ == old(self)@.branch(condition),
    {
        if condition {
            let offset = self.memory_read(self.program_counter);
            let next = self.program_counter.wrapping_add(1);
            proof {
                lemma_wrapping_u16(self.program_counter, 1);
                lemma_displacement_bits(next, offset);
            }
            self.program_counter = next.wrapping_add(offset as i8 as u16);
        }
        condition
    }

    /// Compares `register` with the operand.
    pub fn compare(&mut self, register: u8, mode: &AddrMode) -> (r: Result<(), CpuError>)
        ensures
            r == old(self)@.resolves(*mode),
            final(self)@ == if r is Ok {
                old(self)@.compare(register, *mode)
            } else {
                old(self)@
            },
    {
        let addr = self.get_operand_addr(mode)?;
        let data = self.memory_read(addr);
        if data <= register {
            self.set_status_carry();
        } else {
            self.clear_status_carry();
        }
        proof {
            lemma_wrapping_u8(register, data);
        }
        self.calc_token(register.wrapping_sub(data));
        Ok(())
    }

    // ------------------------------------------------------------------
    // Loads and stores
    // ------------------------------------------------------------------
    /// Loads the accumulator from the operand.
    pub fn lda(&mut self, mode: &AddrMode) -> (r: Result<(), CpuError>)
        ensures
            r == old(self)@.accepts(Mnemonic::Lda, *mode),
            final(self)@ == if r is Ok {
                old(self)@.apply(Mnemonic::Lda, *mode)
            } else {
                old(self)@
            },
    {
        let addr = self.get_operand_addr(mode)?;
        let data = self.memory_read(addr);
        self.set_accumulator(data);
        Ok(())
    }
    /// Loads X from the operand.
    pub fn ldx(&mut self, mode: &AddrMode) -> (r: Result<(), CpuError>)
        ensures
            r == old(self)@.accepts(Mnemonic::Ldx, *mode),
            final(self)@ == if r is Ok {
                old(self)@.apply(Mnemonic::Ldx, *mode)
            } else {
                old(self)@
            },
    {
        let addr = self.get_operand_addr(mode)?;
        let data = self.memory_read(addr);
        self.set_register_x(data);
        Ok(())
    }
    /// Loads Y from the operand.
    pub fn ldy(&mut self, mode: &AddrMode) -> (r: Result<(), CpuError>)
        ensures
            r == old(self)@.accepts(Mnemonic::Ldy, *mode),
            final(self)@ == if r is Ok {
                old(self)@.apply(Mnemonic::Ldy, *mode)
            } else {
                old(self)@
            },
    {
        let addr = self.get_operand_addr(mode)?;
        let data = self.memory_read(addr);
        self.set_register_y(data);
        Ok(())
    }
    /// Stores the accumulator at the operand address.
    pub fn sta(&mut self, mode: &AddrMode) -> (r: Result<(), CpuError>)
        ensures
            r == old(self)@.accepts(Mnemonic::Sta, *mode),
            final(self)@ == if r is Ok {
                old(self)@.apply(Mnemonic::Sta, *mode)
            } else {
                old(self)@
            },
    {
        let addr = self.get_operand_addr(mode)?;
        self.memory_write(addr, self.accumulator);
        Ok(())
    }
    /// Stores X at the operand address.
    pub fn stx(&mut self, mode: &AddrMode) -> (r: Result<(), CpuError>)
        ensures
            r == old(self)@.accepts(Mnemonic::Stx, *mode),
            final(self)@ == if r is Ok {
                old(self)@.apply(Mnemonic::Stx, *mode)
            } else {
                old(self)@
            },
    {
        let addr = self.get_operand_addr(mode)?;
        self.memory_write(addr, self.register_x);
        Ok(())
    }
    /// Stores Y at the operand address.
    pub fn sty(&mut self, mode: &AddrMode) -> (r: Result<(), CpuError>)
        ensures
            r == old(self)@.accepts(Mnemonic::Sty, *mode),
            final(self)@ == if r is Ok {
                old(self)@.apply(Mnemonic::Sty, *mode)
            } else {
                old(self)@
            },
    {
        let addr = self.get_operand_addr(mode)?;
        self.memory_write(addr, self.register_y);
        Ok(())
    }
    // ------------------------------------------------------------------
    // Transfers
    // ------------------------------------------------------------------
    /// Copies the accumulator to X.
    pub fn tax(&mut self)
        ensures
            final(self)@ == old(self)@.apply(Mnemonic::Tax, AddrMode::Implied),
    {
        self.set_register_x(self.accumulator);
    }
    /// Copies the accumulator to Y.
    pub fn tay(&mut self)
        ensures
            final(self)@ == old(self)@.apply(Mnemonic::Tay, AddrMode::Implied),
    {
        self.set_register_y(self.accumulator);
    }
    /// Copies X to the accumulator.
    pub fn txa(&mut self)
        ensures
            final(self)@ == old(self)@.apply(Mnemonic::Txa, AddrMode::Implied),
    {
        self.set_accumulator(self.register_x);
    }
    /// Copies Y to the accumulator.
    pub fn tya(&mut self)
        ensures
            final(self)@ == old(self)@.apply(Mnemonic::Tya, AddrMode::Implied),
    {
        self.set_accumulator(self.register_y);
    }
    /// Copies the stack pointer to X.
    pub fn tsx(&mut self)
        ensures
            final(self)@ == old(self)@.apply(Mnemonic::Tsx, AddrMode::Implied),
    {
        self.set_register_x(self.stack_ptr);
    }
    /// Copies X to the stack pointer; no flag changes.
    pub fn txs(&mut self)
        ensures
            final(self)@ == old(self)@.apply(Mnemonic::Txs, AddrMode::Implied),
    {
        self.stack_ptr = self.register_x;
    }
    // ------------------------------------------------------------------
    // Increments and decrements
    // ------------------------------------------------------------------
    /// Adds one to X; 255 becomes 0.
    pub fn inx(&mut self)
        ensures
            final(self)@ == old(self)@.apply(Mnemonic::Inx, AddrMode::Implied),
    {
        proof {
            lemma_wrapping_u8(self.register_x, 1);
        }
        self.set_register_x(self.register_x.wrapping_add(1));
    }
    /// Adds one to Y; 255 becomes 0.
    pub fn iny(&mut self)
        ensures
            final(self)@ == old(self)@.apply(Mnemonic::Iny, AddrMode::Implied),
    {
        proof {
            lemma_wrapping_u8(self.register_y, 1);
        }
        self.set_register_y(self.register_y.wrapping_add(1));
    }
    /// Takes one from X; 0 becomes 255.
    pub fn dex(&mut self)
        ensures
            final(self)@ == old(self)@.apply(Mnemonic::Dex, AddrMode::Implied),
    {
        proof {
            lemma_wrapping_u8(self.register_x, 1);
        }
        self.set_register_x(self.register_x.wrapping_sub(1));
    }
    /// Takes one from Y; 0 becomes 255.
    pub fn dey(&mut self)
        ensures
            final(self)@ == old(self)@.apply(Mnemonic::Dey, AddrMode::Implied),
    {
        proof {
            lemma_wrapping_u8(self.register_y, 1);
        }
        self.set_register_y(self.register_y.wrapping_sub(1));
    }
    /// Adds one to the operand cell; 255 becomes 0.
    pub fn inc(&mut self, mode: &AddrMode) -> (r: Result<(), CpuError>)
        ensures
            r == old(self)@.accepts(Mnemonic::Inc, *mode),
            final(self)@ == if r is Ok {
                old(self)@.apply(Mnemonic::Inc, *mode)
            } else {
                old(self)@
            },
    {
        let addr = self.get_operand_addr(mode)?;
        let data = self.memory_read(addr);
        proof {
            lemma_wrapping_u8(data, 1);
        }
        let result = data.wrapping_add(1);
        self.memory_write(addr, result);
        self.calc_token(result);
        Ok(())
    }
    /// Takes one from the operand cell; 0 becomes 255.
    pub fn dec(&mut self, mode: &AddrMode) -> (r: Result<(), CpuError>)
        ensures
            r == old(self)@.accepts(Mnemonic::Dec, *mode),
            final(self)@ == if r is Ok {
                old(self)@.apply(Mnemonic::Dec, *mode)
            } else {
                old(self)@
            },
    {
        let addr = self.get_operand_addr(mode)?;
        let data = self.memory_read(addr);
        proof {
            lemma_wrapping_u8(data, 1);
        }
        let result = data.wrapping_sub(1);
        self.memory_write(addr, result);
        self.calc_token(result);
        Ok(())
    }
    // ------------------------------------------------------------------
    // Logic
    // ------------------------------------------------------------------
    /// ANDs the operand into the accumulator.
    pub fn and(&mut self, mode: &AddrMode) -> (r: Result<(), CpuError>)
        ensures
            r == old(self)@.accepts(Mnemonic::And, *mode),
            final(self)@ == if r is Ok {
                old(self)@.apply(Mnemonic::And, *mode)
            } else {
                old(self)@
            },
    {
        let addr = self.get_operand_addr(mode)?;
        let data = self.memory_read(addr);
        self.set_accumulator(self.accumulator & data);
        Ok(())
    }
    /// ORs the operand into the accumulator.
    pub fn ora(&mut self, mode: &AddrMode) -> (r: Result<(), CpuError>)
        ensures
            r == old(self)@.accepts(Mnemonic::Ora, *mode),
            final(self)@ == if r is Ok {
                old(self)@.apply(Mnemonic::Ora, *mode)
            } else {
                old(self)@
            },
    {
        let addr = self.get_operand_addr(mode)?;
        let data = self.memory_read(addr);
        self.set_accumulator(self.accumulator | data);
        Ok(())
    }
    /// Exclusive-ORs the operand into the accumulator.
    pub fn eor(&mut self, mode: &AddrMode) -> (r: Result<(), CpuError>)
        ensures
            r == old(self)@.accepts(Mnemonic::Eor, *mode),
            final(self)@ == if r is Ok {
                old(self)@.apply(Mnemonic::Eor, *mode)
            } else {
                old(self)@
            },
    {
        let addr = self.get_operand_addr(mode)?;
        let data = self.memory_read(addr);
        self.set_accumulator(self.accumulator ^ data);
        Ok(())
    }
    /// Tests the operand against the accumulator: Negative and Overflow copy
    /// bits 7 and 6 of the operand, Zero says that the two share no bit. The
    /// accumulator is left alone.
    pub fn bit(&mut self, mode: &AddrMode) -> (r: Result<(), CpuError>)
        ensures
            r == old(self)@.accepts(Mnemonic::Bit, *mode),
            final(self)@ == if r is Ok {
                old(self)@.apply(Mnemonic::Bit, *mode)
            } else {
                old(self)@
            },
    {
        let addr = self.get_operand_addr(mode)?;
        let data = self.memory_read(addr);
        proof {
            lemma_bit_tests(data);
        }
        if data & NEGATIVE != 0 {
            self.set_status_negative();
        } else {
            self.clear_status_negative();
        }
        if data & OVERFLOW != 0 {
            self.set_status_overflow();
        } else {
            self.clear_status_overflow();
        }
        if self.accumulator & data == 0 {
            self.set_status_zero();
        } else {
            self.clear_status_zero();
        }
        Ok(())
    }

    // ------------------------------------------------------------------
    // Arithmetic
    // ------------------------------------------------------------------

    /// Adds the operand and the carry to the accumulator.
    pub fn adc(&mut self, mode: &AddrMode) -> (r: Result<(), CpuError>)
        ensures
            r == old(self)@.accepts(Mnemonic::Adc, *mode),
            final(self)@ == if r is Ok {
                old(self)@.apply(Mnemonic::Adc, *mode)
            } else {
                old(self)@
            },
    {
        let addr = self.get_operand_addr(mode)?;
        let data = self.memory_read(addr);
        self.add_to_accumulator(data);
        Ok(())
    }

    /// Subtracts the operand and the borrow from the accumulator, as the
    /// addition of the operand's complement.
    pub fn sbc(&mut self, mode: &AddrMode) -> (r: Result<(), CpuError>)
        ensures
            r == old(self)@.accepts(Mnemonic::Sbc, *mode),
            final(self)@ == if r is Ok {
                old(self)@.apply(Mnemonic::Sbc, *mode)
            } else {
                old(self)@
            },
    {
        let addr = self.get_operand_addr(mode)?;
        let data = self.memory_read(addr);
        proof {
            lemma_bit_tests(data);
        }
        self.add_to_accumulator(!data);
        Ok(())
    }
    /// Compares the accumulator with the operand.
    pub fn cmp(&mut self, mode: &AddrMode) -> (r: Result<(), CpuError>)
        ensures
            r == old(self)@.accepts(Mnemonic::Cmp, *mode),
            final(self)@ == if r is Ok {
                old(self)@.apply(Mnemonic::Cmp, *mode)
            } else {
                old(self)@
            },
    {
        self.compare(self.accumulator, mode)
    }
    /// Compares X with the operand.
    pub fn cpx(&mut self, mode: &AddrMode) -> (r: Result<(), CpuError>)
        ensures
            r == old(self)@.accepts(Mnemonic::Cpx, *mode),
            final(self)@ == if r is Ok {
                old(self)@.apply(Mnemonic::Cpx, *mode)
            } else {
                old(self)@
            },
    {
        self.compare(self.register_x, mode)
    }
    /// Compares Y with the operand.
    pub fn cpy(&mut self, mode: &AddrMode) -> (r: Result<(), CpuError>)
        ensures
            r == old(self)@.accepts(Mnemonic::Cpy, *mode),
            final(self)@ == if r is Ok {
                old(self)@.apply(Mnemonic::Cpy, *mode)
            } else {
                old(self)@
            },
    {
        self.compare(self.register_y, mode)
    }
    // ------------------------------------------------------------------
    // Shifts and rotates
    // ------------------------------------------------------------------

    /// Reads the byte a shift works on: the accumulator under the
    /// accumulator mode, the operand otherwise.
    pub fn shift_input(&self, mode: &AddrMode) -> (r: Result<u8, CpuError>)
        ensures
            r == match self@.shift_accepts(*mode) {
                Ok(_) => Ok::<u8, CpuError>(self@.shift_input(*mode)),
                Err(e) => Err::<u8, CpuError>(e),
            },
    {
        match mode {
            AddrMode::Accumulator => Ok(self.accumulator),
            _ => {
                let addr = self.get_operand_addr(mode)?;
                Ok(self.memory_read(addr))
            },
        }
    }

    /// Puts `result` where the shifted byte came from and updates Carry,
    /// Zero and Negative.
    pub fn shift_output(&mut self, mode: &AddrMode, result: u8, carry_out: bool) -> (r: Result<
        (),
        CpuError,
    >)
        ensures
            r == old(self)@.shift_accepts(*mode),
            final(self)@ == if r is Ok {
                old(self)@.shift_output(*mode, result, carry_out)
            } else {
                old(self)@
            },
    {
        match mode {
            AddrMode::Accumulator => {
                if carry_out {
                    self.set_status_carry();
                } else {
                    self.clear_status_carry();
                }
                self.set_accumulator(result);
            },
            _ => {
                let addr = self.get_operand_addr(mode)?;
                if carry_out {
                    self.set_status_carry();
                } else {
                    self.clear_status_carry();
                }
                self.memory_write(addr, result);
                self.calc_token(result);
            },
        }
        Ok(())
    }
    /// Shifts left by one bit; bit 7 goes to Carry.
    pub fn asl(&mut self, mode: &AddrMode) -> (r: Result<(), CpuError>)
        ensures
            r == old(self)@.accepts(Mnemonic::Asl, *mode),
            final(self)@ == if r is Ok {
                old(self)@.apply(Mnemonic::Asl, *mode)
            } else {
                old(self)@
            },
    {
        let data = self.shift_input(mode)?;
        proof {
            lemma_bit_tests(data);
            lemma_shift_bits(data, 0);
        }
        self.shift_output(mode, data << 1, data & 0b1000_0000 != 0)
    }

    /// Shifts right by one bit; bit 0 goes to Carry.
    pub fn lsr(&mut self, mode: &AddrMode) -> (r: Result<(), CpuError>)
        ensures
            r == old(self)@.accepts(Mnemonic::Lsr, *mode),
            final(self)@ == if r is Ok {
                old(self)@.apply(Mnemonic::Lsr, *mode)
            } else {
                old(self)@
            },
    {
        let data = self.shift_input(mode)?;
        proof {
            lemma_bit_tests(data);
            lemma_shift_bits(data, 0);
        }
        self.shift_output(mode, data >> 1, data & 1 != 0)
    }

    /// Rotates left by one bit: Carry comes in at bit 0, bit 7 goes to Carry.
    pub fn rol(&mut self, mode: &AddrMode) -> (r: Result<(), CpuError>)
        ensures
            r == old(self)@.accepts(Mnemonic::Rol, *mode),
            final(self)@ == if r is Ok {
                old(self)@.apply(Mnemonic::Rol, *mode)
            } else {
                old(self)@
            },
    {
        let data = self.shift_input(mode)?;
        let carry_in: u8 = if self.status & CARRY != 0 {
            1
        } else {
            0
        };
        proof {
            lemma_bit_tests(data);
            lemma_shift_bits(data, carry_in);
        }
        self.shift_output(mode, (data << 1) | carry_in, data & 0b1000_0000 != 0)
    }

    /// Rotates right by one bit: Carry comes in at bit 7, bit 0 goes to Carry.
    pub fn ror(&mut self, mode: &AddrMode) -> (r: Result<(), CpuError>)
        ensures
            r == old(self)@.accepts(Mnemonic::Ror, *mode),
            final(self)@ == if r is Ok {
                old(self)@.apply(Mnemonic::Ror, *mode)
            } else {
                old(self)@
            },
    {
        let data = self.shift_input(mode)?;
        let carry_in: u8 = if self.status & CARRY != 0 {
            1
        } else {
            0
        };
        proof {
            lemma_bit_tests(data);
            lemma_shift_bits(data, carry_in);
        }
        self.shift_output(mode, (data >> 1) | (carry_in << 7), data & 1 != 0)
    }

    // ------------------------------------------------------------------
    // Branches
    // ------------------------------------------------------------------
    /// Branches if Carry is clear.
    pub fn bcc(&mut self) -> (taken: bool)
        ensures
            taken == old(self)@.branch_condition(Mnemonic::Bcc),
            final(self)@ == old(self)@.apply(Mnemonic::Bcc, AddrMode::Relative),
    {
        let condition = !self.status_flag(CARRY);
        self.branch(condition)
    }
    /// Branches if Carry is set.
    pub fn bcs(&mut self) -> (taken: bool)
        ensures
            taken == old(self)@.branch_condition(Mnemonic::Bcs),
            final(self)@ == old(self)@.apply(Mnemonic::Bcs, AddrMode::Relative),
    {
        let condition = self.status_flag(CARRY);
        self.branch(condition)
    }
    /// Branches if Zero is set.
    pub fn beq(&mut self) -> (taken: bool)
        ensures
            taken == old(self)@.branch_condition(Mnemonic::Beq),
            final(self)@ == old(self)@.apply(Mnemonic::Beq, AddrMode::Relative),
    {
        let condition = self.status_flag(ZERO);
        self.branch(condition)
    }
    /// Branches if Zero is clear.
    pub fn bne(&mut self) -> (taken: bool)
        ensures
            taken == old(self)@.branch_condition(Mnemonic::Bne),
            final(self)@ == old(self)@.apply(Mnemonic::Bne, AddrMode::Relative),
    {
        let condition = !self.status_flag(ZERO);
        self.branch(condition)
    }
    /// Branches if Negative is set.
    pub fn bmi(&mut self) -> (taken: bool)
        ensures
            taken == old(self)@.branch_condition(Mnemonic::Bmi),
            final(self)@ == old(self)@.apply(Mnemonic::Bmi, AddrMode::Relative),
    {
        let condition = self.status_flag(NEGATIVE);
        self.branch(condition)
    }
    /// Branches if Negative is clear.
    pub fn bpl(&mut self) -> (taken: bool)
        ensures
            taken == old(self)@.branch_condition(Mnemonic::Bpl),
            final(self)@ == old(self)@.apply(Mnemonic::Bpl, AddrMode::Relative),
    {
        let condition = !self.status_flag(NEGATIVE);
        self.branch(condition)
    }
    /// Branches if Overflow is clear.
    pub fn bvc(&mut self) -> (taken: bool)
        ensures
            taken == old(self)@.branch_condition(Mnemonic::Bvc),
            final(self)@ == old(self)@.apply(Mnemonic::Bvc, AddrMode::Relative),
    {
        let condition = !self.status_flag(OVERFLOW);
        self.branch(condition)
    }
    /// Branches if Overflow is set.
    pub fn bvs(&mut self) -> (taken: bool)
        ensures
            taken == old(self)@.branch_condition(Mnemonic::Bvs),
            final(self)@ == old(self)@.apply(Mnemonic::Bvs, AddrMode::Relative),
    {
        let condition = self.status_flag(OVERFLOW);
        self.branch(condition)
    }
    // ------------------------------------------------------------------
    // Jumps, calls and returns
    // ------------------------------------------------------------------

    /// Continues at the operand address.
    pub fn jmp(&mut self, mode: &AddrMode) -> (r: Result<(), CpuError>)
        ensures
            r == old(self)@.accepts(Mnemonic::Jmp, *mode),
            final(self)@ == if r is Ok {
                old(self)@.apply(Mnemonic::Jmp, *mode)
            } else {
                old(self)@
            },
    {
        let addr = self.get_operand_addr(mode)?;
        self.program_counter = addr;
        Ok(())
    }

    /// Pushes the address of the last byte of this instruction and continues
    /// at the operand address.
    pub fn jsr(&mut self, mode: &AddrMode) -> (r: Result<(), CpuError>)
        ensures
            r == old(self)@.accepts(Mnemonic::Jsr, *mode),
            final(self)@ == if r is Ok {
                old(self)@.apply(Mnemonic::Jsr, *mode)
            } else {
                old(self)@
            },
    {
        let addr = self.get_operand_addr(mode)?;
        proof {
            lemma_wrapping_u16(self.program_counter, 1);
        }
        self.stack_push_u16(self.program_counter.wrapping_add(1));
        self.program_counter = addr;
        Ok(())
    }

    /// Pulls a return address and continues at the byte after it.
    pub fn rts(&mut self)
        ensures
            final(self)@ == old(self)@.apply(Mnemonic::Rts, AddrMode::Implied),
    {
        let addr = self.stack_pop_u16();
        proof {
            lemma_wrapping_u16(addr, 1);
        }
        self.program_counter = addr.wrapping_add(1);
    }

    /// Pulls the status byte, then the program counter.
    pub fn rti(&mut self)
        ensures
            final(self)@ == old(self)@.apply(Mnemonic::Rti, AddrMode::Implied),
    {
        self.status = self.stack_pop();
        self.program_counter = self.stack_pop_u16();
    }

    // ------------------------------------------------------------------
    // Stack instructions
    // ------------------------------------------------------------------

    /// Pushes the accumulator.
    pub fn pha(&mut self)
        ensures
            final(self)@ == old(self)@.apply(Mnemonic::Pha, AddrMode::Implied),
    {
        self.stack_push(self.accumulator);
    }

    /// Pushes the status byte as it is.
    pub fn php(&mut self)
        ensures
            final(self)@ == old(self)@.apply(Mnemonic::Php, AddrMode::Implied),
    {
        self.stack_push(self.status);
    }

    /// Pulls the accumulator.
    pub fn pla(&mut self)
        ensures
            final(self)@ == old(self)@.apply(Mnemonic::Pla, AddrMode::Implied),
    {
        let data = self.stack_pop();
        self.set_accumulator(data);
    }

    /// Pulls the status byte, every bit as it was pushed.
    pub fn plp(&mut self)
        ensures
            final(self)@ == old(self)@.apply(Mnemonic::Plp, AddrMode::Implied),
    {
        self.status = self.stack_pop();
    }

    // ------------------------------------------------------------------
    // Flag instructions
    // ------------------------------------------------------------------
    /// Clears Carry.
    pub fn clc(&mut self)
        ensures
            final(self)@ == old(self)@.apply(Mnemonic::Clc, AddrMode::Implied),
    {
        self.clear_status_carry();
    }
    /// Sets Carry.
    pub fn sec(&mut self)
        ensures
            final(self)@ == old(self)@.apply(Mnemonic::Sec, AddrMode::Implied),
    {
        self.set_status_carry();
    }
    /// Clears Decimal.
    pub fn cld(&mut self)
        ensures
            final(self)@ == old(self)@.apply(Mnemonic::Cld, AddrMode::Implied),
    {
        self.clear_status_decimal();
    }
    /// Sets Decimal.
    pub fn sed(&mut self)
        ensures
            final(self)@ == old(self)@.apply(Mnemonic::Sed, AddrMode::Implied),
    {
        self.set_status_decimal();
    }
    /// Clears Interrupt-disable.
    pub fn cli(&mut self)
        ensures
            final(self)@ == old(self)@.apply(Mnemonic::Cli, AddrMode::Implied),
    {
        self.clear_status_interrupt();
    }
    /// Sets Interrupt-disable.
    pub fn sei(&mut self)
        ensures
            final(self)@ == old(self)@.apply(Mnemonic::Sei, AddrMode::Implied),
    {
        self.set_status_interrupt();
    }
    /// Clears Overflow.
    pub fn clv(&mut self)
        ensures
            final(self)@ == old(self)@.apply(Mnemonic::Clv, AddrMode::Implied),
    {
        self.clear_status_overflow();
    }

    // ------------------------------------------------------------------
    // The engine
    // ------------------------------------------------------------------

    /// What the engine does after a branch instruction.
    fn after_branch(taken: bool) -> (control: Control)
        ensures
            control == if taken {
                Control::Redirect
            } else {
                Control::Advance
            },
    {
        if taken {
            Control::Redirect
        } else {
            Control::Advance
        }
    }

    /// Runs the handler of `op`, the program counter standing on the first
    /// operand byte, and says what is to become of the program counter.
    pub fn execute(&mut self, op: &OpCode) -> (r: Result<Control, CpuError>)
        ensures
            r == old(self)@.execute(*op).1,
            final(self)@ == old(self)@.execute(*op).0,
    {
        let mode = &op.addressing_mode;
        match op.mnemonic {
            Mnemonic::Adc => {
                self.adc(mode)?;
                return Ok(Control::Advance);
            },
            Mnemonic::And => {
                self.and(mode)?;
                return Ok(Control::Advance);
            },
            Mnemonic::Asl => {
                self.asl(mode)?;
                return Ok(Control::Advance);
            },
            Mnemonic::Bcc => {
                return Ok(Self::after_branch(self.bcc()));
            },
            Mnemonic::Bcs => {
                return Ok(Self::after_branch(self.bcs()));
            },
            Mnemonic::Beq => {
                return Ok(Self::after_branch(self.beq()));
            },
            Mnemonic::Bit => {
                self.bit(mode)?;
                return Ok(Control::Advance);
            },
            Mnemonic::Bmi => {
                return Ok(Self::after_branch(self.bmi()));
            },
            Mnemonic::Bne => {
                return Ok(Self::after_branch(self.bne()));
            },
            Mnemonic::Bpl => {
                return Ok(Self::after_branch(self.bpl()));
            },
            Mnemonic::Brk => {
                return Ok(Control::Halt);
            },
            Mnemonic::Bvc => {
                return Ok(Self::after_branch(self.bvc()));
            },
            Mnemonic::Bvs => {
                return Ok(Self::after_branch(self.bvs()));
            },
            Mnemonic::Clc => {
                self.clc();
                return Ok(Control::Advance);
            },
            Mnemonic::Cld => {
                self.cld();
                return Ok(Control::Advance);
            },
            Mnemonic::Cli => {
                self.cli();
                return Ok(Control::Advance);
            },
            Mnemonic::Clv => {
                self.clv();
                return Ok(Control::Advance);
            },
            Mnemonic::Cmp => {
                self.cmp(mode)?;
                return Ok(Control::Advance);
            },
            Mnemonic::Cpx => {
                self.cpx(mode)?;
                return Ok(Control::Advance);
            },
            Mnemonic::Cpy => {
                self.cpy(mode)?;
                return Ok(Control::Advance);
            },
            Mnemonic::Dec => {
                self.dec(mode)?;
                return Ok(Control::Advance);
            },
            Mnemonic::Dex => {
                self.dex();
                return Ok(Control::Advance);
            },
            Mnemonic::Dey => {
                self.dey();
                return Ok(Control::Advance);
            },
            Mnemonic::Eor => {
                self.eor(mode)?;
                return Ok(Control::Advance);
            },
            Mnemonic::Inc => {
                self.inc(mode)?;
                return Ok(Control::Advance);
            },
            Mnemonic::Inx => {
                self.inx();
                return Ok(Control::Advance);
            },
            Mnemonic::Iny => {
                self.iny();
                return Ok(Control::Advance);
            },
            Mnemonic::Jmp => {
                self.jmp(mode)?;
                return Ok(Control::Redirect);
            },
            Mnemonic::Jsr => {
                self.jsr(mode)?;
                return Ok(Control::Redirect);
            },
            Mnemonic::Lda => {
                self.lda(mode)?;
                return Ok(Control::Advance);
            },
            Mnemonic::Ldx => {
                self.ldx(mode)?;
                return Ok(Control::Advance);
            },
            Mnemonic::Ldy => {
                self.ldy(mode)?;
                return Ok(Control::Advance);
            },
            Mnemonic::Lsr => {
                self.lsr(mode)?;
                return Ok(Control::Advance);
            },
            Mnemonic::Nop => {
                return Ok(Control::Advance);
            },
            Mnemonic::Ora => {
                self.ora(mode)?;
                return Ok(Control::Advance);
            },
            Mnemonic::Pha => {
                self.pha();
                return Ok(Control::Advance);
            },
            Mnemonic::Php => {
                self.php();
                return Ok(Control::Advance);
            },
            Mnemonic::Pla => {
                self.pla();
                return Ok(Control::Advance);
            },
            Mnemonic::Plp => {
                self.plp();
                return Ok(Control::Advance);
            },
            Mnemonic::Rol => {
                self.rol(mode)?;
                return Ok(Control::Advance);
            },
            Mnemonic::Ror => {
                self.ror(mode)?;
                return Ok(Control::Advance);
            },
            Mnemonic::Rti => {
                self.rti();
                return Ok(Control::Redirect);
            },
            Mnemonic::Rts => {
                self.rts();
                return Ok(Control::Redirect);
            },
            Mnemonic::Sbc => {
                self.sbc(mode)?;
                return Ok(Control::Advance);
            },
            Mnemonic::Sec => {
                self.sec();
                return Ok(Control::Advance);
            },
            Mnemonic::Sed => {
                self.sed();
                return Ok(Control::Advance);
            },
            Mnemonic::Sei => {
                self.sei();
                return Ok(Control::Advance);
            },
            Mnemonic::Sta => {
                self.sta(mode)?;
                return Ok(Control::Advance);
            },
            Mnemonic::Stx => {
                self.stx(mode)?;
                return Ok(Control::Advance);
            },
            Mnemonic::Sty => {
                self.sty(mode)?;
                return Ok(Control::Advance);
            },
            Mnemonic::Tax => {
                self.tax();
                return Ok(Control::Advance);
            },
            Mnemonic::Tay => {
                self.tay();
                return Ok(Control::Advance);
            },
            Mnemonic::Tsx => {
                self.tsx();
                return Ok(Control::Advance);
            },
            Mnemonic::Txa => {
                self.txa();
                return Ok(Control::Advance);
            },
            Mnemonic::Txs => {
                self.txs();
                return Ok(Control::Advance);
            },
            Mnemonic::Tya => {
                self.tya();
                return Ok(Control::Advance);
            },
        }
    }

    /// Fetches, decodes and executes one instruction, and moves the program
    /// counter to the next.
    pub fn step(&mut self) -> (r: Result<Status, CpuError>)
        ensures
            r == old(self)@.step().1,
            final(self)@ == old(self)@.step().0,
    {
        let opcode = self.memory_read(self.program_counter);
        proof {
            lemma_wrapping_u16(self.program_counter, 1);
            lemma_decode_is_entry(opcode);
        }
        self.program_counter = self.program_counter.wrapping_add(1);
        let op = lookup(opcode)?;
        let control = self.execute(&op)?;
        proof {
            lemma_wrapping_u16(self.program_counter, (op.bytes - 1) as u16);
        }
        match control {
            Control::Redirect => Ok(Status::Running),
            Control::Advance => {
                self.program_counter = self.program_counter.wrapping_add((op.bytes - 1) as u16);
                Ok(Status::Running)
            },
            Control::Halt => {
                self.program_counter = self.program_counter.wrapping_add((op.bytes - 1) as u16);
                Ok(Status::Halted)
            },
        }
    }

    /// Runs until the halt instruction retires, a fault occurs, or `limit`
    /// instructions have retired, whichever comes first.
    pub fn run_for(&mut self, limit: u64) -> (r: Result<Status, CpuError>)
        ensures
            r == old(self)@.run(limit as nat).1,
            final(self)@ == old(self)@.run(limit as nat).0,
    {
        let mut left = limit;
        while left > 0
            invariant
                old(self)@.run(limit as nat) == self@.run(left as nat),
            decreases left,
        {
            match self.step() {
                Ok(Status::Running) => {},
                outcome => {
                    return outcome;
                },
            }
            left = left - 1;
        }
        Ok(Status::Running)
    }

    /// Runs until the halt instruction retires or a fault occurs. A program
    /// that does neither is given up after `u64::MAX` instructions.
    pub fn run(&mut self) -> (r: Result<Status, CpuError>)
        ensures
            r == old(self)@.run(u64::MAX as nat).1,
            final(self)@ == old(self)@.run(u64::MAX as nat).0,
    {
        self.run_for(u64::MAX)
    }

    /// Loads `program` at `origin`, resets, and runs.
    pub fn load_and_run(&mut self, origin: u16, program: Vec<u8>) -> (r: Result<Status, CpuError>)
        ensures
            origin + program@.len() > MEMORY_SIZE ==> r == Err::<Status, CpuError>(CpuError::Range)
                && final(self)@ == old(self)@,
            origin + program@.len() <= MEMORY_SIZE ==> {
                let started = old(self)@.load(origin, program@).reset();
                r == started.run(u64::MAX as nat).1 && final(self)@ == started.run(u64::MAX as nat).0
            },
    {
        self.load(origin, program.as_slice())?;
        self.reset();
        self.run()
    }
}

} // verus!
