//! What holds of the processor model, beyond what each function promises
//! of itself.

use vstd::prelude::*;
use crate::addressing_modes::AddrMode;
use crate::bits::{lemma_add_bits, lemma_bit_tests};
use crate::cpu::CPU;
use crate::error::CpuError;
use crate::flags::{
    flag, lemma_with_flag, lemma_with_zn, with_zn, CARRY, NEGATIVE, OVERFLOW, ZERO,
};
use crate::ops_codes::{decode, lemma_decode_is_entry, opcode_for, Mnemonic};
use crate::state::{signed, wrap16, wrap8, State, Status};

verus! {

/// The byte that Zero and Negative describe once `mnemonic` has run on
/// `before`, or `None` for an instruction that does not apply the two flags
/// to a result.
pub open spec fn flagged_result(before: State, mnemonic: Mnemonic, mode: AddrMode) -> Option<u8> {
    let after = before.apply(mnemonic, mode);
    match mnemonic {
        Mnemonic::Lda | Mnemonic::Txa | Mnemonic::Tya | Mnemonic::Pla | Mnemonic::And
        | Mnemonic::Ora | Mnemonic::Eor | Mnemonic::Adc | Mnemonic::Sbc => Some(after.accumulator),
        Mnemonic::Ldx | Mnemonic::Tax | Mnemonic::Tsx | Mnemonic::Inx | Mnemonic::Dex => Some(
            after.register_x,
        ),
        Mnemonic::Ldy | Mnemonic::Tay | Mnemonic::Iny | Mnemonic::Dey => Some(after.register_y),
        Mnemonic::Inc | Mnemonic::Dec => Some(after.read(before.target(mode))),
        Mnemonic::Asl | Mnemonic::Lsr | Mnemonic::Rol | Mnemonic::Ror => Some(
            if mode == AddrMode::Accumulator {
                after.accumulator
            } else {
                after.read(before.target(mode))
            },
        ),
        Mnemonic::Cmp => Some(wrap8(before.accumulator - before.operand(mode))),
        Mnemonic::Cpx => Some(wrap8(before.register_x - before.operand(mode))),
        Mnemonic::Cpy => Some(wrap8(before.register_y - before.operand(mode))),
        _ => None,
    }
}

/// The memory of a processor always has a cell for every address.
pub proof fn lemma_view_wf(cpu: CPU)
    ensures
        cpu@.wf(),
{
}

/// After every instruction that applies Zero and Negative to a result, Zero
/// is set exactly when that result is 0 and Negative exactly when its bit 7
/// is 1.
pub proof fn lemma_zero_negative_describe_result(before: State, mnemonic: Mnemonic, mode: AddrMode)
    requires
        before.wf(),
    ensures
        flagged_result(before, mnemonic, mode) matches Some(v) ==> {
            let after = before.apply(mnemonic, mode);
            &&& after.flag(ZERO) <==> v == 0
            &&& after.flag(NEGATIVE) <==> v & 0x80 != 0
        },
{
    match flagged_result(before, mnemonic, mode) {
        Some(v) => {
            assert forall|status: u8| #![trigger with_zn(status, v)]
                (flag(with_zn(status, v), ZERO) <==> v == 0) && (flag(
                    with_zn(status, v),
                    NEGATIVE,
                ) <==> v & 0x80 != 0) by {
                lemma_with_zn(status, v, CARRY);
            }
        },
        None => {},
    }
}

/// Indexing within page zero never leaves page zero: the effective address
/// is the sum of operand byte and index register modulo 256, whatever carry
/// the sum has out of the low byte.
pub proof fn lemma_zero_page_indexed(s: State)
    ensures
        s.operand_addr(AddrMode::ZeroPageX) == Some(
            ((s.read(s.program_counter) + s.register_x) % 256) as u16,
        ),
        s.operand_addr(AddrMode::ZeroPageY) == Some(
            ((s.read(s.program_counter) + s.register_y) % 256) as u16,
        ),
        s.target(AddrMode::ZeroPageX) < 0x100,
        s.target(AddrMode::ZeroPageY) < 0x100,
{
}

/// Indexing an absolute address carries into the high byte: the effective
/// address is the sum of base and index register modulo 65536.
pub proof fn lemma_absolute_indexed(s: State)
    ensures
        s.target(AddrMode::AbsoluteX) == (s.read_u16(s.program_counter) + s.register_x) % 0x1_0000,
        s.target(AddrMode::AbsoluteY) == (s.read_u16(s.program_counter) + s.register_y) % 0x1_0000,
{
}

/// Incrementing and decrementing a register wrap modulo 256, and each
/// undoes the other.
pub proof fn lemma_increment_decrement(s: State)
    ensures
        s.apply(Mnemonic::Inx, AddrMode::Implied).register_x == (s.register_x + 1) % 256,
        s.apply(Mnemonic::Dex, AddrMode::Implied).register_x == (s.register_x - 1) % 256,
        s.apply(Mnemonic::Iny, AddrMode::Implied).register_y == (s.register_y + 1) % 256,
        s.apply(Mnemonic::Dey, AddrMode::Implied).register_y == (s.register_y - 1) % 256,
        s.apply(Mnemonic::Inx, AddrMode::Implied).apply(Mnemonic::Dex, AddrMode::Implied).register_x
            == s.register_x,
        s.apply(Mnemonic::Iny, AddrMode::Implied).apply(Mnemonic::Dey, AddrMode::Implied).register_y
            == s.register_y,
{
}

/// A second reset in a row changes nothing.
pub proof fn lemma_reset_idempotent(s: State)
    ensures
        s.reset().reset() == s.reset(),
{
}

/// A reset leaves memory alone and clears every register but the program
/// counter.
pub proof fn lemma_reset_registers(s: State)
    ensures
        s.reset().memory == s.memory,
        s.reset().accumulator == 0,
        s.reset().register_x == 0,
        s.reset().register_y == 0,
        s.reset().stack_ptr == 0,
        s.reset().status == 0,
{
}

/// Every instruction of the instruction set stands under a mode that its
/// handler can work with, so executing what was decoded never faults.
pub proof fn lemma_decoded_is_accepted(s: State, opcode: u8)
    ensures
        decode(opcode) matches Some(op) ==> s.accepts(op.mnemonic, op.addressing_mode) is Ok,
{
    lemma_decode_is_entry(opcode);
}

/// A step faults only on a byte that is no opcode, and then with the decode
/// fault that names the byte.
pub proof fn lemma_step_fault(s: State)
    ensures
        s.step().1 is Err <==> decode(s.read(s.program_counter)) is None,
        s.step().1 is Err ==> s.step().1 == Err::<Status, CpuError>(
            CpuError::Decode(s.read(s.program_counter)),
        ) && s.step().0 == s.advance(1),
{
    lemma_decoded_is_accepted(s.advance(1), s.read(s.program_counter));
}

/// Instructions keep memory whole.
pub proof fn lemma_apply_wf(s: State, mnemonic: Mnemonic, mode: AddrMode)
    requires
        s.wf(),
    ensures
        s.apply(mnemonic, mode).wf(),
{
}

/// Running keeps memory whole.
pub proof fn lemma_run_wf(s: State, limit: nat)
    requires
        s.wf(),
    ensures
        s.step().0.wf(),
        s.run(limit).0.wf(),
    decreases limit,
{
    let opcode = s.read(s.program_counter);
    match decode(opcode) {
        Some(op) => lemma_apply_wf(s.advance(1), op.mnemonic, op.addressing_mode),
        None => {},
    }
    if limit > 0 {
        lemma_run_wf(s.step().0, (limit - 1) as nat);
    }
}

/// Running in two stretches is running in one: a processor that is still
/// running after `first` instructions and then runs `second` more is where
/// a single run of `first + second` would have left it.
pub proof fn lemma_run_split(s: State, first: nat, second: nat)
    ensures
        s.run(first + second) == if s.run(first).1 == Ok::<Status, CpuError>(Status::Running) {
            s.run(first).0.run(second)
        } else {
            s.run(first)
        },
    decreases first,
{
    if first > 0 {
        let (next, outcome) = s.step();
        if outcome == Ok::<Status, CpuError>(Status::Running) {
            lemma_run_split(next, (first - 1) as nat, second);
            assert(s.run(first + second) == next.run((first + second - 1) as nat));
        }
    }
}

/// What was pushed last is pulled first, and the stack pointer is back
/// where it was.
pub proof fn lemma_push_pull(s: State, data: u8)
    requires
        s.wf(),
    ensures
        s.push(data).top() == data,
        s.push(data).pop().stack_ptr == s.stack_ptr,
        s.push(data).pop() == s.write(s.stack_addr(), data),
{
}

/// A word pushed is the word pulled.
pub proof fn lemma_push_pull_u16(s: State, data: u16)
    requires
        s.wf(),
    ensures
        s.push_u16(data).top_u16() == data,
        s.push_u16(data).pop().pop().stack_ptr == s.stack_ptr,
{
}

/// A return that follows a call continues at the instruction after the
/// call: three bytes past its opcode.
pub proof fn lemma_call_return(s: State)
    requires
        s.wf(),
    ensures
        s.apply(Mnemonic::Jsr, AddrMode::Absolute).apply(
            Mnemonic::Rts,
            AddrMode::Implied,
        ).program_counter == wrap16(s.program_counter + 2),
        s.apply(Mnemonic::Jsr, AddrMode::Absolute).apply(Mnemonic::Rts, AddrMode::Implied).stack_ptr
            == s.stack_ptr,
{
    lemma_push_pull_u16(s, wrap16(s.program_counter + 1));
}

/// Pulling the status byte restores every flag bit that was pushed.
pub proof fn lemma_push_pull_status(s: State)
    requires
        s.wf(),
    ensures
        s.apply(Mnemonic::Php, AddrMode::Implied).apply(Mnemonic::Plp, AddrMode::Implied).status
            == s.status,
{
    lemma_push_pull(s, s.status);
}

/// Add with carry: the accumulator takes the sum modulo 256, Carry is set
/// exactly when the unsigned sum exceeds 255, and Overflow exactly when the
/// sign bits of result and operand, and of result and old accumulator, both
/// differ.
pub proof fn lemma_add_with_carry(s: State, data: u8)
    ensures
        ({
            let after = s.add_to_accumulator(data);
            let result = after.accumulator;
            &&& result == (s.accumulator + data + s.carry()) % 256
            &&& after.flag(CARRY) <==> s.accumulator + data + s.carry() > 255
            &&& after.flag(OVERFLOW) <==> (result ^ data) & (result ^ s.accumulator) & 0x80 != 0
        }),
{
    let carry: u8 = if s.flag(CARRY) {
        1
    } else {
        0
    };
    lemma_add_bits(s.accumulator, data, carry);
    let sum = s.accumulator + data + s.carry();
    let signed_sum = signed(s.accumulator) + signed(data) + s.carry();
    let s1 = s.set_flag(CARRY, sum > 0xFF);
    let s2 = s1.set_flag(OVERFLOW, signed_sum < -0x80 || signed_sum > 0x7F);
    lemma_with_flag(s.status, CARRY, sum > 0xFF, OVERFLOW);
    lemma_with_flag(s1.status, OVERFLOW, signed_sum < -0x80 || signed_sum > 0x7F, CARRY);
    lemma_with_zn(s2.status, wrap8(sum), CARRY);
    lemma_with_zn(s2.status, wrap8(sum), OVERFLOW);
}

/// Subtract with carry: the accumulator takes the difference less the
/// borrow, modulo 256, and Carry is set exactly when no borrow was needed.
pub proof fn lemma_subtract_with_carry(s: State, mode: AddrMode)
    ensures
        ({
            let after = s.apply(Mnemonic::Sbc, mode);
            let difference = s.accumulator - s.operand(mode) - (1 - s.carry());
            &&& after.accumulator == difference % 256
            &&& after.flag(CARRY) <==> difference >= 0
        }),
{
    let data = (0xFF - s.operand(mode)) as u8;
    lemma_add_with_carry(s, data);
}

/// Compare: Carry is set exactly when the register is not below the
/// operand, Zero exactly when the two are equal, and the register itself is
/// unchanged.
pub proof fn lemma_compare(s: State, register: u8, mode: AddrMode)
    ensures
        ({
            let after = s.compare(register, mode);
            &&& after.flag(CARRY) <==> register >= s.operand(mode)
            &&& after.flag(ZERO) <==> register == s.operand(mode)
            &&& after.flag(NEGATIVE) <==> (register - s.operand(mode)) % 256 >= 0x80
            &&& after.accumulator == s.accumulator
            &&& after.register_x == s.register_x
            &&& after.register_y == s.register_y
            &&& after.memory == s.memory
        }),
{
    let data = s.operand(mode);
    let s1 = s.set_flag(CARRY, register >= data);
    lemma_with_flag(s.status, CARRY, register >= data, ZERO);
    lemma_with_zn(s1.status, wrap8(register - data), CARRY);
    lemma_bit_tests(wrap8(register - data));
}

/// A branch that is taken continues at the address after the branch
/// instruction plus the signed displacement; the flags are left alone.
pub proof fn lemma_branch_target(s: State, mnemonic: Mnemonic)
    requires
        s.branch_condition(mnemonic),
    ensures
        s.apply(mnemonic, AddrMode::Relative).program_counter == (s.program_counter + 1 + signed(
            s.read(s.program_counter),
        )) % 0x1_0000,
        s.apply(mnemonic, AddrMode::Relative).status == s.status,
{
}

/// Every mnemonic has at least one encoding.
pub proof fn lemma_every_mnemonic_encoded(mnemonic: Mnemonic)
    ensures
        exists|mode: AddrMode| opcode_for(mnemonic, mode) is Some,
{
    let mode = match mnemonic {
        Mnemonic::Bcc | Mnemonic::Bcs | Mnemonic::Beq | Mnemonic::Bmi | Mnemonic::Bne
        | Mnemonic::Bpl | Mnemonic::Bvc | Mnemonic::Bvs => AddrMode::Relative,
        Mnemonic::Adc | Mnemonic::And | Mnemonic::Asl | Mnemonic::Bit | Mnemonic::Cmp
        | Mnemonic::Cpx | Mnemonic::Cpy | Mnemonic::Dec | Mnemonic::Eor | Mnemonic::Inc
        | Mnemonic::Jmp | Mnemonic::Jsr | Mnemonic::Lda | Mnemonic::Ldx | Mnemonic::Ldy
        | Mnemonic::Lsr | Mnemonic::Ora | Mnemonic::Rol | Mnemonic::Ror | Mnemonic::Sbc
        | Mnemonic::Sta | Mnemonic::Stx | Mnemonic::Sty => AddrMode::Absolute,
        _ => AddrMode::Implied,
    };
    assert(opcode_for(mnemonic, mode) is Some);
}

} // verus!
