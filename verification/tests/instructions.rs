use nes_cpu::addressing_modes::AddrMode;
use nes_cpu::cpu::CPU;
use nes_cpu::error::CpuError;
use nes_cpu::flags::{BREAK, CARRY, DECIMAL, INTERRUPT, NEGATIVE, OVERFLOW, ZERO};

// A processor about to execute an instruction with the immediate operand `operand`.
fn immediate(operand: u8) -> CPU {
    let mut cpu = CPU::new();
    cpu.program_counter = 0x8001;
    cpu.memory_write(0x8001, operand);
    cpu
}

// A processor about to execute an instruction on the page-zero cell 0x10, which holds `data`.
fn zero_page(data: u8) -> CPU {
    let mut cpu = CPU::new();
    cpu.program_counter = 0x8001;
    cpu.memory_write(0x8001, 0x10);
    cpu.memory_write(0x0010, data);
    cpu
}

#[test]
fn flag_masks() {
    assert_eq!(NEGATIVE, 0x80);
    assert_eq!(OVERFLOW, 0x40);
    assert_eq!(BREAK, 0x10);
    assert_eq!(DECIMAL, 0x08);
    assert_eq!(INTERRUPT, 0x04);
    assert_eq!(ZERO, 0x02);
    assert_eq!(CARRY, 0x01);
}

#[test]
fn each_flag_is_set_and_cleared_alone() {
    let mut cpu = CPU::new();
    cpu.set_status_carry();
    assert_eq!(cpu.status, 0x01);
    cpu.set_status_zero();
    assert_eq!(cpu.status, 0x03);
    cpu.set_status_interrupt();
    assert_eq!(cpu.status, 0x07);
    cpu.set_status_decimal();
    assert_eq!(cpu.status, 0x0F);
    cpu.set_status_break();
    assert_eq!(cpu.status, 0x1F);
    cpu.set_status_overflow();
    assert_eq!(cpu.status, 0x5F);
    cpu.set_status_negative();
    assert_eq!(cpu.status, 0xDF);
    cpu.status = 0xFF;
    cpu.clear_status_carry();
    assert_eq!(cpu.status, 0xFE);
    cpu.clear_status_zero();
    assert_eq!(cpu.status, 0xFC);
    cpu.clear_status_interrupt();
    assert_eq!(cpu.status, 0xF8);
    cpu.clear_status_decimal();
    assert_eq!(cpu.status, 0xF0);
    cpu.clear_status_break();
    assert_eq!(cpu.status, 0xE0);
    cpu.clear_status_overflow();
    assert_eq!(cpu.status, 0xA0);
    cpu.clear_status_negative();
    assert_eq!(cpu.status, 0x20);
}

#[test]
fn status_flag_reads_one_bit() {
    let mut cpu = CPU::new();
    cpu.status = 0x41;
    assert!(cpu.status_flag(CARRY));
    assert!(cpu.status_flag(OVERFLOW));
    assert!(!cpu.status_flag(ZERO));
    assert!(!cpu.status_flag(NEGATIVE));
}

#[test]
fn zero_and_negative_describe_every_byte() {
    for start in [0x00u8, 0xFF, 0x7D, 0x82] {
        for value in 0..=255u8 {
            let mut cpu = CPU::new();
            cpu.status = start;
            cpu.calc_token(value);
            assert_eq!(cpu.status & ZERO != 0, value == 0);
            assert_eq!(cpu.status & NEGATIVE != 0, value & 0x80 != 0);
            assert_eq!(cpu.status & 0x7D, start & 0x7D);
        }
    }
}

#[test]
fn loads_set_the_register_and_the_flags() {
    let mut cpu = immediate(0xC0);
    assert_eq!(cpu.lda(&AddrMode::Immediate), Ok(()));
    assert_eq!(cpu.accumulator, 0xC0);
    assert_eq!(cpu.status, NEGATIVE);
    let mut cpu = immediate(0x00);
    assert_eq!(cpu.ldx(&AddrMode::Immediate), Ok(()));
    assert_eq!(cpu.register_x, 0x00);
    assert_eq!(cpu.status, ZERO);
    let mut cpu = zero_page(0x33);
    assert_eq!(cpu.ldy(&AddrMode::ZeroPage), Ok(()));
    assert_eq!(cpu.register_y, 0x33);
    assert_eq!(cpu.status, 0);
    assert_eq!(cpu.program_counter, 0x8001);
}

#[test]
fn stores_write_and_leave_the_flags() {
    let mut cpu = zero_page(0x00);
    cpu.accumulator = 0x80;
    cpu.register_x = 0x00;
    cpu.register_y = 0x7F;
    cpu.status = 0x41;
    assert_eq!(cpu.sta(&AddrMode::ZeroPage), Ok(()));
    assert_eq!(cpu.memory_read(0x0010), 0x80);
    assert_eq!(cpu.stx(&AddrMode::ZeroPage), Ok(()));
    assert_eq!(cpu.memory_read(0x0010), 0x00);
    assert_eq!(cpu.sty(&AddrMode::ZeroPage), Ok(()));
    assert_eq!(cpu.memory_read(0x0010), 0x7F);
    assert_eq!(cpu.status, 0x41);
}

#[test]
fn a_handler_refuses_a_mode_without_operand() {
    let mut cpu = immediate(0x55);
    cpu.accumulator = 0x11;
    cpu.status = 0x01;
    assert_eq!(cpu.lda(&AddrMode::Implied), Err(CpuError::AddressingMode(AddrMode::Implied)));
    assert_eq!(cpu.sta(&AddrMode::Relative), Err(CpuError::AddressingMode(AddrMode::Relative)));
    assert_eq!(
        cpu.adc(&AddrMode::Accumulator),
        Err(CpuError::AddressingMode(AddrMode::Accumulator))
    );
    assert_eq!(cpu.inc(&AddrMode::Implied), Err(CpuError::AddressingMode(AddrMode::Implied)));
    assert_eq!(cpu.asl(&AddrMode::Implied), Err(CpuError::AddressingMode(AddrMode::Implied)));
    assert_eq!(cpu.jmp(&AddrMode::Implied), Err(CpuError::AddressingMode(AddrMode::Implied)));
    assert_eq!(cpu.accumulator, 0x11);
    assert_eq!(cpu.status, 0x01);
    assert_eq!(cpu.program_counter, 0x8001);
    assert_eq!(cpu.memory_read(0x8001), 0x55);
}

#[test]
fn transfers_copy_and_flag() {
    let mut cpu = CPU::new();
    cpu.accumulator = 0x80;
    cpu.tax();
    assert_eq!(cpu.register_x, 0x80);
    assert_eq!(cpu.status, NEGATIVE);
    cpu.accumulator = 0x00;
    cpu.tay();
    assert_eq!(cpu.register_y, 0x00);
    assert_eq!(cpu.status, ZERO);
    cpu.register_x = 0x12;
    cpu.txa();
    assert_eq!(cpu.accumulator, 0x12);
    assert_eq!(cpu.status, 0);
    cpu.register_y = 0xFE;
    cpu.tya();
    assert_eq!(cpu.accumulator, 0xFE);
    assert_eq!(cpu.status, NEGATIVE);
    cpu.stack_ptr = 0x00;
    cpu.tsx();
    assert_eq!(cpu.register_x, 0x00);
    assert_eq!(cpu.status, ZERO);
}

#[test]
fn transfer_to_the_stack_pointer_leaves_the_flags() {
    let mut cpu = CPU::new();
    cpu.register_x = 0x00;
    cpu.status = NEGATIVE;
    cpu.txs();
    assert_eq!(cpu.stack_ptr, 0x00);
    assert_eq!(cpu.status, NEGATIVE);
    cpu.register_x = 0xFF;
    cpu.txs();
    assert_eq!(cpu.stack_ptr, 0xFF);
    assert_eq!(cpu.status, NEGATIVE);
}

#[test]
fn increment_wraps_to_zero() {
    let mut cpu = CPU::new();
    cpu.register_x = 255;
    cpu.status = NEGATIVE;
    cpu.inx();
    assert_eq!(cpu.register_x, 0);
    assert!(cpu.status & ZERO != 0);
    assert!(cpu.status & NEGATIVE == 0);
    cpu.register_y = 255;
    cpu.iny();
    assert_eq!(cpu.register_y, 0);
    assert_eq!(cpu.status, ZERO);
    cpu.register_x = 0x7F;
    cpu.inx();
    assert_eq!(cpu.register_x, 0x80);
    assert_eq!(cpu.status, NEGATIVE);
}

#[test]
fn decrement_wraps_to_255() {
    let mut cpu = CPU::new();
    cpu.register_x = 0;
    cpu.dex();
    assert_eq!(cpu.register_x, 255);
    assert!(cpu.status & NEGATIVE != 0);
    assert!(cpu.status & ZERO == 0);
    cpu.register_y = 0;
    cpu.dey();
    assert_eq!(cpu.register_y, 255);
    assert_eq!(cpu.status, NEGATIVE);
    cpu.register_y = 1;
    cpu.dey();
    assert_eq!(cpu.register_y, 0);
    assert_eq!(cpu.status, ZERO);
}

#[test]
fn memory_increment_and_decrement_wrap() {
    let mut cpu = zero_page(0xFF);
    assert_eq!(cpu.inc(&AddrMode::ZeroPage), Ok(()));
    assert_eq!(cpu.memory_read(0x0010), 0x00);
    assert_eq!(cpu.status, ZERO);
    assert_eq!(cpu.dec(&AddrMode::ZeroPage), Ok(()));
    assert_eq!(cpu.memory_read(0x0010), 0xFF);
    assert_eq!(cpu.status, NEGATIVE);
    assert_eq!(cpu.dec(&AddrMode::ZeroPage), Ok(()));
    assert_eq!(cpu.memory_read(0x0010), 0xFE);
}

#[test]
fn logic_combines_with_the_accumulator() {
    let mut cpu = immediate(0x3C);
    cpu.accumulator = 0xF0;
    assert_eq!(cpu.and(&AddrMode::Immediate), Ok(()));
    assert_eq!(cpu.accumulator, 0x30);
    assert_eq!(cpu.status, 0);
    let mut cpu = immediate(0x0C);
    cpu.accumulator = 0xF0;
    assert_eq!(cpu.ora(&AddrMode::Immediate), Ok(()));
    assert_eq!(cpu.accumulator, 0xFC);
    assert_eq!(cpu.status, NEGATIVE);
    let mut cpu = immediate(0xFF);
    cpu.accumulator = 0xFF;
    assert_eq!(cpu.eor(&AddrMode::Immediate), Ok(()));
    assert_eq!(cpu.accumulator, 0x00);
    assert_eq!(cpu.status, ZERO);
}

#[test]
fn bit_test_copies_bits_and_keeps_the_accumulator() {
    let mut cpu = zero_page(0xC0);
    cpu.accumulator = 0x0F;
    assert_eq!(cpu.bit(&AddrMode::ZeroPage), Ok(()));
    assert_eq!(cpu.accumulator, 0x0F);
    assert_eq!(cpu.status, NEGATIVE | OVERFLOW | ZERO);
    let mut cpu = zero_page(0x40);
    cpu.accumulator = 0xFF;
    cpu.status = CARRY;
    assert_eq!(cpu.bit(&AddrMode::ZeroPage), Ok(()));
    assert_eq!(cpu.status, OVERFLOW | CARRY);
    let mut cpu = zero_page(0x01);
    cpu.accumulator = 0x01;
    cpu.status = NEGATIVE | OVERFLOW | ZERO;
    assert_eq!(cpu.bit(&AddrMode::ZeroPage), Ok(()));
    assert_eq!(cpu.status, 0);
    assert_eq!(cpu.memory_read(0x0010), 0x01);
}

#[test]
fn add_with_carry_signed_overflow() {
    let mut cpu = immediate(0x50);
    cpu.accumulator = 0x50;
    assert_eq!(cpu.adc(&AddrMode::Immediate), Ok(()));
    assert_eq!(cpu.accumulator, 0xA0);
    assert!(cpu.status & CARRY == 0);
    assert!(cpu.status & OVERFLOW != 0);
    assert_eq!(cpu.status, NEGATIVE | OVERFLOW);
}

#[test]
fn add_with_carry_unsigned_carry() {
    let mut cpu = immediate(0x01);
    cpu.accumulator = 0xFF;
    assert_eq!(cpu.adc(&AddrMode::Immediate), Ok(()));
    assert_eq!(cpu.accumulator, 0x00);
    assert!(cpu.status & CARRY != 0);
    assert!(cpu.status & OVERFLOW == 0);
    assert_eq!(cpu.status, ZERO | CARRY);
}

#[test]
fn add_with_carry_takes_the_carry_in() {
    let mut cpu = immediate(0x01);
    cpu.accumulator = 0x01;
    cpu.status = CARRY;
    assert_eq!(cpu.adc(&AddrMode::Immediate), Ok(()));
    assert_eq!(cpu.accumulator, 0x03);
    assert_eq!(cpu.status, 0);
    let mut cpu = immediate(0x80);
    cpu.accumulator = 0x80;
    assert_eq!(cpu.adc(&AddrMode::Immediate), Ok(()));
    assert_eq!(cpu.accumulator, 0x00);
    assert_eq!(cpu.status, OVERFLOW | ZERO | CARRY);
    let mut cpu = immediate(0x7F);
    cpu.accumulator = 0x00;
    cpu.status = CARRY | DECIMAL;
    assert_eq!(cpu.adc(&AddrMode::Immediate), Ok(()));
    assert_eq!(cpu.accumulator, 0x80);
    assert_eq!(cpu.status, NEGATIVE | OVERFLOW | DECIMAL);
}

#[test]
fn add_to_accumulator_commits_the_sum() {
    let mut cpu = CPU::new();
    cpu.accumulator = 0x10;
    cpu.add_to_accumulator(0x22);
    assert_eq!(cpu.accumulator, 0x32);
    assert_eq!(cpu.status, 0);
}

#[test]
fn subtract_with_carry() {
    let mut cpu = immediate(0x30);
    cpu.accumulator = 0x50;
    cpu.status = CARRY;
    assert_eq!(cpu.sbc(&AddrMode::Immediate), Ok(()));
    assert_eq!(cpu.accumulator, 0x20);
    assert_eq!(cpu.status, CARRY);
    let mut cpu = immediate(0xB0);
    cpu.accumulator = 0x50;
    cpu.status = CARRY;
    assert_eq!(cpu.sbc(&AddrMode::Immediate), Ok(()));
    assert_eq!(cpu.accumulator, 0xA0);
    assert_eq!(cpu.status, NEGATIVE | OVERFLOW);
    let mut cpu = immediate(0x01);
    cpu.accumulator = 0x00;
    cpu.status = CARRY;
    assert_eq!(cpu.sbc(&AddrMode::Immediate), Ok(()));
    assert_eq!(cpu.accumulator, 0xFF);
    assert_eq!(cpu.status, NEGATIVE);
    let mut cpu = immediate(0x05);
    cpu.accumulator = 0x05;
    assert_eq!(cpu.sbc(&AddrMode::Immediate), Ok(()));
    assert_eq!(cpu.accumulator, 0xFF);
    assert_eq!(cpu.status, NEGATIVE);
    let mut cpu = immediate(0x05);
    cpu.accumulator = 0x05;
    cpu.status = CARRY;
    assert_eq!(cpu.sbc(&AddrMode::Immediate), Ok(()));
    assert_eq!(cpu.accumulator, 0x00);
    assert_eq!(cpu.status, ZERO | CARRY);
}

#[test]
fn compare_equal_sets_carry_and_zero() {
    let mut cpu = immediate(0x05);
    cpu.accumulator = 0x05;
    assert_eq!(cpu.cmp(&AddrMode::Immediate), Ok(()));
    assert!(cpu.status & CARRY != 0);
    assert!(cpu.status & ZERO != 0);
    assert_eq!(cpu.status, ZERO | CARRY);
    assert_eq!(cpu.accumulator, 0x05);
}

#[test]
fn compare_below_sets_negative() {
    let mut cpu = immediate(0x05);
    cpu.accumulator = 0x03;
    cpu.status = CARRY | ZERO;
    assert_eq!(cpu.cmp(&AddrMode::Immediate), Ok(()));
    assert!(cpu.status & CARRY == 0);
    assert!(cpu.status & ZERO == 0);
    assert!(cpu.status & NEGATIVE != 0);
    assert_eq!(cpu.status, NEGATIVE);
    assert_eq!(cpu.accumulator, 0x03);
}

#[test]
fn compare_index_registers() {
    let mut cpu = immediate(0x01);
    cpu.register_x = 0x80;
    assert_eq!(cpu.cpx(&AddrMode::Immediate), Ok(()));
    assert_eq!(cpu.status, CARRY);
    assert_eq!(cpu.register_x, 0x80);
    let mut cpu = immediate(0xFF);
    cpu.register_y = 0x00;
    assert_eq!(cpu.cpy(&AddrMode::Immediate), Ok(()));
    assert_eq!(cpu.status, 0);
    assert_eq!(cpu.register_y, 0x00);
    let mut cpu = immediate(0x10);
    assert_eq!(cpu.compare(0x90, &AddrMode::Immediate), Ok(()));
    assert_eq!(cpu.status, NEGATIVE | CARRY);
}

#[test]
fn shift_left() {
    let mut cpu = CPU::new();
    cpu.accumulator = 0x81;
    assert_eq!(cpu.asl(&AddrMode::Accumulator), Ok(()));
    assert_eq!(cpu.accumulator, 0x02);
    assert_eq!(cpu.status, CARRY);
    let mut cpu = zero_page(0x40);
    cpu.accumulator = 0x11;
    cpu.status = CARRY;
    assert_eq!(cpu.asl(&AddrMode::ZeroPage), Ok(()));
    assert_eq!(cpu.memory_read(0x0010), 0x80);
    assert_eq!(cpu.accumulator, 0x11);
    assert_eq!(cpu.status, NEGATIVE);
    let mut cpu = CPU::new();
    cpu.accumulator = 0x80;
    assert_eq!(cpu.asl(&AddrMode::Accumulator), Ok(()));
    assert_eq!(cpu.accumulator, 0x00);
    assert_eq!(cpu.status, ZERO | CARRY);
}

#[test]
fn shift_right() {
    let mut cpu = CPU::new();
    cpu.accumulator = 0x01;
    assert_eq!(cpu.lsr(&AddrMode::Accumulator), Ok(()));
    assert_eq!(cpu.accumulator, 0x00);
    assert_eq!(cpu.status, ZERO | CARRY);
    let mut cpu = zero_page(0xFE);
    cpu.status = CARRY | NEGATIVE;
    assert_eq!(cpu.lsr(&AddrMode::ZeroPage), Ok(()));
    assert_eq!(cpu.memory_read(0x0010), 0x7F);
    assert_eq!(cpu.status, 0);
}

#[test]
fn rotate_left() {
    let mut cpu = CPU::new();
    cpu.accumulator = 0x80;
    cpu.status = CARRY;
    assert_eq!(cpu.rol(&AddrMode::Accumulator), Ok(()));
    assert_eq!(cpu.accumulator, 0x01);
    assert_eq!(cpu.status, CARRY);
    let mut cpu = zero_page(0x40);
    assert_eq!(cpu.rol(&AddrMode::ZeroPage), Ok(()));
    assert_eq!(cpu.memory_read(0x0010), 0x80);
    assert_eq!(cpu.status, NEGATIVE);
    let mut cpu = CPU::new();
    cpu.accumulator = 0x80;
    assert_eq!(cpu.rol(&AddrMode::Accumulator), Ok(()));
    assert_eq!(cpu.accumulator, 0x00);
    assert_eq!(cpu.status, ZERO | CARRY);
}

#[test]
fn rotate_right() {
    let mut cpu = CPU::new();
    cpu.accumulator = 0x01;
    cpu.status = CARRY;
    assert_eq!(cpu.ror(&AddrMode::Accumulator), Ok(()));
    assert_eq!(cpu.accumulator, 0x80);
    assert_eq!(cpu.status, NEGATIVE | CARRY);
    let mut cpu = zero_page(0x02);
    assert_eq!(cpu.ror(&AddrMode::ZeroPage), Ok(()));
    assert_eq!(cpu.memory_read(0x0010), 0x01);
    assert_eq!(cpu.status, 0);
    let mut cpu = CPU::new();
    cpu.accumulator = 0x01;
    assert_eq!(cpu.ror(&AddrMode::Accumulator), Ok(()));
    assert_eq!(cpu.accumulator, 0x00);
    assert_eq!(cpu.status, ZERO | CARRY);
}

#[test]
fn shift_helpers() {
    let mut cpu = zero_page(0x5A);
    cpu.accumulator = 0xA5;
    assert_eq!(cpu.shift_input(&AddrMode::Accumulator), Ok(0xA5));
    assert_eq!(cpu.shift_input(&AddrMode::ZeroPage), Ok(0x5A));
    assert_eq!(
        cpu.shift_input(&AddrMode::Relative),
        Err(CpuError::AddressingMode(AddrMode::Relative))
    );
    assert_eq!(cpu.shift_output(&AddrMode::ZeroPage, 0x00, true), Ok(()));
    assert_eq!(cpu.memory_read(0x0010), 0x00);
    assert_eq!(cpu.accumulator, 0xA5);
    assert_eq!(cpu.status, ZERO | CARRY);
    assert_eq!(cpu.shift_output(&AddrMode::Accumulator, 0x81, false), Ok(()));
    assert_eq!(cpu.accumulator, 0x81);
    assert_eq!(cpu.status, NEGATIVE);
    assert_eq!(
        cpu.shift_output(&AddrMode::Implied, 0x01, true),
        Err(CpuError::AddressingMode(AddrMode::Implied))
    );
    assert_eq!(cpu.accumulator, 0x81);
    assert_eq!(cpu.status, NEGATIVE);
}

#[test]
fn branch_backwards_when_taken() {
    // the branch instruction is at 0x8000, its displacement at 0x8001
    let mut cpu = immediate(0xFC);
    assert!(cpu.bcc());
    assert_eq!(cpu.program_counter, 0x7FFE);
    assert_eq!(cpu.status, 0);
}

#[test]
fn branch_forwards_when_taken() {
    let mut cpu = immediate(0x7F);
    cpu.status = ZERO;
    assert!(cpu.beq());
    assert_eq!(cpu.program_counter, 0x8081);
    assert_eq!(cpu.status, ZERO);
}

#[test]
fn branch_not_taken_changes_nothing() {
    let mut cpu = immediate(0xFC);
    cpu.status = CARRY;
    assert!(!cpu.bcc());
    assert_eq!(cpu.program_counter, 0x8001);
    assert_eq!(cpu.status, CARRY);
    assert!(!cpu.branch(false));
    assert_eq!(cpu.program_counter, 0x8001);
}

#[test]
fn branch_wraps_around_memory() {
    let mut cpu = CPU::new();
    cpu.program_counter = 0x0001;
    cpu.memory_write(0x0001, 0x80);
    assert!(cpu.branch(true));
    assert_eq!(cpu.program_counter, 0xFF82);
    let mut cpu = CPU::new();
    cpu.program_counter = 0xFFFF;
    cpu.memory_write(0xFFFF, 0x01);
    assert!(cpu.branch(true));
    assert_eq!(cpu.program_counter, 0x0001);
}

#[test]
fn each_branch_tests_its_flag() {
    let taken = |status: u8| -> Vec<bool> {
        let mut results: Vec<bool> = Vec::new();
        let mut cpu = immediate(0x10);
        cpu.status = status;
        results.push(cpu.bcc());
        let mut cpu = immediate(0x10);
        cpu.status = status;
        results.push(cpu.bcs());
        let mut cpu = immediate(0x10);
        cpu.status = status;
        results.push(cpu.bne());
        let mut cpu = immediate(0x10);
        cpu.status = status;
        results.push(cpu.beq());
        let mut cpu = immediate(0x10);
        cpu.status = status;
        results.push(cpu.bpl());
        let mut cpu = immediate(0x10);
        cpu.status = status;
        results.push(cpu.bmi());
        let mut cpu = immediate(0x10);
        cpu.status = status;
        results.push(cpu.bvc());
        let mut cpu = immediate(0x10);
        cpu.status = status;
        results.push(cpu.bvs());
        results
    };
    assert_eq!(taken(0x00), vec![true, false, true, false, true, false, true, false]);
    assert_eq!(taken(0xC3), vec![false, true, false, true, false, true, false, true]);
    assert_eq!(taken(CARRY), vec![false, true, true, false, true, false, true, false]);
    assert_eq!(taken(ZERO), vec![true, false, false, true, true, false, true, false]);
    assert_eq!(taken(NEGATIVE), vec![true, false, true, false, false, true, true, false]);
    assert_eq!(taken(OVERFLOW), vec![true, false, true, false, true, false, false, true]);
}

#[test]
fn push_writes_then_moves_down() {
    let mut cpu = CPU::new();
    cpu.stack_ptr = 0xFF;
    cpu.stack_push(0xAB);
    assert_eq!(cpu.memory_read(0x01FF), 0xAB);
    assert_eq!(cpu.stack_ptr, 0xFE);
    assert_eq!(cpu.stack_pop(), 0xAB);
    assert_eq!(cpu.stack_ptr, 0xFF);
}

#[test]
fn stack_pointer_wraps() {
    let mut cpu = CPU::new();
    cpu.stack_push(0x11);
    assert_eq!(cpu.memory_read(0x0100), 0x11);
    assert_eq!(cpu.stack_ptr, 0xFF);
    cpu.stack_push(0x22);
    assert_eq!(cpu.memory_read(0x01FF), 0x22);
    assert_eq!(cpu.stack_ptr, 0xFE);
    assert_eq!(cpu.stack_pop(), 0x22);
    assert_eq!(cpu.stack_pop(), 0x11);
    assert_eq!(cpu.stack_ptr, 0x00);
}

#[test]
fn words_go_on_the_stack_high_byte_first() {
    let mut cpu = CPU::new();
    cpu.stack_ptr = 0xFF;
    cpu.stack_push_u16(0x1234);
    assert_eq!(cpu.memory_read(0x01FF), 0x12);
    assert_eq!(cpu.memory_read(0x01FE), 0x34);
    assert_eq!(cpu.stack_ptr, 0xFD);
    assert_eq!(cpu.stack_pop_u16(), 0x1234);
    assert_eq!(cpu.stack_ptr, 0xFF);
}

#[test]
fn accumulator_goes_through_the_stack() {
    let mut cpu = CPU::new();
    cpu.stack_ptr = 0xFF;
    cpu.accumulator = 0x80;
    cpu.pha();
    assert_eq!(cpu.memory_read(0x01FF), 0x80);
    assert_eq!(cpu.status, 0);
    cpu.accumulator = 0x01;
    cpu.pla();
    assert_eq!(cpu.accumulator, 0x80);
    assert_eq!(cpu.status, NEGATIVE);
    assert_eq!(cpu.stack_ptr, 0xFF);
}

#[test]
fn status_goes_through_the_stack_verbatim() {
    for status in 0..=255u8 {
        let mut cpu = CPU::new();
        cpu.stack_ptr = 0xFF;
        cpu.status = status;
        cpu.php();
        assert_eq!(cpu.memory_read(0x01FF), status);
        cpu.status = !status;
        cpu.plp();
        assert_eq!(cpu.status, status);
        assert_eq!(cpu.stack_ptr, 0xFF);
    }
}

#[test]
fn jump_sets_the_program_counter() {
    let mut cpu = CPU::new();
    cpu.program_counter = 0x8001;
    cpu.memory_write_u16(0x8001, 0x1234);
    cpu.memory_write_u16(0x1234, 0xBEEF);
    assert_eq!(cpu.jmp(&AddrMode::Absolute), Ok(()));
    assert_eq!(cpu.program_counter, 0x1234);
    cpu.program_counter = 0x8001;
    assert_eq!(cpu.jmp(&AddrMode::Indirect), Ok(()));
    assert_eq!(cpu.program_counter, 0xBEEF);
}

#[test]
fn call_pushes_the_last_byte_of_the_call() {
    let mut cpu = CPU::new();
    cpu.stack_ptr = 0xFF;
    cpu.program_counter = 0x8001;
    cpu.memory_write_u16(0x8001, 0x9000);
    assert_eq!(cpu.jsr(&AddrMode::Absolute), Ok(()));
    assert_eq!(cpu.program_counter, 0x9000);
    assert_eq!(cpu.memory_read(0x01FF), 0x80);
    assert_eq!(cpu.memory_read(0x01FE), 0x02);
    assert_eq!(cpu.stack_ptr, 0xFD);
    cpu.rts();
    assert_eq!(cpu.program_counter, 0x8003);
    assert_eq!(cpu.stack_ptr, 0xFF);
}

#[test]
fn return_from_interrupt_pulls_status_then_address() {
    let mut cpu = CPU::new();
    cpu.stack_ptr = 0xFF;
    cpu.stack_push_u16(0x4321);
    cpu.stack_push(0xC3);
    cpu.rti();
    assert_eq!(cpu.status, 0xC3);
    assert_eq!(cpu.program_counter, 0x4321);
    assert_eq!(cpu.stack_ptr, 0xFF);
}

#[test]
fn flag_instructions_touch_one_bit() {
    let mut cpu = CPU::new();
    cpu.sec();
    assert_eq!(cpu.status, CARRY);
    cpu.sed();
    assert_eq!(cpu.status, CARRY | DECIMAL);
    cpu.sei();
    assert_eq!(cpu.status, CARRY | DECIMAL | INTERRUPT);
    cpu.status = 0xFF;
    cpu.clc();
    assert_eq!(cpu.status, 0xFE);
    cpu.cld();
    assert_eq!(cpu.status, 0xF6);
    cpu.cli();
    assert_eq!(cpu.status, 0xF2);
    cpu.clv();
    assert_eq!(cpu.status, 0xB2);
}

#[test]
fn register_setters_flag_their_value() {
    let mut cpu = CPU::new();
    cpu.set_accumulator(0x00);
    assert_eq!(cpu.status, ZERO);
    cpu.set_register_x(0xFF);
    assert_eq!(cpu.register_x, 0xFF);
    assert_eq!(cpu.status, NEGATIVE);
    cpu.set_register_y(0x01);
    assert_eq!(cpu.register_y, 0x01);
    assert_eq!(cpu.status, 0);
    assert_eq!(cpu.status & BREAK, 0);
}
