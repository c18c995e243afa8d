use nes_cpu::addressing_modes::AddrMode;
use nes_cpu::error::CpuError;
use nes_cpu::ops_codes::{lookup, Mnemonic, OpCode};

// The instruction set, one row per opcode: byte, mnemonic, mode, length, cycles.
fn instruction_set() -> Vec<(u8, Mnemonic, AddrMode, u8, u8)> {
    vec![
        (0x00, Mnemonic::Brk, AddrMode::Implied, 1, 7),
        (0x01, Mnemonic::Ora, AddrMode::IndirectX, 2, 6),
        (0x05, Mnemonic::Ora, AddrMode::ZeroPage, 2, 3),
        (0x06, Mnemonic::Asl, AddrMode::ZeroPage, 2, 5),
        (0x08, Mnemonic::Php, AddrMode::Implied, 1, 3),
        (0x09, Mnemonic::Ora, AddrMode::Immediate, 2, 2),
        (0x0A, Mnemonic::Asl, AddrMode::Accumulator, 1, 2),
        (0x0D, Mnemonic::Ora, AddrMode::Absolute, 3, 4),
        (0x0E, Mnemonic::Asl, AddrMode::Absolute, 3, 6),
        (0x10, Mnemonic::Bpl, AddrMode::Relative, 2, 2),
        (0x11, Mnemonic::Ora, AddrMode::IndirectY, 2, 5),
        (0x15, Mnemonic::Ora, AddrMode::ZeroPageX, 2, 4),
        (0x16, Mnemonic::Asl, AddrMode::ZeroPageX, 2, 6),
        (0x18, Mnemonic::Clc, AddrMode::Implied, 1, 2),
        (0x19, Mnemonic::Ora, AddrMode::AbsoluteY, 3, 4),
        (0x1D, Mnemonic::Ora, AddrMode::AbsoluteX, 3, 4),
        (0x1E, Mnemonic::Asl, AddrMode::AbsoluteX, 3, 7),
        (0x20, Mnemonic::Jsr, AddrMode::Absolute, 3, 6),
        (0x21, Mnemonic::And, AddrMode::IndirectX, 2, 6),
        (0x24, Mnemonic::Bit, AddrMode::ZeroPage, 2, 3),
        (0x25, Mnemonic::And, AddrMode::ZeroPage, 2, 3),
        (0x26, Mnemonic::Rol, AddrMode::ZeroPage, 2, 5),
        (0x28, Mnemonic::Plp, AddrMode::Implied, 1, 4),
        (0x29, Mnemonic::And, AddrMode::Immediate, 2, 2),
        (0x2A, Mnemonic::Rol, AddrMode::Accumulator, 1, 2),
        (0x2C, Mnemonic::Bit, AddrMode::Absolute, 3, 4),
        (0x2D, Mnemonic::And, AddrMode::Absolute, 3, 4),
        (0x2E, Mnemonic::Rol, AddrMode::Absolute, 3, 6),
        (0x30, Mnemonic::Bmi, AddrMode::Relative, 2, 2),
        (0x31, Mnemonic::And, AddrMode::IndirectY, 2, 5),
        (0x35, Mnemonic::And, AddrMode::ZeroPageX, 2, 4),
        (0x36, Mnemonic::Rol, AddrMode::ZeroPageX, 2, 6),
        (0x38, Mnemonic::Sec, AddrMode::Implied, 1, 2),
        (0x39, Mnemonic::And, AddrMode::AbsoluteY, 3, 4),
        (0x3D, Mnemonic::And, AddrMode::AbsoluteX, 3, 4),
        (0x3E, Mnemonic::Rol, AddrMode::AbsoluteX, 3, 7),
        (0x40, Mnemonic::Rti, AddrMode::Implied, 1, 6),
        (0x41, Mnemonic::Eor, AddrMode::IndirectX, 2, 6),
        (0x45, Mnemonic::Eor, AddrMode::ZeroPage, 2, 3),
        (0x46, Mnemonic::Lsr, AddrMode::ZeroPage, 2, 5),
        (0x48, Mnemonic::Pha, AddrMode::Implied, 1, 3),
        (0x49, Mnemonic::Eor, AddrMode::Immediate, 2, 2),
        (0x4A, Mnemonic::Lsr, AddrMode::Accumulator, 1, 2),
        (0x4C, Mnemonic::Jmp, AddrMode::Absolute, 3, 3),
        (0x4D, Mnemonic::Eor, AddrMode::Absolute, 3, 4),
        (0x4E, Mnemonic::Lsr, AddrMode::Absolute, 3, 6),
        (0x50, Mnemonic::Bvc, AddrMode::Relative, 2, 2),
        (0x51, Mnemonic::Eor, AddrMode::IndirectY, 2, 5),
        (0x55, Mnemonic::Eor, AddrMode::ZeroPageX, 2, 4),
        (0x56, Mnemonic::Lsr, AddrMode::ZeroPageX, 2, 6),
        (0x58, Mnemonic::Cli, AddrMode::Implied, 1, 2),
        (0x59, Mnemonic::Eor, AddrMode::AbsoluteY, 3, 4),
        (0x5D, Mnemonic::Eor, AddrMode::AbsoluteX, 3, 4),
        (0x5E, Mnemonic::Lsr, AddrMode::AbsoluteX, 3, 7),
        (0x60, Mnemonic::Rts, AddrMode::Implied, 1, 6),
        (0x61, Mnemonic::Adc, AddrMode::IndirectX, 2, 6),
        (0x65, Mnemonic::Adc, AddrMode::ZeroPage, 2, 3),
        (0x66, Mnemonic::Ror, AddrMode::ZeroPage, 2, 5),
        (0x68, Mnemonic::Pla, AddrMode::Implied, 1, 4),
        (0x69, Mnemonic::Adc, AddrMode::Immediate, 2, 2),
        (0x6A, Mnemonic::Ror, AddrMode::Accumulator, 1, 2),
        (0x6C, Mnemonic::Jmp, AddrMode::Indirect, 3, 5),
        (0x6D, Mnemonic::Adc, AddrMode::Absolute, 3, 4),
        (0x6E, Mnemonic::Ror, AddrMode::Absolute, 3, 6),
        (0x70, Mnemonic::Bvs, AddrMode::Relative, 2, 2),
        (0x71, Mnemonic::Adc, AddrMode::IndirectY, 2, 5),
        (0x75, Mnemonic::Adc, AddrMode::ZeroPageX, 2, 4),
        (0x76, Mnemonic::Ror, AddrMode::ZeroPageX, 2, 6),
        (0x78, Mnemonic::Sei, AddrMode::Implied, 1, 2),
        (0x79, Mnemonic::Adc, AddrMode::AbsoluteY, 3, 4),
        (0x7D, Mnemonic::Adc, AddrMode::AbsoluteX, 3, 4),
        (0x7E, Mnemonic::Ror, AddrMode::AbsoluteX, 3, 7),
        (0x81, Mnemonic::Sta, AddrMode::IndirectX, 2, 6),
        (0x84, Mnemonic::Sty, AddrMode::ZeroPage, 2, 3),
        (0x85, Mnemonic::Sta, AddrMode::ZeroPage, 2, 3),
        (0x86, Mnemonic::Stx, AddrMode::ZeroPage, 2, 3),
        (0x88, Mnemonic::Dey, AddrMode::Implied, 1, 2),
        (0x8A, Mnemonic::Txa, AddrMode::Implied, 1, 2),
        (0x8C, Mnemonic::Sty, AddrMode::Absolute, 3, 4),
        (0x8D, Mnemonic::Sta, AddrMode::Absolute, 3, 4),
        (0x8E, Mnemonic::Stx, AddrMode::Absolute, 3, 4),
        (0x90, Mnemonic::Bcc, AddrMode::Relative, 2, 2),
        (0x91, Mnemonic::Sta, AddrMode::IndirectY, 2, 6),
        (0x94, Mnemonic::Sty, AddrMode::ZeroPageX, 2, 4),
        (0x95, Mnemonic::Sta, AddrMode::ZeroPageX, 2, 4),
        (0x96, Mnemonic::Stx, AddrMode::ZeroPageY, 2, 4),
        (0x98, Mnemonic::Tya, AddrMode::Implied, 1, 2),
        (0x99, Mnemonic::Sta, AddrMode::AbsoluteY, 3, 5),
        (0x9A, Mnemonic::Txs, AddrMode::Implied, 1, 2),
        (0x9D, Mnemonic::Sta, AddrMode::AbsoluteX, 3, 5),
        (0xA0, Mnemonic::Ldy, AddrMode::Immediate, 2, 2),
        (0xA1, Mnemonic::Lda, AddrMode::IndirectX, 2, 6),
        (0xA2, Mnemonic::Ldx, AddrMode::Immediate, 2, 2),
        (0xA4, Mnemonic::Ldy, AddrMode::ZeroPage, 2, 3),
        (0xA5, Mnemonic::Lda, AddrMode::ZeroPage, 2, 3),
        (0xA6, Mnemonic::Ldx, AddrMode::ZeroPage, 2, 3),
        (0xA8, Mnemonic::Tay, AddrMode::Implied, 1, 2),
        (0xA9, Mnemonic::Lda, AddrMode::Immediate, 2, 2),
        (0xAA, Mnemonic::Tax, AddrMode::Implied, 1, 2),
        (0xAC, Mnemonic::Ldy, AddrMode::Absolute, 3, 4),
        (0xAD, Mnemonic::Lda, AddrMode::Absolute, 3, 4),
        (0xAE, Mnemonic::Ldx, AddrMode::Absolute, 3, 4),
        (0xB0, Mnemonic::Bcs, AddrMode::Relative, 2, 2),
        (0xB1, Mnemonic::Lda, AddrMode::IndirectY, 2, 5),
        (0xB4, Mnemonic::Ldy, AddrMode::ZeroPageX, 2, 4),
        (0xB5, Mnemonic::Lda, AddrMode::ZeroPageX, 2, 4),
        (0xB6, Mnemonic::Ldx, AddrMode::ZeroPageY, 2, 4),
        (0xB8, Mnemonic::Clv, AddrMode::Implied, 1, 2),
        (0xB9, Mnemonic::Lda, AddrMode::AbsoluteY, 3, 4),
        (0xBA, Mnemonic::Tsx, AddrMode::Implied, 1, 2),
        (0xBC, Mnemonic::Ldy, AddrMode::AbsoluteX, 3, 4),
        (0xBD, Mnemonic::Lda, AddrMode::AbsoluteX, 3, 4),
        (0xBE, Mnemonic::Ldx, AddrMode::AbsoluteY, 3, 4),
        (0xC0, Mnemonic::Cpy, AddrMode::Immediate, 2, 2),
        (0xC1, Mnemonic::Cmp, AddrMode::IndirectX, 2, 6),
        (0xC4, Mnemonic::Cpy, AddrMode::ZeroPage, 2, 3),
        (0xC5, Mnemonic::Cmp, AddrMode::ZeroPage, 2, 3),
        (0xC6, Mnemonic::Dec, AddrMode::ZeroPage, 2, 5),
        (0xC8, Mnemonic::Iny, AddrMode::Implied, 1, 2),
        (0xC9, Mnemonic::Cmp, AddrMode::Immediate, 2, 2),
        (0xCA, Mnemonic::Dex, AddrMode::Implied, 1, 2),
        (0xCC, Mnemonic::Cpy, AddrMode::Absolute, 3, 4),
        (0xCD, Mnemonic::Cmp, AddrMode::Absolute, 3, 4),
        (0xCE, Mnemonic::Dec, AddrMode::Absolute, 3, 6),
        (0xD0, Mnemonic::Bne, AddrMode::Relative, 2, 2),
        (0xD1, Mnemonic::Cmp, AddrMode::IndirectY, 2, 5),
        (0xD5, Mnemonic::Cmp, AddrMode::ZeroPageX, 2, 4),
        (0xD6, Mnemonic::Dec, AddrMode::ZeroPageX, 2, 6),
        (0xD8, Mnemonic::Cld, AddrMode::Implied, 1, 2),
        (0xD9, Mnemonic::Cmp, AddrMode::AbsoluteY, 3, 4),
        (0xDD, Mnemonic::Cmp, AddrMode::AbsoluteX, 3, 4),
        (0xDE, Mnemonic::Dec, AddrMode::AbsoluteX, 3, 7),
        (0xE0, Mnemonic::Cpx, AddrMode::Immediate, 2, 2),
        (0xE1, Mnemonic::Sbc, AddrMode::IndirectX, 2, 6),
        (0xE4, Mnemonic::Cpx, AddrMode::ZeroPage, 2, 3),
        (0xE5, Mnemonic::Sbc, AddrMode::ZeroPage, 2, 3),
        (0xE6, Mnemonic::Inc, AddrMode::ZeroPage, 2, 5),
        (0xE8, Mnemonic::Inx, AddrMode::Implied, 1, 2),
        (0xE9, Mnemonic::Sbc, AddrMode::Immediate, 2, 2),
        (0xEA, Mnemonic::Nop, AddrMode::Implied, 1, 2),
        (0xEC, Mnemonic::Cpx, AddrMode::Absolute, 3, 4),
        (0xED, Mnemonic::Sbc, AddrMode::Absolute, 3, 4),
        (0xEE, Mnemonic::Inc, AddrMode::Absolute, 3, 6),
        (0xF0, Mnemonic::Beq, AddrMode::Relative, 2, 2),
        (0xF1, Mnemonic::Sbc, AddrMode::IndirectY, 2, 5),
        (0xF5, Mnemonic::Sbc, AddrMode::ZeroPageX, 2, 4),
        (0xF6, Mnemonic::Inc, AddrMode::ZeroPageX, 2, 6),
        (0xF8, Mnemonic::Sed, AddrMode::Implied, 1, 2),
        (0xF9, Mnemonic::Sbc, AddrMode::AbsoluteY, 3, 4),
        (0xFD, Mnemonic::Sbc, AddrMode::AbsoluteX, 3, 4),
        (0xFE, Mnemonic::Inc, AddrMode::AbsoluteX, 3, 7),
    ]
}

#[test]
fn lookup_knows_every_instruction() {
    let rows = instruction_set();
    assert_eq!(rows.len(), 151);
    for (opc, mnemonic, mode, bytes, cycles) in rows {
        let expected = OpCode { addressing_mode: mode, mnemonic, opc, bytes, cycles };
        assert_eq!(lookup(opc), Ok(expected));
    }
}

#[test]
fn lookup_refuses_every_other_byte() {
    let rows = instruction_set();
    let mut refused: usize = 0;
    for byte in 0..=255u8 {
        if rows.iter().all(|row| row.0 != byte) {
            assert_eq!(lookup(byte), Err(CpuError::Decode(byte)));
            refused += 1;
        } else {
            assert!(lookup(byte).is_ok());
        }
    }
    assert_eq!(refused, 105);
}

#[test]
fn lookup_answers_under_the_byte_asked_for() {
    for byte in 0..=255u8 {
        if let Ok(op) = lookup(byte) {
            assert_eq!(op.opc, byte);
        }
    }
}

#[test]
fn lookup_length_follows_the_mode() {
    for byte in 0..=255u8 {
        if let Ok(op) = lookup(byte) {
            assert_eq!(op.bytes, 1 + op.addressing_mode.operand_bytes());
            assert!(1 <= op.bytes && op.bytes <= 3);
        }
    }
}

#[test]
fn lookup_pairs_are_unique() {
    let mut seen: Vec<(Mnemonic, AddrMode)> = Vec::new();
    for byte in 0..=255u8 {
        if let Ok(op) = lookup(byte) {
            let pair = (op.mnemonic, op.addressing_mode);
            assert!(!seen.contains(&pair));
            seen.push(pair);
        }
    }
    assert_eq!(seen.len(), 151);
}

#[test]
fn lookup_selected_rows() {
    assert_eq!(lookup(0xA2), Ok(OpCode::new(AddrMode::Immediate, Mnemonic::Ldx, 0xA2, 2, 2)));
    assert_eq!(lookup(0xA0), Ok(OpCode::new(AddrMode::Immediate, Mnemonic::Ldy, 0xA0, 2, 2)));
    assert_eq!(lookup(0x8D), Ok(OpCode::new(AddrMode::Absolute, Mnemonic::Sta, 0x8D, 3, 4)));
    assert_eq!(lookup(0x9D), Ok(OpCode::new(AddrMode::AbsoluteX, Mnemonic::Sta, 0x9D, 3, 5)));
    assert_eq!(lookup(0x90), Ok(OpCode::new(AddrMode::Relative, Mnemonic::Bcc, 0x90, 2, 2)));
    assert_eq!(lookup(0x8A), Ok(OpCode::new(AddrMode::Implied, Mnemonic::Txa, 0x8A, 1, 2)));
    assert_eq!(lookup(0x68), Ok(OpCode::new(AddrMode::Implied, Mnemonic::Pla, 0x68, 1, 4)));
    assert_eq!(lookup(0x28), Ok(OpCode::new(AddrMode::Implied, Mnemonic::Plp, 0x28, 1, 4)));
    assert_eq!(lookup(0x56), Ok(OpCode::new(AddrMode::ZeroPageX, Mnemonic::Lsr, 0x56, 2, 6)));
    assert_eq!(lookup(0x80), Err(CpuError::Decode(0x80)));
}

#[test]
fn opcode_new_keeps_its_arguments() {
    let op = OpCode::new(AddrMode::IndirectY, Mnemonic::Sta, 0x91, 2, 6);
    assert_eq!(op.addressing_mode, AddrMode::IndirectY);
    assert_eq!(op.mnemonic, Mnemonic::Sta);
    assert_eq!(op.opc, 0x91);
    assert_eq!(op.bytes, 2);
    assert_eq!(op.cycles, 6);
}

#[test]
fn operand_bytes_of_each_mode() {
    assert_eq!(AddrMode::Accumulator.operand_bytes(), 0);
    assert_eq!(AddrMode::Implied.operand_bytes(), 0);
    assert_eq!(AddrMode::Immediate.operand_bytes(), 1);
    assert_eq!(AddrMode::Relative.operand_bytes(), 1);
    assert_eq!(AddrMode::ZeroPage.operand_bytes(), 1);
    assert_eq!(AddrMode::ZeroPageX.operand_bytes(), 1);
    assert_eq!(AddrMode::ZeroPageY.operand_bytes(), 1);
    assert_eq!(AddrMode::IndirectX.operand_bytes(), 1);
    assert_eq!(AddrMode::IndirectY.operand_bytes(), 1);
    assert_eq!(AddrMode::Absolute.operand_bytes(), 2);
    assert_eq!(AddrMode::AbsoluteX.operand_bytes(), 2);
    assert_eq!(AddrMode::AbsoluteY.operand_bytes(), 2);
    assert_eq!(AddrMode::Indirect.operand_bytes(), 2);
}
