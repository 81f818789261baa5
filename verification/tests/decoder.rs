use gb_core::instructions::{
    B0Instruction, B1Instruction, B2Instruction, B3Instruction, Instruction, InstructionError,
    PrefixedInstruction,
};

#[test]
fn decoding_is_total_over_both_opcode_spaces() {
    for byte in 0u16..=0xFF {
        for prefixed in [false, true] {
            match Instruction::from_byte(byte as u8, prefixed) {
                Ok(_) => (),
                Err(InstructionError::NotFound) => (),
                Err(InstructionError::Invalid) => {
                    panic!("decoder produced Invalid for {byte:#04x} (prefixed: {prefixed})")
                }
            }
        }
    }
}

#[test]
fn only_the_block3_holes_are_unmapped() {
    let mut unmapped = Vec::new();
    for byte in 0u16..=0xFF {
        if Instruction::from_byte(byte as u8, false).is_err() {
            unmapped.push(byte as u8);
        }
    }
    assert_eq!(unmapped, vec![0xCB, 0xD3, 0xDB, 0xE3, 0xEB]);
    for byte in 0u16..=0xFF {
        assert!(Instruction::from_byte(byte as u8, true).is_ok());
    }
}

#[test]
fn block1_is_halt_at_0x76_and_loads_elsewhere() {
    for byte in 0x40u16..=0x7F {
        let byte = byte as u8;
        let decoded = Instruction::from_byte(byte, false).unwrap();
        if byte == 0x76 {
            assert_eq!(decoded, Instruction::Block1(B1Instruction::HALT));
        } else {
            assert_eq!(
                decoded,
                Instruction::Block1(B1Instruction::LD { dest: byte >> 3 & 7, source: byte & 7 })
            );
        }
    }
}

#[test]
fn block0_exact_opcodes() {
    let cases: &[(u8, B0Instruction)] = &[
        (0x00, B0Instruction::NOP),
        (0x07, B0Instruction::RLCA),
        (0x08, B0Instruction::LDN16SP),
        (0x0F, B0Instruction::RRCA),
        (0x10, B0Instruction::STOP),
        (0x17, B0Instruction::RLA),
        (0x18, B0Instruction::JRN8),
        (0x1F, B0Instruction::RRA),
        (0x27, B0Instruction::DAA),
        (0x2F, B0Instruction::CPL),
        (0x37, B0Instruction::SCF),
        (0x3F, B0Instruction::CCF),
    ];
    for &(byte, expected) in cases {
        assert_eq!(
            Instruction::from_byte(byte, false).unwrap(),
            Instruction::Block0(expected),
            "byte {byte:#04x}"
        );
    }
}

#[test]
fn block0_register_rows_carry_their_selectors() {
    assert_eq!(
        Instruction::from_byte(0x01, false).unwrap(),
        Instruction::Block0(B0Instruction::LDR16N16(0))
    );
    assert_eq!(
        Instruction::from_byte(0x31, false).unwrap(),
        Instruction::Block0(B0Instruction::LDR16N16(3))
    );
    assert_eq!(
        Instruction::from_byte(0x12, false).unwrap(),
        Instruction::Block0(B0Instruction::LDR16(1))
    );
    assert_eq!(
        Instruction::from_byte(0x23, false).unwrap(),
        Instruction::Block0(B0Instruction::INCR16(2))
    );
    assert_eq!(
        Instruction::from_byte(0x09, false).unwrap(),
        Instruction::Block0(B0Instruction::ADDHL(0))
    );
    assert_eq!(
        Instruction::from_byte(0x3A, false).unwrap(),
        Instruction::Block0(B0Instruction::LDA(3))
    );
    assert_eq!(
        Instruction::from_byte(0x0B, false).unwrap(),
        Instruction::Block0(B0Instruction::DECR16(0))
    );
    assert_eq!(
        Instruction::from_byte(0x3C, false).unwrap(),
        Instruction::Block0(B0Instruction::INCR8(7))
    );
    assert_eq!(
        Instruction::from_byte(0x35, false).unwrap(),
        Instruction::Block0(B0Instruction::DECR8(6))
    );
    assert_eq!(
        Instruction::from_byte(0x36, false).unwrap(),
        Instruction::Block0(B0Instruction::LDR8N8(6))
    );
}

#[test]
fn block0_conditional_relative_jumps() {
    assert_eq!(
        Instruction::from_byte(0x20, false).unwrap(),
        Instruction::Block0(B0Instruction::JRCONDN8(0))
    );
    assert_eq!(
        Instruction::from_byte(0x28, false).unwrap(),
        Instruction::Block0(B0Instruction::JRCONDN8(1))
    );
    assert_eq!(
        Instruction::from_byte(0x30, false).unwrap(),
        Instruction::Block0(B0Instruction::JRCONDN8(2))
    );
    assert_eq!(
        Instruction::from_byte(0x38, false).unwrap(),
        Instruction::Block0(B0Instruction::JRCONDN8(3))
    );
}

#[test]
fn block2_rows_in_fixed_alu_order() {
    assert_eq!(
        Instruction::from_byte(0x80, false).unwrap(),
        Instruction::Block2(B2Instruction::ADD(0))
    );
    assert_eq!(
        Instruction::from_byte(0x8F, false).unwrap(),
        Instruction::Block2(B2Instruction::ADC(7))
    );
    assert_eq!(
        Instruction::from_byte(0x96, false).unwrap(),
        Instruction::Block2(B2Instruction::SUB(6))
    );
    assert_eq!(
        Instruction::from_byte(0x99, false).unwrap(),
        Instruction::Block2(B2Instruction::SBC(1))
    );
    assert_eq!(
        Instruction::from_byte(0xA2, false).unwrap(),
        Instruction::Block2(B2Instruction::AND(2))
    );
    assert_eq!(
        Instruction::from_byte(0xAB, false).unwrap(),
        Instruction::Block2(B2Instruction::XOR(3))
    );
    assert_eq!(
        Instruction::from_byte(0xB4, false).unwrap(),
        Instruction::Block2(B2Instruction::OR(4))
    );
    assert_eq!(
        Instruction::from_byte(0xBD, false).unwrap(),
        Instruction::Block2(B2Instruction::CP(5))
    );
}

#[test]
fn block3_exact_and_residual_opcodes() {
    assert_eq!(
        Instruction::from_byte(0xC3, false).unwrap(),
        Instruction::Block3(B3Instruction::JPN16)
    );
    assert_eq!(
        Instruction::from_byte(0xC6, false).unwrap(),
        Instruction::Block3(B3Instruction::ADDN8)
    );
    assert_eq!(
        Instruction::from_byte(0xC9, false).unwrap(),
        Instruction::Block3(B3Instruction::RET)
    );
    assert_eq!(
        Instruction::from_byte(0xD9, false).unwrap(),
        Instruction::Block3(B3Instruction::RETI)
    );
    assert_eq!(
        Instruction::from_byte(0xCD, false).unwrap(),
        Instruction::Block3(B3Instruction::CALLN16)
    );
    assert_eq!(
        Instruction::from_byte(0xE0, false).unwrap(),
        Instruction::Block3(B3Instruction::LDHN8(0))
    );
    assert_eq!(
        Instruction::from_byte(0xF0, false).unwrap(),
        Instruction::Block3(B3Instruction::LDHN8(1))
    );
    assert_eq!(
        Instruction::from_byte(0xE2, false).unwrap(),
        Instruction::Block3(B3Instruction::LDHC(0))
    );
    assert_eq!(
        Instruction::from_byte(0xF2, false).unwrap(),
        Instruction::Block3(B3Instruction::LDHC(1))
    );
    assert_eq!(
        Instruction::from_byte(0xEA, false).unwrap(),
        Instruction::Block3(B3Instruction::LDN16(0))
    );
    assert_eq!(
        Instruction::from_byte(0xFA, false).unwrap(),
        Instruction::Block3(B3Instruction::LDN16(1))
    );
    assert_eq!(
        Instruction::from_byte(0xC0, false).unwrap(),
        Instruction::Block3(B3Instruction::RETCOND(0))
    );
    assert_eq!(
        Instruction::from_byte(0xD8, false).unwrap(),
        Instruction::Block3(B3Instruction::RETCOND(3))
    );
    assert_eq!(
        Instruction::from_byte(0xC1, false).unwrap(),
        Instruction::Block3(B3Instruction::POP(0))
    );
    assert_eq!(
        Instruction::from_byte(0xF5, false).unwrap(),
        Instruction::Block3(B3Instruction::PUSH(3))
    );
    assert_eq!(
        Instruction::from_byte(0xDA, false).unwrap(),
        Instruction::Block3(B3Instruction::JPCONDN8(3))
    );
    assert_eq!(
        Instruction::from_byte(0xC4, false).unwrap(),
        Instruction::Block3(B3Instruction::CALLCONDN8(0))
    );
    assert_eq!(
        Instruction::from_byte(0xFF, false).unwrap(),
        Instruction::Block3(B3Instruction::RST(7))
    );
    assert_eq!(
        Instruction::from_byte(0xD7, false).unwrap(),
        Instruction::Block3(B3Instruction::RST(2))
    );
    assert_eq!(
        Instruction::from_byte(0xD3, false),
        Err(InstructionError::NotFound)
    );
    assert_eq!(
        Instruction::from_byte(0xCB, false),
        Err(InstructionError::NotFound)
    );
}

#[test]
fn prefixed_rotate_row_and_bit_operations() {
    assert_eq!(
        Instruction::from_byte(0x00, true).unwrap(),
        Instruction::Prefixed(PrefixedInstruction::RLC(0))
    );
    assert_eq!(
        Instruction::from_byte(0x0E, true).unwrap(),
        Instruction::Prefixed(PrefixedInstruction::RRC(6))
    );
    assert_eq!(
        Instruction::from_byte(0x11, true).unwrap(),
        Instruction::Prefixed(PrefixedInstruction::RL(1))
    );
    assert_eq!(
        Instruction::from_byte(0x1F, true).unwrap(),
        Instruction::Prefixed(PrefixedInstruction::RR(7))
    );
    assert_eq!(
        Instruction::from_byte(0x22, true).unwrap(),
        Instruction::Prefixed(PrefixedInstruction::SL(2))
    );
    assert_eq!(
        Instruction::from_byte(0x2B, true).unwrap(),
        Instruction::Prefixed(PrefixedInstruction::SR(3))
    );
    assert_eq!(
        Instruction::from_byte(0x34, true).unwrap(),
        Instruction::Prefixed(PrefixedInstruction::SWAP(4))
    );
    assert_eq!(
        Instruction::from_byte(0x3D, true).unwrap(),
        Instruction::Prefixed(PrefixedInstruction::SRL(5))
    );
    assert_eq!(
        Instruction::from_byte(0x78, true).unwrap(),
        Instruction::Prefixed(PrefixedInstruction::BIT { b3: 7, operand: 0 })
    );
    assert_eq!(
        Instruction::from_byte(0x86, true).unwrap(),
        Instruction::Prefixed(PrefixedInstruction::RES { b3: 0, operand: 6 })
    );
    assert_eq!(
        Instruction::from_byte(0xFF, true).unwrap(),
        Instruction::Prefixed(PrefixedInstruction::SET { b3: 7, operand: 7 })
    );
}
