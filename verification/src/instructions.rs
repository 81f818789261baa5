//! The decoder: a pure, total function from an opcode byte (plus the CB
//! prefix marker) to a tagged instruction value or a decode error.  It
//! never touches memory or registers; every selector it hands out is a
//! small integer masked straight out of the byte.
//!
//! Non-prefixed bytes split on their top two bits into four blocks;
//! prefixed bytes split the same way into the rotate/shift family and
//! BIT/RES/SET.

use vstd::prelude::*;

verus! {

/// A decoded instruction, tagged by the block its opcode came from.
#[derive(Clone, Copy, Debug, PartialEq, Eq, Structural)]
pub enum Instruction {
    Block0(B0Instruction),
    Block1(B1Instruction),
    Block2(B2Instruction),
    Block3(B3Instruction),
    Prefixed(PrefixedInstruction),
}

/// Block 0: miscellaneous, 16-bit register and relative-control opcodes.
/// The `u8` payloads are unresolved selector codes: 2 bits for a 16-bit
/// register or a condition, 3 bits for an 8-bit operand.
#[derive(Clone, Copy, Debug, PartialEq, Eq, Structural)]
pub enum B0Instruction {
    NOP,
    LDR16N16(u8),
    LDR16(u8),
    LDA(u8),
    LDN16SP,
    INCR16(u8),
    DECR16(u8),
    ADDHL(u8),
    INCR8(u8),
    DECR8(u8),
    LDR8N8(u8),
    RLCA,
    RRCA,
    RLA,
    RRA,
    DAA,
    CPL,
    SCF,
    CCF,
    JRN8,
    JRCONDN8(u8),
    STOP,
}

/// Block 1: the 8-bit register-to-register loads, and HALT in the slot
/// that would otherwise load \[HL\] from \[HL\].
#[derive(Clone, Copy, Debug, PartialEq, Eq, Structural)]
pub enum B1Instruction {
    LD { dest: u8, source: u8 },
    HALT,
}

/// Block 2: the accumulator ALU operations against an 8-bit operand.
#[derive(Clone, Copy, Debug, PartialEq, Eq, Structural)]
pub enum B2Instruction {
    ADD(u8),
    ADC(u8),
    SUB(u8),
    SBC(u8),
    AND(u8),
    XOR(u8),
    OR(u8),
    CP(u8),
}

/// Block 3: immediate ALU, stack and control-flow opcodes.  The high-page
/// and absolute accumulator loads carry a 1-bit direction selector (bit 4
/// of the opcode): 0 stores A into memory, 1 loads A from memory.
#[derive(Clone, Copy, Debug, PartialEq, Eq, Structural)]
pub enum B3Instruction {
    ADDN8,
    ADCN8,
    SUBN8,
    SBCN8,
    ANDN8,
    XORN8,
    ORN8,
    CPN8,
    RETCOND(u8),
    RET,
    RETI,
    JPCONDN8(u8),
    JPN16,
    JPHL,
    CALLCONDN8(u8),
    CALLN16,
    RST(u8),
    POP(u8),
    PUSH(u8),
    LDHC(u8),
    LDHN8(u8),
    LDN16(u8),
    ADDSPN8,
    LDHLSPN8,
    LDSPHL,
    DI,
    EI,
}

/// The CB-prefixed space: rotates and shifts, and the bit operations with
/// their 3-bit bit index.
#[derive(Clone, Copy, Debug, PartialEq, Eq, Structural)]
pub enum PrefixedInstruction {
    RLC(u8),
    RRC(u8),
    RL(u8),
    RR(u8),
    SL(u8),
    SR(u8),
    SWAP(u8),
    SRL(u8),
    BIT { b3: u8, operand: u8 },
    RES { b3: u8, operand: u8 },
    SET { b3: u8, operand: u8 },
}

/// A decode failure.  `NotFound` marks an opcode with no mapped
/// instruction; `Invalid` marks a decoded field that failed a structural
/// precondition (the decoder itself never produces it).
#[derive(Clone, Copy, Debug, PartialEq, Eq, Structural)]
pub enum InstructionError {
    NotFound,
    Invalid,
}

/// Every selector code the instruction carries lies in the range its bit
/// width allows: 2-bit codes below 4, 3-bit codes below 8.
pub open spec fn spec_instr_wf(i: Instruction) -> bool {
    match i {
        Instruction::Block0(b) => match b {
            B0Instruction::LDR16N16(r) => r < 4,
            B0Instruction::LDR16(r) => r < 4,
            B0Instruction::LDA(r) => r < 4,
            B0Instruction::INCR16(r) => r < 4,
            B0Instruction::DECR16(r) => r < 4,
            B0Instruction::ADDHL(r) => r < 4,
            B0Instruction::INCR8(r) => r < 8,
            B0Instruction::DECR8(r) => r < 8,
            B0Instruction::LDR8N8(r) => r < 8,
            B0Instruction::JRCONDN8(c) => c < 4,
            _ => true,
        },
        Instruction::Block1(b) => match b {
            B1Instruction::LD { dest, source } => dest < 8 && source < 8,
            B1Instruction::HALT => true,
        },
        Instruction::Block2(b) => match b {
            B2Instruction::ADD(r) => r < 8,
            B2Instruction::ADC(r) => r < 8,
            B2Instruction::SUB(r) => r < 8,
            B2Instruction::SBC(r) => r < 8,
            B2Instruction::AND(r) => r < 8,
            B2Instruction::XOR(r) => r < 8,
            B2Instruction::OR(r) => r < 8,
            B2Instruction::CP(r) => r < 8,
        },
        Instruction::Block3(b) => match b {
            B3Instruction::RETCOND(c) => c < 4,
            B3Instruction::JPCONDN8(c) => c < 4,
            B3Instruction::CALLCONDN8(c) => c < 4,
            B3Instruction::RST(t) => t < 8,
            B3Instruction::POP(r) => r < 4,
            B3Instruction::PUSH(r) => r < 4,
            B3Instruction::LDHC(d) => d < 2,
            B3Instruction::LDHN8(d) => d < 2,
            B3Instruction::LDN16(d) => d < 2,
            _ => true,
        },
        Instruction::Prefixed(p) => match p {
            PrefixedInstruction::RLC(r) => r < 8,
            PrefixedInstruction::RRC(r) => r < 8,
            PrefixedInstruction::RL(r) => r < 8,
            PrefixedInstruction::RR(r) => r < 8,
            PrefixedInstruction::SL(r) => r < 8,
            PrefixedInstruction::SR(r) => r < 8,
            PrefixedInstruction::SWAP(r) => r < 8,
            PrefixedInstruction::SRL(r) => r < 8,
            PrefixedInstruction::BIT { b3, operand } => b3 < 8 && operand < 8,
            PrefixedInstruction::RES { b3, operand } => b3 < 8 && operand < 8,
            PrefixedInstruction::SET { b3, operand } => b3 < 8 && operand < 8,
        },
    }
}

/// The rotate/shift row of the CB space: bits 3-5 select the operation.
pub open spec fn spec_from_cb_zero_block(byte: u8) -> Result<Instruction, InstructionError> {
    let operand = (byte as int % 8) as u8;
    let row = byte as int / 8;
    if row == 0 {
        Ok(Instruction::Prefixed(PrefixedInstruction::RLC(operand)))
    } else if row == 1 {
        Ok(Instruction::Prefixed(PrefixedInstruction::RRC(operand)))
    } else if row == 2 {
        Ok(Instruction::Prefixed(PrefixedInstruction::RL(operand)))
    } else if row == 3 {
        Ok(Instruction::Prefixed(PrefixedInstruction::RR(operand)))
    } else if row == 4 {
        Ok(Instruction::Prefixed(PrefixedInstruction::SL(operand)))
    } else if row == 5 {
        Ok(Instruction::Prefixed(PrefixedInstruction::SR(operand)))
    } else if row == 6 {
        Ok(Instruction::Prefixed(PrefixedInstruction::SWAP(operand)))
    } else if row == 7 {
        Ok(Instruction::Prefixed(PrefixedInstruction::SRL(operand)))
    } else {
        Err(InstructionError::NotFound)
    }
}

/// The CB-prefixed space: the top two bits pick the sub-block, the bottom
/// three always name the 8-bit operand.
pub open spec fn spec_from_byte_prefixed(byte: u8) -> Result<Instruction, InstructionError> {
    let block = byte as int / 64;
    let operand = (byte as int % 8) as u8;
    let b3 = (byte as int / 8 % 8) as u8;
    if block == 0 {
        spec_from_cb_zero_block(byte)
    } else if block == 1 {
        Ok(Instruction::Prefixed(PrefixedInstruction::BIT { b3, operand }))
    } else if block == 2 {
        Ok(Instruction::Prefixed(PrefixedInstruction::RES { b3, operand }))
    } else {
        Ok(Instruction::Prefixed(PrefixedInstruction::SET { b3, operand }))
    }
}

/// Block 0 low-3-bit dispatch: relative jumps and the 8-bit
/// increment/decrement/load row.
pub open spec fn spec_from_byte_zero_block_u3(byte: u8) -> Result<Instruction, InstructionError> {
    let r8 = (byte as int / 8 % 8) as u8;
    let low3 = byte as int % 8;
    if low3 == 0 {
        Ok(Instruction::Block0(B0Instruction::JRCONDN8((r8 % 4) as u8)))
    } else if low3 == 4 {
        Ok(Instruction::Block0(B0Instruction::INCR8(r8)))
    } else if low3 == 5 {
        Ok(Instruction::Block0(B0Instruction::DECR8(r8)))
    } else if low3 == 6 {
        Ok(Instruction::Block0(B0Instruction::LDR8N8(r8)))
    } else {
        Err(InstructionError::NotFound)
    }
}

/// Block 0 low-nibble dispatch: the 16-bit register row, selector in
/// bits 4-5.
pub open spec fn spec_from_byte_zero_block_u4(byte: u8) -> Result<Instruction, InstructionError> {
    let r16 = (byte as int / 16 % 4) as u8;
    let nibble = byte as int % 16;
    if nibble == 0x1 {
        Ok(Instruction::Block0(B0Instruction::LDR16N16(r16)))
    } else if nibble == 0x2 {
        Ok(Instruction::Block0(B0Instruction::LDR16(r16)))
    } else if nibble == 0x3 {
        Ok(Instruction::Block0(B0Instruction::INCR16(r16)))
    } else if nibble == 0x9 {
        Ok(Instruction::Block0(B0Instruction::ADDHL(r16)))
    } else if nibble == 0xA {
        Ok(Instruction::Block0(B0Instruction::LDA(r16)))
    } else if nibble == 0xB {
        Ok(Instruction::Block0(B0Instruction::DECR16(r16)))
    } else {
        spec_from_byte_zero_block_u3(byte)
    }
}

/// Block 0: exact matches for the zero-operand opcodes first, then the
/// low-nibble and low-3-bit rows.
pub open spec fn spec_from_byte_zero_block(byte: u8) -> Result<Instruction, InstructionError> {
    if byte == 0x00 {
        Ok(Instruction::Block0(B0Instruction::NOP))
    } else if byte == 0x07 {
        Ok(Instruction::Block0(B0Instruction::RLCA))
    } else if byte == 0x08 {
        Ok(Instruction::Block0(B0Instruction::LDN16SP))
    } else if byte == 0x0F {
        Ok(Instruction::Block0(B0Instruction::RRCA))
    } else if byte == 0x10 {
        Ok(Instruction::Block0(B0Instruction::STOP))
    } else if byte == 0x17 {
        Ok(Instruction::Block0(B0Instruction::RLA))
    } else if byte == 0x18 {
        Ok(Instruction::Block0(B0Instruction::JRN8))
    } else if byte == 0x1F {
        Ok(Instruction::Block0(B0Instruction::RRA))
    } else if byte == 0x27 {
        Ok(Instruction::Block0(B0Instruction::DAA))
    } else if byte == 0x2F {
        Ok(Instruction::Block0(B0Instruction::CPL))
    } else if byte == 0x37 {
        Ok(Instruction::Block0(B0Instruction::SCF))
    } else if byte == 0x3F {
        Ok(Instruction::Block0(B0Instruction::CCF))
    } else {
        spec_from_byte_zero_block_u4(byte)
    }
}

/// Block 1: HALT in the 0x76 slot, a register-to-register load everywhere
/// else, destination in bits 3-5 and source in bits 0-2.
pub open spec fn spec_from_byte_one_block(byte: u8) -> Result<Instruction, InstructionError> {
    let dest = (byte as int / 8 % 8) as u8;
    let source = (byte as int % 8) as u8;
    if byte == 0x76 {
        Ok(Instruction::Block1(B1Instruction::HALT))
    } else {
        Ok(Instruction::Block1(B1Instruction::LD { dest, source }))
    }
}

/// Block 2: the top five bits select the ALU operation in fixed order,
/// the bottom three the operand.
pub open spec fn spec_from_byte_two_block(byte: u8) -> Result<Instruction, InstructionError> {
    let row = byte as int / 8;
    let operand = (byte as int % 8) as u8;
    if row == 0x10 {
        Ok(Instruction::Block2(B2Instruction::ADD(operand)))
    } else if row == 0x11 {
        Ok(Instruction::Block2(B2Instruction::ADC(operand)))
    } else if row == 0x12 {
        Ok(Instruction::Block2(B2Instruction::SUB(operand)))
    } else if row == 0x13 {
        Ok(Instruction::Block2(B2Instruction::SBC(operand)))
    } else if row == 0x14 {
        Ok(Instruction::Block2(B2Instruction::AND(operand)))
    } else if row == 0x15 {
        Ok(Instruction::Block2(B2Instruction::XOR(operand)))
    } else if row == 0x16 {
        Ok(Instruction::Block2(B2Instruction::OR(operand)))
    } else if row == 0x17 {
        Ok(Instruction::Block2(B2Instruction::CP(operand)))
    } else {
        Err(InstructionError::NotFound)
    }
}

/// Block 3 residual low-3-bit dispatch: conditional control flow and the
/// stack row.  The bytes it leaves unmapped are the block's holes.
pub open spec fn spec_from_byte_three_block_u3(byte: u8) -> Result<Instruction, InstructionError> {
    let cond = (byte as int / 8 % 4) as u8;
    let register = (byte as int / 16 % 4) as u8;
    let tgt3 = (byte as int / 8 % 8) as u8;
    let low3 = byte as int % 8;
    if low3 == 0x0 {
        Ok(Instruction::Block3(B3Instruction::RETCOND(cond)))
    } else if low3 == 0x1 {
        Ok(Instruction::Block3(B3Instruction::POP(register)))
    } else if low3 == 0x2 {
        Ok(Instruction::Block3(B3Instruction::JPCONDN8(cond)))
    } else if low3 == 0x4 {
        Ok(Instruction::Block3(B3Instruction::CALLCONDN8(cond)))
    } else if low3 == 0x5 {
        Ok(Instruction::Block3(B3Instruction::PUSH(register)))
    } else if low3 == 0x7 {
        Ok(Instruction::Block3(B3Instruction::RST(tgt3)))
    } else {
        Err(InstructionError::NotFound)
    }
}

/// Block 3: exact matches for immediate ALU, absolute control flow, the
/// high-page loads and the stack-pointer loads, then the residual row.
pub open spec fn spec_from_byte_three_block(byte: u8) -> Result<Instruction, InstructionError> {
    if byte == 0xC3 {
        Ok(Instruction::Block3(B3Instruction::JPN16))
    } else if byte == 0xC6 {
        Ok(Instruction::Block3(B3Instruction::ADDN8))
    } else if byte == 0xC9 {
        Ok(Instruction::Block3(B3Instruction::RET))
    } else if byte == 0xCD {
        Ok(Instruction::Block3(B3Instruction::CALLN16))
    } else if byte == 0xCE {
        Ok(Instruction::Block3(B3Instruction::ADCN8))
    } else if byte == 0xD6 {
        Ok(Instruction::Block3(B3Instruction::SUBN8))
    } else if byte == 0xD9 {
        Ok(Instruction::Block3(B3Instruction::RETI))
    } else if byte == 0xDE {
        Ok(Instruction::Block3(B3Instruction::SBCN8))
    } else if byte == 0xE0 {
        Ok(Instruction::Block3(B3Instruction::LDHN8(0)))
    } else if byte == 0xE2 {
        Ok(Instruction::Block3(B3Instruction::LDHC(0)))
    } else if byte == 0xE6 {
        Ok(Instruction::Block3(B3Instruction::ANDN8))
    } else if byte == 0xE8 {
        Ok(Instruction::Block3(B3Instruction::ADDSPN8))
    } else if byte == 0xE9 {
        Ok(Instruction::Block3(B3Instruction::JPHL))
    } else if byte == 0xEA {
        Ok(Instruction::Block3(B3Instruction::LDN16(0)))
    } else if byte == 0xEE {
        Ok(Instruction::Block3(B3Instruction::XORN8))
    } else if byte == 0xF0 {
        Ok(Instruction::Block3(B3Instruction::LDHN8(1)))
    } else if byte == 0xF2 {
        Ok(Instruction::Block3(B3Instruction::LDHC(1)))
    } else if byte == 0xF3 {
        Ok(Instruction::Block3(B3Instruction::DI))
    } else if byte == 0xF6 {
        Ok(Instruction::Block3(B3Instruction::ORN8))
    } else if byte == 0xF8 {
        Ok(Instruction::Block3(B3Instruction::LDHLSPN8))
    } else if byte == 0xF9 {
        Ok(Instruction::Block3(B3Instruction::LDSPHL))
    } else if byte == 0xFA {
        Ok(Instruction::Block3(B3Instruction::LDN16(1)))
    } else if byte == 0xFB {
        Ok(Instruction::Block3(B3Instruction::EI))
    } else if byte == 0xFE {
        Ok(Instruction::Block3(B3Instruction::CPN8))
    } else {
        spec_from_byte_three_block_u3(byte)
    }
}

/// A non-prefixed byte: the top two bits select the block.
pub open spec fn spec_from_byte_not_cb(byte: u8) -> Result<Instruction, InstructionError> {
    let block = byte as int / 64;
    if block == 0 {
        spec_from_byte_zero_block(byte)
    } else if block == 1 {
        spec_from_byte_one_block(byte)
    } else if block == 2 {
        spec_from_byte_two_block(byte)
    } else {
        spec_from_byte_three_block(byte)
    }
}

/// What the decoder returns for any byte, prefixed or not.
pub open spec fn spec_from_byte(byte: u8, prefixed: bool) -> Result<Instruction, InstructionError> {
    if prefixed {
        spec_from_byte_prefixed(byte)
    } else {
        spec_from_byte_not_cb(byte)
    }
}

/// Decoding is total and never signals a structural error: every byte,
/// prefixed or not, maps to an instruction whose selector codes are all in
/// range, or to `NotFound`.  The prefixed space has no holes at all.
pub proof fn lemma_decode_total(byte: u8, prefixed: bool)
    ensures
        spec_from_byte(byte, prefixed) matches Ok(i) ==> spec_instr_wf(i),
        spec_from_byte(byte, prefixed) is Ok || spec_from_byte(byte, prefixed) == Err::<
            Instruction,
            InstructionError,
        >(InstructionError::NotFound),
        prefixed ==> spec_from_byte(byte, prefixed) is Ok,
{
}

/// In block 1 exactly the byte 0x76 decodes to HALT; every other byte of
/// the block decodes to the register-to-register load whose destination is
/// bits 3-5 and whose source is bits 0-2 of the byte.
pub proof fn lemma_block_one_decode(byte: u8)
    requires
        0x40 <= byte < 0x80,
    ensures
        byte == 0x76 ==> spec_from_byte(byte, false) == Ok::<Instruction, InstructionError>(
            Instruction::Block1(B1Instruction::HALT),
        ),
        byte != 0x76 ==> spec_from_byte(byte, false) == Ok::<Instruction, InstructionError>(
            Instruction::Block1(
                B1Instruction::LD {
                    dest: (byte as int / 8 % 8) as u8,
                    source: (byte as int % 8) as u8,
                },
            ),
        ),
{
}

impl Instruction {
    /// Turns one opcode byte into an instruction value, splitting on
    /// whether the byte was reached through the 0xCB prefix.
    pub fn from_byte(byte: u8, prefixed: bool) -> (r: Result<Instruction, InstructionError>)
        ensures
            r == spec_from_byte(byte, prefixed),
            r matches Ok(i) ==> spec_instr_wf(i),
    {
        proof {
            lemma_decode_total(byte, prefixed);
        }
        if prefixed {
            Instruction::from_byte_prefixed(byte)
        } else {
            Instruction::from_byte_not_cb(byte)
        }
    }

    fn from_byte_prefixed(byte: u8) -> (r: Result<Instruction, InstructionError>)
        ensures
            r == spec_from_byte_prefixed(byte),
    {
        let block: u8 = byte / 64;
        let operand: u8 = byte % 8;
        let b3: u8 = byte / 8 % 8;
        match block {
            0 => Instruction::from_cb_zero_block(byte, operand),
            1 => Ok(Instruction::Prefixed(PrefixedInstruction::BIT { b3, operand })),
            2 => Ok(Instruction::Prefixed(PrefixedInstruction::RES { b3, operand })),
            _ => Ok(Instruction::Prefixed(PrefixedInstruction::SET { b3, operand })),
        }
    }

    fn from_cb_zero_block(byte: u8, operand: u8) -> (r: Result<Instruction, InstructionError>)
        requires
            operand == byte % 8,
        ensures
            r == spec_from_cb_zero_block(byte),
    {
        let row: u8 = byte / 8;
        match row {
            0x00 => Ok(Instruction::Prefixed(PrefixedInstruction::RLC(operand))),
            0x01 => Ok(Instruction::Prefixed(PrefixedInstruction::RRC(operand))),
            0x02 => Ok(Instruction::Prefixed(PrefixedInstruction::RL(operand))),
            0x03 => Ok(Instruction::Prefixed(PrefixedInstruction::RR(operand))),
            0x04 => Ok(Instruction::Prefixed(PrefixedInstruction::SL(operand))),
            0x05 => Ok(Instruction::Prefixed(PrefixedInstruction::SR(operand))),
            0x06 => Ok(Instruction::Prefixed(PrefixedInstruction::SWAP(operand))),
            0x07 => Ok(Instruction::Prefixed(PrefixedInstruction::SRL(operand))),
            _ => Err(InstructionError::NotFound),
        }
    }

    fn from_byte_not_cb(byte: u8) -> (r: Result<Instruction, InstructionError>)
        ensures
            r == spec_from_byte_not_cb(byte),
    {
        let block: u8 = byte / 64;
        match block {
            0 => Instruction::from_byte_zero_block(byte),
            1 => Instruction::from_byte_one_block(byte),
            2 => Instruction::from_byte_two_block(byte),
            _ => Instruction::from_byte_three_block(byte),
        }
    }

    fn from_byte_zero_block(byte: u8) -> (r: Result<Instruction, InstructionError>)
        ensures
            r == spec_from_byte_zero_block(byte),
    {
        match byte {
            0x00 => Ok(Instruction::Block0(B0Instruction::NOP)),
            0x07 => Ok(Instruction::Block0(B0Instruction::RLCA)),
            0x08 => Ok(Instruction::Block0(B0Instruction::LDN16SP)),
            0x0F => Ok(Instruction::Block0(B0Instruction::RRCA)),
            0x10 => Ok(Instruction::Block0(B0Instruction::STOP)),
            0x17 => Ok(Instruction::Block0(B0Instruction::RLA)),
            0x18 => Ok(Instruction::Block0(B0Instruction::JRN8)),
            0x1F => Ok(Instruction::Block0(B0Instruction::RRA)),
            0x27 => Ok(Instruction::Block0(B0Instruction::DAA)),
            0x2F => Ok(Instruction::Block0(B0Instruction::CPL)),
            0x37 => Ok(Instruction::Block0(B0Instruction::SCF)),
            0x3F => Ok(Instruction::Block0(B0Instruction::CCF)),
            _ => Instruction::from_byte_zero_block_u4(byte),
        }
    }

    fn from_byte_zero_block_u4(byte: u8) -> (r: Result<Instruction, InstructionError>)
        ensures
            r == spec_from_byte_zero_block_u4(byte),
    {
        let r16: u8 = byte / 16 % 4;
        match byte % 16 {
            0x1 => Ok(Instruction::Block0(B0Instruction::LDR16N16(r16))),
            0x2 => Ok(Instruction::Block0(B0Instruction::LDR16(r16))),
            0x3 => Ok(Instruction::Block0(B0Instruction::INCR16(r16))),
            0x9 => Ok(Instruction::Block0(B0Instruction::ADDHL(r16))),
            0xA => Ok(Instruction::Block0(B0Instruction::LDA(r16))),
            0xB => Ok(Instruction::Block0(B0Instruction::DECR16(r16))),
            _ => Instruction::from_byte_zero_block_u3(byte),
        }
    }

    fn from_byte_zero_block_u3(byte: u8) -> (r: Result<Instruction, InstructionError>)
        ensures
            r == spec_from_byte_zero_block_u3(byte),
    {
        let r8: u8 = byte / 8 % 8;
        match byte % 8 {
            0x0 => {
                let cond: u8 = r8 % 4;
                Ok(Instruction::Block0(B0Instruction::JRCONDN8(cond)))
            },
            0x4 => Ok(Instruction::Block0(B0Instruction::INCR8(r8))),
            0x5 => Ok(Instruction::Block0(B0Instruction::DECR8(r8))),
            0x6 => Ok(Instruction::Block0(B0Instruction::LDR8N8(r8))),
            _ => Err(InstructionError::NotFound),
        }
    }

    fn from_byte_one_block(byte: u8) -> (r: Result<Instruction, InstructionError>)
        ensures
            r == spec_from_byte_one_block(byte),
    {
        let dest: u8 = byte / 8 % 8;
        let source: u8 = byte % 8;
        match byte {
            0x76 => Ok(Instruction::Block1(B1Instruction::HALT)),
            _ => Ok(Instruction::Block1(B1Instruction::LD { dest, source })),
        }
    }

    fn from_byte_two_block(byte: u8) -> (r: Result<Instruction, InstructionError>)
        ensures
            r == spec_from_byte_two_block(byte),
    {
        let row: u8 = byte / 8;
        let operand: u8 = byte % 8;
        match row {
            0x10 => Ok(Instruction::Block2(B2Instruction::ADD(operand))),
            0x11 => Ok(Instruction::Block2(B2Instruction::ADC(operand))),
            0x12 => Ok(Instruction::Block2(B2Instruction::SUB(operand))),
            0x13 => Ok(Instruction::Block2(B2Instruction::SBC(operand))),
            0x14 => Ok(Instruction::Block2(B2Instruction::AND(operand))),
            0x15 => Ok(Instruction::Block2(B2Instruction::XOR(operand))),
            0x16 => Ok(Instruction::Block2(B2Instruction::OR(operand))),
            0x17 => Ok(Instruction::Block2(B2Instruction::CP(operand))),
            _ => Err(InstructionError::NotFound),
        }
    }

    fn from_byte_three_block(byte: u8) -> (r: Result<Instruction, InstructionError>)
        ensures
            r == spec_from_byte_three_block(byte),
    {
        match byte {
            0xC3 => Ok(Instruction::Block3(B3Instruction::JPN16)),
            0xC6 => Ok(Instruction::Block3(B3Instruction::ADDN8)),
            0xC9 => Ok(Instruction::Block3(B3Instruction::RET)),
            0xCD => Ok(Instruction::Block3(B3Instruction::CALLN16)),
            0xCE => Ok(Instruction::Block3(B3Instruction::ADCN8)),
            0xD6 => Ok(Instruction::Block3(B3Instruction::SUBN8)),
            0xD9 => Ok(Instruction::Block3(B3Instruction::RETI)),
            0xDE => Ok(Instruction::Block3(B3Instruction::SBCN8)),
            0xE0 => Ok(Instruction::Block3(B3Instruction::LDHN8(0))),
            0xE2 => Ok(Instruction::Block3(B3Instruction::LDHC(0))),
            0xE6 => Ok(Instruction::Block3(B3Instruction::ANDN8)),
            0xE8 => Ok(Instruction::Block3(B3Instruction::ADDSPN8)),
            0xE9 => Ok(Instruction::Block3(B3Instruction::JPHL)),
            0xEA => Ok(Instruction::Block3(B3Instruction::LDN16(0))),
            0xEE => Ok(Instruction::Block3(B3Instruction::XORN8)),
            0xF0 => Ok(Instruction::Block3(B3Instruction::LDHN8(1))),
            0xF2 => Ok(Instruction::Block3(B3Instruction::LDHC(1))),
            0xF3 => Ok(Instruction::Block3(B3Instruction::DI)),
            0xF6 => Ok(Instruction::Block3(B3Instruction::ORN8)),
            0xF8 => Ok(Instruction::Block3(B3Instruction::LDHLSPN8)),
            0xF9 => Ok(Instruction::Block3(B3Instruction::LDSPHL)),
            0xFA => Ok(Instruction::Block3(B3Instruction::LDN16(1))),
            0xFB => Ok(Instruction::Block3(B3Instruction::EI)),
            0xFE => Ok(Instruction::Block3(B3Instruction::CPN8)),
            _ => Instruction::from_byte_three_block_u3(byte),
        }
    }

    fn from_byte_three_block_u3(byte: u8) -> (r: Result<Instruction, InstructionError>)
        ensures
            r == spec_from_byte_three_block_u3(byte),
    {
        let cond: u8 = byte / 8 % 4;
        let register: u8 = byte / 16 % 4;
        let tgt3: u8 = byte / 8 % 8;
        let bottom_three: u8 = byte % 8;
        match bottom_three {
            0x0 => Ok(Instruction::Block3(B3Instruction::RETCOND(cond))),
            0x1 => Ok(Instruction::Block3(B3Instruction::POP(register))),
            0x2 => Ok(Instruction::Block3(B3Instruction::JPCONDN8(cond))),
            0x4 => Ok(Instruction::Block3(B3Instruction::CALLCONDN8(cond))),
            0x5 => Ok(Instruction::Block3(B3Instruction::PUSH(register))),
            0x7 => Ok(Instruction::Block3(B3Instruction::RST(tgt3))),
            _ => Err(InstructionError::NotFound),
        }
    }
}

} // verus!
