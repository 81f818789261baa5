//! The executor: owns the register file and the memory bus, and drives
//! fetch, decode, dispatch and mutation one instruction per `cycle` call.
//!
//! The whole observable effect of a cycle is pinned down by `spec_cycle`,
//! a specification-level interpreter over the CPU's view: the register
//! file, the memory contents, the run state, the termination marker and
//! the interrupt-enable bit.  Each instruction family has its own
//! specification function, and each handler is proved to realise it.

use crate::instructions::{
    B0Instruction, B1Instruction, B2Instruction, B3Instruction, Instruction, PrefixedInstruction,
    spec_from_byte, spec_instr_wf,
};
use crate::mmu::{MEMORY_SIZE, MemoryManagementUnit};
use crate::registers::{
    Cond, FlagsRegisters, R16, R16Mem, R16Stk, R8, Registers, spec_cond_met, spec_flags_from_byte,
    spec_flags_to_byte, spec_high_byte, spec_low_byte, spec_pair,
};
use crate::words;
use crate::words::spec_add_signed16;
use vstd::prelude::*;

verus! {

/// The run state of the core.  HALT and STOP leave `Running`; only the
/// external resume hook re-enters it.
#[derive(Clone, Copy, Debug, PartialEq, Eq, Structural)]
pub enum RunState {
    Running,
    Halted,
    Stopped,
}

/// The abstract state of the CPU: everything a cycle can observe or
/// change.
#[verifier::ext_equal]
pub ghost struct CpuView {
    pub regs: Registers,
    pub mem: Seq<u8>,
    pub state: RunState,
    pub end: bool,
    pub ime: bool,
}

/// Reduction of any integer into the 16-bit word it stands for,
/// modulo 2^16.
pub open spec fn wrap16(x: int) -> u16 {
    ((x % 0x10000 + 0x10000) % 0x10000) as u16
}

/// The register file with the program counter moved by `n` bytes,
/// wrapping at the top of the address space.
pub open spec fn spec_step_pc(r: Registers, n: int) -> Registers {
    Registers { pc: wrap16(r.pc + n), ..r }
}

/// The immediate byte of an instruction: the byte at the program counter
/// once the opcode itself has been consumed.
pub open spec fn spec_imm8(s: CpuView) -> u8 {
    s.mem[s.regs.pc as int]
}

/// The immediate word of an instruction, composed little-endian from the
/// two bytes at the program counter: low byte first in the stream.
pub open spec fn spec_imm16(s: CpuView) -> u16 {
    spec_pair(s.mem[wrap16(s.regs.pc + 1) as int], s.mem[s.regs.pc as int])
}

/// The state once the immediate byte has been consumed.
pub open spec fn spec_after_imm8(s: CpuView) -> CpuView {
    CpuView { regs: spec_step_pc(s.regs, 1), ..s }
}

/// The state once the immediate word has been consumed.
pub open spec fn spec_after_imm16(s: CpuView) -> CpuView {
    CpuView { regs: spec_step_pc(s.regs, 2), ..s }
}

/// The value of the 16-bit register a 2-bit code selects: BC, DE, HL
/// or SP.
pub open spec fn spec_r16_read(r: Registers, code: u8) -> u16 {
    if code == 0 {
        spec_pair(r.b, r.c)
    } else if code == 1 {
        spec_pair(r.d, r.e)
    } else if code == 2 {
        spec_pair(r.h, r.l)
    } else {
        r.sp
    }
}

/// The register file with the 16-bit register a 2-bit code selects
/// replaced by `val`, split big-endian over its two halves.
pub open spec fn spec_r16_write(r: Registers, code: u8, val: u16) -> Registers {
    if code == 0 {
        Registers { b: spec_high_byte(val), c: spec_low_byte(val), ..r }
    } else if code == 1 {
        Registers { d: spec_high_byte(val), e: spec_low_byte(val), ..r }
    } else if code == 2 {
        Registers { h: spec_high_byte(val), l: spec_low_byte(val), ..r }
    } else {
        Registers { sp: val, ..r }
    }
}

/// The value of the 8-bit operand a 3-bit code selects: a register, or
/// the byte addressed by HL.
pub open spec fn spec_r8_read(s: CpuView, code: u8) -> u8 {
    if code == 0 {
        s.regs.b
    } else if code == 1 {
        s.regs.c
    } else if code == 2 {
        s.regs.d
    } else if code == 3 {
        s.regs.e
    } else if code == 4 {
        s.regs.h
    } else if code == 5 {
        s.regs.l
    } else if code == 6 {
        s.mem[spec_pair(s.regs.h, s.regs.l) as int]
    } else {
        s.regs.a
    }
}

/// The state with the 8-bit operand a 3-bit code selects replaced by
/// `val`; for code 6 that is the byte addressed by HL.
pub open spec fn spec_r8_write(s: CpuView, code: u8, val: u8) -> CpuView {
    if code == 0 {
        CpuView { regs: Registers { b: val, ..s.regs }, ..s }
    } else if code == 1 {
        CpuView { regs: Registers { c: val, ..s.regs }, ..s }
    } else if code == 2 {
        CpuView { regs: Registers { d: val, ..s.regs }, ..s }
    } else if code == 3 {
        CpuView { regs: Registers { e: val, ..s.regs }, ..s }
    } else if code == 4 {
        CpuView { regs: Registers { h: val, ..s.regs }, ..s }
    } else if code == 5 {
        CpuView { regs: Registers { l: val, ..s.regs }, ..s }
    } else if code == 6 {
        CpuView { mem: s.mem.update(spec_pair(s.regs.h, s.regs.l) as int, val), ..s }
    } else {
        CpuView { regs: Registers { a: val, ..s.regs }, ..s }
    }
}

// ---------------------------------------------------------------------
// Block 0 semantics
// ---------------------------------------------------------------------

/// LD r16,n16: the immediate word into the selected 16-bit register.
pub open spec fn spec_ldr16n16(s: CpuView, dest: u8) -> CpuView {
    let n16 = spec_imm16(s);
    let s1 = spec_after_imm16(s);
    CpuView { regs: spec_r16_write(s1.regs, dest, n16), ..s1 }
}

/// LD \[r16mem\],A: the accumulator into memory at the selected pair,
/// HL moving one step after the access in its post-increment and
/// post-decrement modes.
pub open spec fn spec_ldr16(s: CpuView, dest: u8) -> CpuView {
    if dest == 0 {
        CpuView { mem: s.mem.update(spec_pair(s.regs.b, s.regs.c) as int, s.regs.a), ..s }
    } else if dest == 1 {
        CpuView { mem: s.mem.update(spec_pair(s.regs.d, s.regs.e) as int, s.regs.a), ..s }
    } else {
        let hl = spec_pair(s.regs.h, s.regs.l);
        let next = if dest == 2 {
            wrap16(hl + 1)
        } else {
            wrap16(hl - 1)
        };
        CpuView {
            regs: Registers { h: spec_high_byte(next), l: spec_low_byte(next), ..s.regs },
            mem: s.mem.update(hl as int, s.regs.a),
            ..s
        }
    }
}

/// LD A,\[r16mem\]: memory at the selected pair into the accumulator,
/// HL moving one step after the access in its post-increment and
/// post-decrement modes.
pub open spec fn spec_lda(s: CpuView, source: u8) -> CpuView {
    if source == 0 {
        CpuView { regs: Registers { a: s.mem[spec_pair(s.regs.b, s.regs.c) as int], ..s.regs }, ..s }
    } else if source == 1 {
        CpuView { regs: Registers { a: s.mem[spec_pair(s.regs.d, s.regs.e) as int], ..s.regs }, ..s }
    } else {
        let hl = spec_pair(s.regs.h, s.regs.l);
        let next = if source == 2 {
            wrap16(hl + 1)
        } else {
            wrap16(hl - 1)
        };
        CpuView {
            regs: Registers {
                a: s.mem[hl as int],
                h: spec_high_byte(next),
                l: spec_low_byte(next),
                ..s.regs
            },
            ..s
        }
    }
}

/// LD \[n16\],SP: the stack pointer into memory at the immediate word,
/// low byte first, the second address wrapping at the top of the space.
pub open spec fn spec_ldn16sp(s: CpuView) -> CpuView {
    let n16 = spec_imm16(s);
    let s1 = spec_after_imm16(s);
    CpuView {
        mem: s1.mem.update(n16 as int, spec_low_byte(s1.regs.sp)).update(
            wrap16(n16 + 1) as int,
            spec_high_byte(s1.regs.sp),
        ),
        ..s1
    }
}

/// INC r16: wrapping increment of the selected 16-bit register; no flags.
pub open spec fn spec_incr16(s: CpuView, operand: u8) -> CpuView {
    CpuView {
        regs: spec_r16_write(s.regs, operand, wrap16(spec_r16_read(s.regs, operand) + 1)),
        ..s
    }
}

/// DEC r16: wrapping decrement of the selected 16-bit register; no flags.
pub open spec fn spec_decr16(s: CpuView, operand: u8) -> CpuView {
    CpuView {
        regs: spec_r16_write(s.regs, operand, wrap16(spec_r16_read(s.regs, operand) - 1)),
        ..s
    }
}

/// ADD HL,r16: wrapping 16-bit add into HL.  Carry on overflow of 16
/// bits, half carry on carry out of bit 11, Subtract cleared, Zero
/// untouched.
pub open spec fn spec_addhl(s: CpuView, operand: u8) -> CpuView {
    let hl = spec_pair(s.regs.h, s.regs.l) as int;
    let v = spec_r16_read(s.regs, operand) as int;
    let res = wrap16(hl + v);
    CpuView {
        regs: Registers {
            h: spec_high_byte(res),
            l: spec_low_byte(res),
            f: FlagsRegisters {
                z: s.regs.f.z,
                s: false,
                h: hl % 0x1000 + v % 0x1000 > 0xFFF,
                c: hl + v > 0xFFFF,
            },
            ..s.regs
        },
        ..s
    }
}

/// INC r8: wrapping increment of the selected 8-bit operand.  Zero from
/// the result, Subtract cleared, half carry on carry out of bit 3, Carry
/// untouched.
pub open spec fn spec_incr8(s: CpuView, operand: u8) -> CpuView {
    let v = spec_r8_read(s, operand);
    let res = ((v as int + 1) % 0x100) as u8;
    let s1 = spec_r8_write(s, operand, res);
    CpuView {
        regs: Registers {
            f: FlagsRegisters { z: res == 0, s: false, h: v as int % 16 == 15, c: s.regs.f.c },
            ..s1.regs
        },
        ..s1
    }
}

/// DEC r8: wrapping decrement of the selected 8-bit operand.  Zero from
/// the result, Subtract set, half carry on borrow from bit 4, Carry
/// untouched.
pub open spec fn spec_decr8(s: CpuView, operand: u8) -> CpuView {
    let v = spec_r8_read(s, operand);
    let res = ((v as int - 1 + 0x100) % 0x100) as u8;
    let s1 = spec_r8_write(s, operand, res);
    CpuView {
        regs: Registers {
            f: FlagsRegisters { z: res == 0, s: true, h: v as int % 16 == 0, c: s.regs.f.c },
            ..s1.regs
        },
        ..s1
    }
}

/// LD r8,n8: the immediate byte into the selected 8-bit operand.
pub open spec fn spec_ldr8n8(s: CpuView, dest: u8) -> CpuView {
    spec_r8_write(spec_after_imm8(s), dest, spec_imm8(s))
}

/// RLCA: rotate the accumulator left circularly; Carry takes bit 7, Zero,
/// Subtract and HalfCarry always cleared.
pub open spec fn spec_rlca(r: Registers) -> Registers {
    Registers {
        a: (r.a as int % 128 * 2 + r.a as int / 128) as u8,
        f: FlagsRegisters { z: false, s: false, h: false, c: r.a >= 128 },
        ..r
    }
}

/// RRCA: rotate the accumulator right circularly; Carry takes bit 0,
/// Zero, Subtract and HalfCarry always cleared.
pub open spec fn spec_rrca(r: Registers) -> Registers {
    Registers {
        a: (r.a as int / 2 + r.a as int % 2 * 128) as u8,
        f: FlagsRegisters { z: false, s: false, h: false, c: r.a % 2 == 1 },
        ..r
    }
}

/// RLA: rotate the accumulator left through Carry; the old Carry enters
/// bit 0, Carry takes bit 7, the other flags always cleared.
pub open spec fn spec_rla(r: Registers) -> Registers {
    Registers {
        a: (r.a as int % 128 * 2 + if r.f.c {
            1int
        } else {
            0int
        }) as u8,
        f: FlagsRegisters { z: false, s: false, h: false, c: r.a >= 128 },
        ..r
    }
}

/// RRA: rotate the accumulator right through Carry; the old Carry enters
/// bit 7, Carry takes bit 0, the other flags always cleared.
pub open spec fn spec_rra(r: Registers) -> Registers {
    Registers {
        a: (r.a as int / 2 + if r.f.c {
            128int
        } else {
            0int
        }) as u8,
        f: FlagsRegisters { z: false, s: false, h: false, c: r.a % 2 == 1 },
        ..r
    }
}

/// DAA: decimal adjust after an addition or subtraction, keyed off the
/// Subtract flag.  After a subtraction the correction 0x06/0x60 follows
/// the HalfCarry and Carry flags and is subtracted, Carry absorbed by the
/// 0x60 step; after an addition the correction also fires on a low nibble
/// above 9 or an accumulator above 0x99, is added, and sets Carry when
/// the 0x60 step fires.  Zero reflects the adjusted accumulator;
/// HalfCarry is always cleared.
pub open spec fn spec_daa(r: Registers) -> Registers {
    let a = r.a as int;
    if r.f.s {
        let adjustment = (if r.f.h {
            0x6int
        } else {
            0int
        }) + (if r.f.c {
            0x60int
        } else {
            0int
        });
        let res = ((a - adjustment + 0x100) % 0x100) as u8;
        Registers {
            a: res,
            f: FlagsRegisters { z: res == 0, s: r.f.s, h: false, c: false },
            ..r
        }
    } else {
        let adjustment = (if r.f.h || a % 16 > 9 {
            0x6int
        } else {
            0int
        }) + (if r.f.c || a > 0x99 {
            0x60int
        } else {
            0int
        });
        let res = ((a + adjustment) % 0x100) as u8;
        Registers {
            a: res,
            f: FlagsRegisters { z: res == 0, s: r.f.s, h: false, c: r.f.c || a > 0x99 },
            ..r
        }
    }
}

/// CPL: complement the accumulator; Subtract and HalfCarry forced set,
/// Zero and Carry untouched.
pub open spec fn spec_cpl(r: Registers) -> Registers {
    Registers { a: !r.a, f: FlagsRegisters { z: r.f.z, s: true, h: true, c: r.f.c }, ..r }
}

/// SCF: set Carry; Subtract and HalfCarry cleared, Zero untouched.
pub open spec fn spec_scf(r: Registers) -> Registers {
    Registers { f: FlagsRegisters { z: r.f.z, s: false, h: false, c: true }, ..r }
}

/// CCF: complement Carry; Subtract and HalfCarry cleared, Zero untouched.
pub open spec fn spec_ccf(r: Registers) -> Registers {
    Registers { f: FlagsRegisters { z: r.f.z, s: false, h: false, c: !r.f.c }, ..r }
}

/// JR n8: consume the displacement byte and move the program counter by
/// its signed value.
pub open spec fn spec_jrn8(s: CpuView) -> CpuView {
    let d = spec_imm8(s);
    let s1 = spec_after_imm8(s);
    CpuView { regs: Registers { pc: spec_add_signed16(s1.regs.pc, d), ..s1.regs }, ..s1 }
}

/// JR cond,n8: the displacement byte is consumed either way; the program
/// counter moves only when the condition holds of the flags.
pub open spec fn spec_jrcondn8(s: CpuView, cond: u8) -> CpuView {
    let d = spec_imm8(s);
    let s1 = spec_after_imm8(s);
    if spec_cond_met(cond, s.regs.f) {
        CpuView { regs: Registers { pc: spec_add_signed16(s1.regs.pc, d), ..s1.regs }, ..s1 }
    } else {
        s1
    }
}

/// What one instruction of block 0 does to the CPU state.
pub open spec fn spec_exec_b0(s: CpuView, i: B0Instruction) -> CpuView {
    match i {
        B0Instruction::NOP => s,
        B0Instruction::LDR16N16(dest) => spec_ldr16n16(s, dest),
        B0Instruction::LDR16(dest) => spec_ldr16(s, dest),
        B0Instruction::LDA(source) => spec_lda(s, source),
        B0Instruction::LDN16SP => spec_ldn16sp(s),
        B0Instruction::INCR16(operand) => spec_incr16(s, operand),
        B0Instruction::DECR16(operand) => spec_decr16(s, operand),
        B0Instruction::ADDHL(operand) => spec_addhl(s, operand),
        B0Instruction::INCR8(operand) => spec_incr8(s, operand),
        B0Instruction::DECR8(operand) => spec_decr8(s, operand),
        B0Instruction::LDR8N8(dest) => spec_ldr8n8(s, dest),
        B0Instruction::RLCA => CpuView { regs: spec_rlca(s.regs), ..s },
        B0Instruction::RRCA => CpuView { regs: spec_rrca(s.regs), ..s },
        B0Instruction::RLA => CpuView { regs: spec_rla(s.regs), ..s },
        B0Instruction::RRA => CpuView { regs: spec_rra(s.regs), ..s },
        B0Instruction::DAA => CpuView { regs: spec_daa(s.regs), ..s },
        B0Instruction::CPL => CpuView { regs: spec_cpl(s.regs), ..s },
        B0Instruction::SCF => CpuView { regs: spec_scf(s.regs), ..s },
        B0Instruction::CCF => CpuView { regs: spec_ccf(s.regs), ..s },
        B0Instruction::JRN8 => spec_jrn8(s),
        B0Instruction::JRCONDN8(cond) => spec_jrcondn8(s, cond),
        B0Instruction::STOP => CpuView { state: RunState::Stopped, ..s },
    }
}

// ---------------------------------------------------------------------
// Block 1 semantics
// ---------------------------------------------------------------------

/// What one instruction of block 1 does: a register-to-register load, or
/// HALT leaving the running state.
pub open spec fn spec_exec_b1(s: CpuView, i: B1Instruction) -> CpuView {
    match i {
        B1Instruction::LD { dest, source } => spec_r8_write(s, dest, spec_r8_read(s, source)),
        B1Instruction::HALT => CpuView { state: RunState::Halted, ..s },
    }
}

// ---------------------------------------------------------------------
// ALU semantics (blocks 2 and 3)
// ---------------------------------------------------------------------

/// The eight accumulator ALU operations, in opcode order ADD, ADC, SUB,
/// SBC, AND, XOR, OR, CP: the adjusted accumulator and the flags.  CP is
/// the subtraction's flags with the accumulator kept.
pub open spec fn spec_alu(op: u8, a: u8, f: FlagsRegisters, v: u8) -> (u8, FlagsRegisters) {
    let ai = a as int;
    let vi = v as int;
    if op == 0 {
        let res = ((ai + vi) % 0x100) as u8;
        (
            res,
            FlagsRegisters { z: res == 0, s: false, h: ai % 16 + vi % 16 > 15, c: ai + vi > 255 },
        )
    } else if op == 1 {
        let cin = if f.c {
            1int
        } else {
            0int
        };
        let res = ((ai + vi + cin) % 0x100) as u8;
        (
            res,
            FlagsRegisters {
                z: res == 0,
                s: false,
                h: ai % 16 + vi % 16 + cin > 15,
                c: ai + vi + cin > 255,
            },
        )
    } else if op == 2 {
        let res = ((ai - vi + 0x100) % 0x100) as u8;
        (
            res,
            FlagsRegisters { z: res == 0, s: true, h: vi % 16 > ai % 16, c: vi > ai },
        )
    } else if op == 3 {
        let cin = if f.c {
            1int
        } else {
            0int
        };
        let res = ((ai - vi - cin + 0x200) % 0x100) as u8;
        (
            res,
            FlagsRegisters {
                z: res == 0,
                s: true,
                h: vi % 16 + cin > ai % 16,
                c: vi + cin > ai,
            },
        )
    } else if op == 4 {
        let res = a & v;
        (res, FlagsRegisters { z: res == 0, s: false, h: true, c: false })
    } else if op == 5 {
        let res = a ^ v;
        (res, FlagsRegisters { z: res == 0, s: false, h: false, c: false })
    } else if op == 6 {
        let res = a | v;
        (res, FlagsRegisters { z: res == 0, s: false, h: false, c: false })
    } else {
        let res = ((ai - vi + 0x100) % 0x100) as u8;
        (a, FlagsRegisters { z: res == 0, s: true, h: vi % 16 > ai % 16, c: vi > ai })
    }
}

/// An ALU operation against the 8-bit operand a 3-bit code selects.
pub open spec fn spec_alu_r8(s: CpuView, op: u8, operand: u8) -> CpuView {
    let v = spec_r8_read(s, operand);
    let out = spec_alu(op, s.regs.a, s.regs.f, v);
    CpuView { regs: Registers { a: out.0, f: out.1, ..s.regs }, ..s }
}

/// An ALU operation against the immediate byte.
pub open spec fn spec_alu_n8(s: CpuView, op: u8) -> CpuView {
    let v = spec_imm8(s);
    let s1 = spec_after_imm8(s);
    let out = spec_alu(op, s1.regs.a, s1.regs.f, v);
    CpuView { regs: Registers { a: out.0, f: out.1, ..s1.regs }, ..s1 }
}

/// What one instruction of block 2 does to the CPU state.
pub open spec fn spec_exec_b2(s: CpuView, i: B2Instruction) -> CpuView {
    match i {
        B2Instruction::ADD(operand) => spec_alu_r8(s, 0, operand),
        B2Instruction::ADC(operand) => spec_alu_r8(s, 1, operand),
        B2Instruction::SUB(operand) => spec_alu_r8(s, 2, operand),
        B2Instruction::SBC(operand) => spec_alu_r8(s, 3, operand),
        B2Instruction::AND(operand) => spec_alu_r8(s, 4, operand),
        B2Instruction::XOR(operand) => spec_alu_r8(s, 5, operand),
        B2Instruction::OR(operand) => spec_alu_r8(s, 6, operand),
        B2Instruction::CP(operand) => spec_alu_r8(s, 7, operand),
    }
}

// ---------------------------------------------------------------------
// Block 3 semantics
// ---------------------------------------------------------------------

/// A 16-bit push: the word's two bytes below the old stack pointer, high
/// byte first going down, the pointer left two lower.
pub open spec fn spec_push16(s: CpuView, val: u16) -> CpuView {
    let sp1 = wrap16(s.regs.sp - 1);
    let sp2 = wrap16(sp1 - 1);
    CpuView {
        regs: Registers { sp: sp2, ..s.regs },
        mem: s.mem.update(sp1 as int, spec_high_byte(val)).update(sp2 as int, spec_low_byte(val)),
        ..s
    }
}

/// The word a 16-bit pop reads: low byte at the stack pointer, high byte
/// just above it.
pub open spec fn spec_pop16_val(s: CpuView) -> u16 {
    spec_pair(s.mem[wrap16(s.regs.sp + 1) as int], s.mem[s.regs.sp as int])
}

/// The state after a 16-bit pop: the stack pointer two higher.
pub open spec fn spec_pop16_state(s: CpuView) -> CpuView {
    CpuView { regs: Registers { sp: wrap16(wrap16(s.regs.sp + 1) + 1), ..s.regs }, ..s }
}

/// RET: the popped word into the program counter.
pub open spec fn spec_ret(s: CpuView) -> CpuView {
    let s1 = spec_pop16_state(s);
    CpuView { regs: Registers { pc: spec_pop16_val(s), ..s1.regs }, ..s1 }
}

/// RET cond: a RET only when the condition holds of the flags.
pub open spec fn spec_retcond(s: CpuView, cond: u8) -> CpuView {
    if spec_cond_met(cond, s.regs.f) {
        spec_ret(s)
    } else {
        s
    }
}

/// RETI: a RET that also re-enables interrupts.
pub open spec fn spec_reti(s: CpuView) -> CpuView {
    CpuView { ime: true, ..spec_ret(s) }
}

/// JP n16: the immediate word into the program counter.
pub open spec fn spec_jpn16(s: CpuView) -> CpuView {
    let n16 = spec_imm16(s);
    let s1 = spec_after_imm16(s);
    CpuView { regs: Registers { pc: n16, ..s1.regs }, ..s1 }
}

/// JP cond,n16: the immediate word is consumed either way; the program
/// counter takes it only when the condition holds of the flags.
pub open spec fn spec_jpcondn16(s: CpuView, cond: u8) -> CpuView {
    let n16 = spec_imm16(s);
    let s1 = spec_after_imm16(s);
    if spec_cond_met(cond, s.regs.f) {
        CpuView { regs: Registers { pc: n16, ..s1.regs }, ..s1 }
    } else {
        s1
    }
}

/// JP HL: the HL pair into the program counter.
pub open spec fn spec_jphl(s: CpuView) -> CpuView {
    CpuView { regs: Registers { pc: spec_pair(s.regs.h, s.regs.l), ..s.regs }, ..s }
}

/// CALL n16: consume the immediate word, push the return address (the
/// byte after the operand), then jump to the word.
pub open spec fn spec_calln16(s: CpuView) -> CpuView {
    let n16 = spec_imm16(s);
    let s1 = spec_push16(spec_after_imm16(s), spec_after_imm16(s).regs.pc);
    CpuView { regs: Registers { pc: n16, ..s1.regs }, ..s1 }
}

/// CALL cond,n16: the immediate word is consumed either way; the push and
/// the jump happen only when the condition holds of the flags.
pub open spec fn spec_callcondn16(s: CpuView, cond: u8) -> CpuView {
    if spec_cond_met(cond, s.regs.f) {
        spec_calln16(s)
    } else {
        spec_after_imm16(s)
    }
}

/// RST tgt3: push the return address and jump to the absolute address
/// eight times the 3-bit target.
pub open spec fn spec_rst(s: CpuView, tgt3: u8) -> CpuView {
    let s1 = spec_push16(s, s.regs.pc);
    CpuView { regs: Registers { pc: (tgt3 as int * 8) as u16, ..s1.regs }, ..s1 }
}

/// POP r16stk: the popped word into the selected pair; popping into AF
/// writes the accumulator and the four flags, the low nibble of the
/// popped byte discarded.
pub open spec fn spec_pop_r16stk(s: CpuView, register: u8) -> CpuView {
    let v = spec_pop16_val(s);
    let s1 = spec_pop16_state(s);
    if register == 0 {
        CpuView { regs: Registers { b: spec_high_byte(v), c: spec_low_byte(v), ..s1.regs }, ..s1 }
    } else if register == 1 {
        CpuView { regs: Registers { d: spec_high_byte(v), e: spec_low_byte(v), ..s1.regs }, ..s1 }
    } else if register == 2 {
        CpuView { regs: Registers { h: spec_high_byte(v), l: spec_low_byte(v), ..s1.regs }, ..s1 }
    } else {
        CpuView {
            regs: Registers {
                a: spec_high_byte(v),
                f: spec_flags_from_byte(spec_low_byte(v)),
                ..s1.regs
            },
            ..s1
        }
    }
}

/// PUSH r16stk: the selected pair onto the stack; AF packs the
/// accumulator over the flag byte.
pub open spec fn spec_push_r16stk(s: CpuView, register: u8) -> CpuView {
    let v = if register == 0 {
        spec_pair(s.regs.b, s.regs.c)
    } else if register == 1 {
        spec_pair(s.regs.d, s.regs.e)
    } else if register == 2 {
        spec_pair(s.regs.h, s.regs.l)
    } else {
        spec_pair(s.regs.a, spec_flags_to_byte(s.regs.f))
    };
    spec_push16(s, v)
}

/// LDH \[C\]: the accumulator against the high page at 0xFF00 + C;
/// direction 0 stores A, direction 1 loads A.
pub open spec fn spec_ldhc(s: CpuView, direction: u8) -> CpuView {
    let addr = (0xFF00 + s.regs.c as int) as u16;
    if direction == 0 {
        CpuView { mem: s.mem.update(addr as int, s.regs.a), ..s }
    } else {
        CpuView { regs: Registers { a: s.mem[addr as int], ..s.regs }, ..s }
    }
}

/// LDH \[n8\]: the accumulator against the high page at 0xFF00 plus the
/// immediate byte; direction 0 stores A, direction 1 loads A.
pub open spec fn spec_ldhn8(s: CpuView, direction: u8) -> CpuView {
    let addr = (0xFF00 + spec_imm8(s) as int) as u16;
    let s1 = spec_after_imm8(s);
    if direction == 0 {
        CpuView { mem: s1.mem.update(addr as int, s1.regs.a), ..s1 }
    } else {
        CpuView { regs: Registers { a: s1.mem[addr as int], ..s1.regs }, ..s1 }
    }
}

/// LD \[n16\]: the accumulator against memory at the immediate word;
/// direction 0 stores A, direction 1 loads A.
pub open spec fn spec_ldn16(s: CpuView, direction: u8) -> CpuView {
    let addr = spec_imm16(s);
    let s1 = spec_after_imm16(s);
    if direction == 0 {
        CpuView { mem: s1.mem.update(addr as int, s1.regs.a), ..s1 }
    } else {
        CpuView { regs: Registers { a: s1.mem[addr as int], ..s1.regs }, ..s1 }
    }
}

/// ADD SP,n8: the stack pointer moved by the signed immediate byte.
/// Zero and Subtract cleared; half carry and carry from the unsigned
/// low-nibble and low-byte additions.
pub open spec fn spec_addspn8(s: CpuView) -> CpuView {
    let d = spec_imm8(s);
    let s1 = spec_after_imm8(s);
    let sp = s1.regs.sp as int;
    CpuView {
        regs: Registers {
            sp: spec_add_signed16(s1.regs.sp, d),
            f: FlagsRegisters {
                z: false,
                s: false,
                h: sp % 16 + d as int % 16 > 15,
                c: sp % 256 + d as int > 255,
            },
            ..s1.regs
        },
        ..s1
    }
}

/// LD HL,SP+n8: HL takes the stack pointer moved by the signed immediate
/// byte; flags as for ADD SP,n8; the stack pointer itself is untouched.
pub open spec fn spec_ldhlspn8(s: CpuView) -> CpuView {
    let d = spec_imm8(s);
    let s1 = spec_after_imm8(s);
    let sp = s1.regs.sp as int;
    let res = spec_add_signed16(s1.regs.sp, d);
    CpuView {
        regs: Registers {
            h: spec_high_byte(res),
            l: spec_low_byte(res),
            f: FlagsRegisters {
                z: false,
                s: false,
                h: sp % 16 + d as int % 16 > 15,
                c: sp % 256 + d as int > 255,
            },
            ..s1.regs
        },
        ..s1
    }
}

/// LD SP,HL: the stack pointer takes the HL pair; no flags.
pub open spec fn spec_ldsphl(s: CpuView) -> CpuView {
    CpuView { regs: Registers { sp: spec_pair(s.regs.h, s.regs.l), ..s.regs }, ..s }
}

/// What one instruction of block 3 does to the CPU state.
pub open spec fn spec_exec_b3(s: CpuView, i: B3Instruction) -> CpuView {
    match i {
        B3Instruction::ADDN8 => spec_alu_n8(s, 0),
        B3Instruction::ADCN8 => spec_alu_n8(s, 1),
        B3Instruction::SUBN8 => spec_alu_n8(s, 2),
        B3Instruction::SBCN8 => spec_alu_n8(s, 3),
        B3Instruction::ANDN8 => spec_alu_n8(s, 4),
        B3Instruction::XORN8 => spec_alu_n8(s, 5),
        B3Instruction::ORN8 => spec_alu_n8(s, 6),
        B3Instruction::CPN8 => spec_alu_n8(s, 7),
        B3Instruction::RETCOND(cond) => spec_retcond(s, cond),
        B3Instruction::RET => spec_ret(s),
        B3Instruction::RETI => spec_reti(s),
        B3Instruction::JPCONDN8(cond) => spec_jpcondn16(s, cond),
        B3Instruction::JPN16 => spec_jpn16(s),
        B3Instruction::JPHL => spec_jphl(s),
        B3Instruction::CALLCONDN8(cond) => spec_callcondn16(s, cond),
        B3Instruction::CALLN16 => spec_calln16(s),
        B3Instruction::RST(tgt3) => spec_rst(s, tgt3),
        B3Instruction::POP(register) => spec_pop_r16stk(s, register),
        B3Instruction::PUSH(register) => spec_push_r16stk(s, register),
        B3Instruction::LDHC(direction) => spec_ldhc(s, direction),
        B3Instruction::LDHN8(direction) => spec_ldhn8(s, direction),
        B3Instruction::LDN16(direction) => spec_ldn16(s, direction),
        B3Instruction::ADDSPN8 => spec_addspn8(s),
        B3Instruction::LDHLSPN8 => spec_ldhlspn8(s),
        B3Instruction::LDSPHL => spec_ldsphl(s),
        B3Instruction::DI => CpuView { ime: false, ..s },
        B3Instruction::EI => CpuView { ime: true, ..s },
    }
}

// ---------------------------------------------------------------------
// Prefixed semantics
// ---------------------------------------------------------------------

/// The eight rotate/shift operations of the CB space, in opcode order
/// RLC, RRC, RL, RR, SLA, SRA, SWAP, SRL: the new value and the carry
/// out.
pub open spec fn spec_rot(kind: u8, v: u8, cin: bool) -> (u8, bool) {
    let vi = v as int;
    if kind == 0 {
        (((vi % 128) * 2 + vi / 128) as u8, v >= 128)
    } else if kind == 1 {
        ((vi / 2 + vi % 2 * 128) as u8, v % 2 == 1)
    } else if kind == 2 {
        (((vi % 128) * 2 + if cin {
            1int
        } else {
            0int
        }) as u8, v >= 128)
    } else if kind == 3 {
        ((vi / 2 + if cin {
            128int
        } else {
            0int
        }) as u8, v % 2 == 1)
    } else if kind == 4 {
        (((vi % 128) * 2) as u8, v >= 128)
    } else if kind == 5 {
        ((vi / 2 + vi / 128 * 128) as u8, v % 2 == 1)
    } else if kind == 6 {
        ((vi % 16 * 16 + vi / 16) as u8, false)
    } else {
        ((vi / 2) as u8, v % 2 == 1)
    }
}

/// A CB rotate/shift against the 8-bit operand a 3-bit code selects.
/// Zero from the result, Subtract and HalfCarry cleared, Carry from the
/// shifted-out bit.
pub open spec fn spec_rot_r8(s: CpuView, kind: u8, operand: u8) -> CpuView {
    let v = spec_r8_read(s, operand);
    let out = spec_rot(kind, v, s.regs.f.c);
    let s1 = spec_r8_write(s, operand, out.0);
    CpuView {
        regs: Registers {
            f: FlagsRegisters { z: out.0 == 0, s: false, h: false, c: out.1 },
            ..s1.regs
        },
        ..s1
    }
}

/// BIT b3: Zero set exactly when the selected bit of the operand is
/// clear; Subtract cleared, HalfCarry set, Carry and the operand
/// untouched.
pub open spec fn spec_bit_test(s: CpuView, b3: u8, operand: u8) -> CpuView {
    let v = spec_r8_read(s, operand);
    CpuView {
        regs: Registers {
            f: FlagsRegisters { z: v >> b3 & 1 == 0, s: false, h: true, c: s.regs.f.c },
            ..s.regs
        },
        ..s
    }
}

/// RES b3: clear the selected bit of the operand; no flags.
pub open spec fn spec_bit_res(s: CpuView, b3: u8, operand: u8) -> CpuView {
    spec_r8_write(s, operand, spec_r8_read(s, operand) & !(1u8 << b3))
}

/// SET b3: set the selected bit of the operand; no flags.
pub open spec fn spec_bit_set(s: CpuView, b3: u8, operand: u8) -> CpuView {
    spec_r8_write(s, operand, spec_r8_read(s, operand) | 1u8 << b3)
}

/// What one CB-prefixed instruction does to the CPU state.
pub open spec fn spec_exec_prefixed(s: CpuView, i: PrefixedInstruction) -> CpuView {
    match i {
        PrefixedInstruction::RLC(operand) => spec_rot_r8(s, 0, operand),
        PrefixedInstruction::RRC(operand) => spec_rot_r8(s, 1, operand),
        PrefixedInstruction::RL(operand) => spec_rot_r8(s, 2, operand),
        PrefixedInstruction::RR(operand) => spec_rot_r8(s, 3, operand),
        PrefixedInstruction::SL(operand) => spec_rot_r8(s, 4, operand),
        PrefixedInstruction::SR(operand) => spec_rot_r8(s, 5, operand),
        PrefixedInstruction::SWAP(operand) => spec_rot_r8(s, 6, operand),
        PrefixedInstruction::SRL(operand) => spec_rot_r8(s, 7, operand),
        PrefixedInstruction::BIT { b3, operand } => spec_bit_test(s, b3, operand),
        PrefixedInstruction::RES { b3, operand } => spec_bit_res(s, b3, operand),
        PrefixedInstruction::SET { b3, operand } => spec_bit_set(s, b3, operand),
    }
}

// ---------------------------------------------------------------------
// The whole step
// ---------------------------------------------------------------------

/// What one decoded instruction does to the CPU state, the program
/// counter already past the opcode byte(s).
#[verifier::opaque]
pub open spec fn spec_exec_instr(s: CpuView, i: Instruction) -> CpuView {
    match i {
        Instruction::Block0(b) => spec_exec_b0(s, b),
        Instruction::Block1(b) => spec_exec_b1(s, b),
        Instruction::Block2(b) => spec_exec_b2(s, b),
        Instruction::Block3(b) => spec_exec_b3(s, b),
        Instruction::Prefixed(p) => spec_exec_prefixed(s, p),
    }
}

/// What one call of `cycle` does.  A CPU that has ended or left the
/// running state is untouched.  Otherwise the byte at the program counter
/// is examined: the CB marker pulls in the following byte as a prefixed
/// opcode.  A decodable opcode is consumed and executed; an unmapped one
/// ends stepping with every register and memory byte exactly as before
/// the fetch.
pub open spec fn spec_cycle(s: CpuView) -> CpuView {
    if s.end || s.state != RunState::Running {
        s
    } else {
        let opcode = s.mem[s.regs.pc as int];
        if opcode == 0xCB {
            let second = s.mem[wrap16(s.regs.pc + 1) as int];
            match spec_from_byte(second, true) {
                Ok(i) => spec_exec_instr(CpuView { regs: spec_step_pc(s.regs, 2), ..s }, i),
                Err(_) => CpuView { end: true, ..s },
            }
        } else {
            match spec_from_byte(opcode, false) {
                Ok(i) => spec_exec_instr(CpuView { regs: spec_step_pc(s.regs, 1), ..s }, i),
                Err(_) => CpuView { end: true, ..s },
            }
        }
    }
}

/// A decode failure is terminal and loses nothing: whenever the byte at
/// the program counter is not the CB marker and has no mapped
/// instruction, a cycle only raises `end`; every register and every
/// memory byte stays exactly as before the fetch.
pub proof fn lemma_unmapped_opcode_ends_run(s: CpuView)
    requires
        !s.end,
        s.state == RunState::Running,
        s.mem[s.regs.pc as int] != 0xCB,
        spec_from_byte(s.mem[s.regs.pc as int], false) is Err,
    ensures
        spec_cycle(s) == (CpuView { end: true, ..s }),
{
}

/// A CPU that has ended, halted or stopped is suspended: a cycle touches
/// nothing until the resume hook re-enters the running state.
pub proof fn lemma_suspended_cpu_is_untouched(s: CpuView)
    requires
        s.end || s.state != RunState::Running,
    ensures
        spec_cycle(s) == s,
{
}

/// The CPU: the register file, the memory bus it owns, and the run
/// bookkeeping.  `end` is raised by a decode failure and is terminal for
/// the run; `state` leaves `Running` on HALT and STOP until `resume`;
/// `ime` is the master interrupt-enable bit that DI, EI and RETI drive.
pub struct CPU {
    pub registers: Registers,
    pub memory_bus: MemoryManagementUnit,
    pub end: bool,
    pub state: RunState,
    pub ime: bool,
}

impl View for CPU {
    type V = CpuView;

    open spec fn view(&self) -> CpuView {
        CpuView {
            regs: self.registers,
            mem: self.memory_bus@,
            state: self.state,
            end: self.end,
            ime: self.ime,
        }
    }
}

impl CPU {
    /// Well-formedness: the bus backs the whole address space.
    pub open spec fn wf(&self) -> bool {
        self.memory_bus.wf()
    }

    /// A fresh CPU: registers zeroed, memory zeroed, running, not ended,
    /// interrupts disabled.
    pub fn new() -> (cpu: CPU)
        ensures
            cpu.wf(),
            cpu@ == (CpuView {
                regs: Registers {
                    a: 0,
                    b: 0,
                    c: 0,
                    d: 0,
                    e: 0,
                    f: FlagsRegisters { z: false, s: false, h: false, c: false },
                    h: 0,
                    l: 0,
                    sp: 0,
                    pc: 0,
                },
                mem: Seq::<u8>::new(MEMORY_SIZE as nat, |i: int| 0u8),
                state: RunState::Running,
                end: false,
                ime: false,
            }),
    {
        CPU {
            registers: Registers::new(),
            memory_bus: MemoryManagementUnit::new(),
            end: false,
            state: RunState::Running,
            ime: false,
        }
    }

    /// Re-enters the running state; the hook the excluded interrupt
    /// controller calls to lift a HALT or STOP.
    pub fn resume(&mut self)
        ensures
            final(self)@ == (CpuView { state: RunState::Running, ..old(self)@ }),
    {
        self.state = RunState::Running;
    }

    /// Reads the byte at the program counter and steps past it.
    fn fetch(&mut self) -> (byte: u8)
        requires
            old(self).wf(),
        ensures
            final(self).wf(),
            byte == spec_imm8(old(self)@),
            final(self)@ == spec_after_imm8(old(self)@),
    {
        let byte = self.memory_bus.read_byte(self.registers.pc);
        self.registers.advance_pc();
        byte
    }

    /// Reads the immediate word at the program counter, low byte first,
    /// and steps past both bytes.
    fn fetch_n16(&mut self) -> (word: u16)
        requires
            old(self).wf(),
        ensures
            final(self).wf(),
            word == spec_imm16(old(self)@),
            final(self)@ == spec_after_imm16(old(self)@),
    {
        let lo = self.fetch();
        let hi = self.fetch();
        (hi as u16) * 256 + (lo as u16)
    }

    /// The 8-bit operand a 3-bit code selects, the \[HL\] slot read off
    /// the bus.
    fn read_r8(&self, code: u8) -> (v: u8)
        requires
            self.wf(),
            code < 8,
        ensures
            v == spec_r8_read(self@, code),
    {
        match R8::try_from(code) {
            Ok(R8::B) => self.registers.b,
            Ok(R8::C) => self.registers.c,
            Ok(R8::D) => self.registers.d,
            Ok(R8::E) => self.registers.e,
            Ok(R8::H) => self.registers.h,
            Ok(R8::L) => self.registers.l,
            Ok(R8::HL) => self.memory_bus.read_byte(self.registers.hl()),
            Ok(R8::A) => self.registers.a,
            Err(_) => unreached(),
        }
    }

    /// Writes the 8-bit operand a 3-bit code selects, the \[HL\] slot
    /// written through the bus.
    fn write_r8(&mut self, code: u8, val: u8)
        requires
            old(self).wf(),
            code < 8,
        ensures
            final(self).wf(),
            final(self)@ == spec_r8_write(old(self)@, code, val),
    {
        match R8::try_from(code) {
            Ok(R8::B) => self.registers.b = val,
            Ok(R8::C) => self.registers.c = val,
            Ok(R8::D) => self.registers.d = val,
            Ok(R8::E) => self.registers.e = val,
            Ok(R8::H) => self.registers.h = val,
            Ok(R8::L) => self.registers.l = val,
            Ok(R8::HL) => {
                let addr = self.registers.hl();
                self.memory_bus.set_byte(addr, val);
            },
            Ok(R8::A) => self.registers.a = val,
            Err(_) => unreached(),
        }
    }

    // -----------------------------------------------------------------
    // Block 0 handlers
    // -----------------------------------------------------------------

    fn ldr16n16(&mut self, dest: u8)
        requires
            old(self).wf(),
            dest < 4,
        ensures
            final(self).wf(),
            final(self)@ == spec_ldr16n16(old(self)@, dest),
    {
        let n16 = self.fetch_n16();
        match R16::try_from(dest) {
            Ok(R16::BC) => self.registers.set_bc(n16),
            Ok(R16::DE) => self.registers.set_de(n16),
            Ok(R16::HL) => self.registers.set_hl(n16),
            Ok(R16::SP) => self.registers.sp = n16,
            Err(_) => unreached(),
        }
    }

    fn ldr16(&mut self, dest: u8)
        requires
            old(self).wf(),
            dest < 4,
        ensures
            final(self).wf(),
            final(self)@ == spec_ldr16(old(self)@, dest),
    {
        match R16Mem::try_from(dest) {
            Ok(R16Mem::BC) => {
                let addr = self.registers.bc();
                self.memory_bus.set_byte(addr, self.registers.a);
            },
            Ok(R16Mem::DE) => {
                let addr = self.registers.de();
                self.memory_bus.set_byte(addr, self.registers.a);
            },
            Ok(R16Mem::HLI) => {
                let hl = self.registers.hl();
                self.memory_bus.set_byte(hl, self.registers.a);
                self.registers.set_hl(crate::words::wrap_inc16(hl));
            },
            Ok(R16Mem::HLD) => {
                let hl = self.registers.hl();
                self.memory_bus.set_byte(hl, self.registers.a);
                self.registers.set_hl(crate::words::wrap_dec16(hl));
            },
            Err(_) => unreached(),
        }
    }

    fn lda(&mut self, source: u8)
        requires
            old(self).wf(),
            source < 4,
        ensures
            final(self).wf(),
            final(self)@ == spec_lda(old(self)@, source),
    {
        match R16Mem::try_from(source) {
            Ok(R16Mem::BC) => {
                let addr = self.registers.bc();
                self.registers.a = self.memory_bus.read_byte(addr);
            },
            Ok(R16Mem::DE) => {
                let addr = self.registers.de();
                self.registers.a = self.memory_bus.read_byte(addr);
            },
            Ok(R16Mem::HLI) => {
                let hl = self.registers.hl();
                self.registers.a = self.memory_bus.read_byte(hl);
                self.registers.set_hl(crate::words::wrap_inc16(hl));
            },
            Ok(R16Mem::HLD) => {
                let hl = self.registers.hl();
                self.registers.a = self.memory_bus.read_byte(hl);
                self.registers.set_hl(crate::words::wrap_dec16(hl));
            },
            Err(_) => unreached(),
        }
    }

    fn ldn16sp(&mut self)
        requires
            old(self).wf(),
        ensures
            final(self).wf(),
            final(self)@ == spec_ldn16sp(old(self)@),
    {
        let n16 = self.fetch_n16();
        let sp_low: u8 = (self.registers.sp % 256) as u8;
        let sp_high: u8 = (self.registers.sp / 256) as u8;
        self.memory_bus.set_byte(n16, sp_low);
        self.memory_bus.set_byte(crate::words::wrap_inc16(n16), sp_high);
    }

    fn incr16(&mut self, operand: u8)
        requires
            old(self).wf(),
            operand < 4,
        ensures
            final(self).wf(),
            final(self)@ == spec_incr16(old(self)@, operand),
    {
        match R16::try_from(operand) {
            Ok(R16::BC) => {
                let current = self.registers.bc();
                self.registers.set_bc(crate::words::wrap_inc16(current));
            },
            Ok(R16::DE) => {
                let current = self.registers.de();
                self.registers.set_de(crate::words::wrap_inc16(current));
            },
            Ok(R16::HL) => {
                let current = self.registers.hl();
                self.registers.set_hl(crate::words::wrap_inc16(current));
            },
            Ok(R16::SP) => {
                self.registers.sp = crate::words::wrap_inc16(self.registers.sp);
            },
            Err(_) => unreached(),
        }
    }

    fn decr16(&mut self, operand: u8)
        requires
            old(self).wf(),
            operand < 4,
        ensures
            final(self).wf(),
            final(self)@ == spec_decr16(old(self)@, operand),
    {
        match R16::try_from(operand) {
            Ok(R16::BC) => {
                let current = self.registers.bc();
                self.registers.set_bc(crate::words::wrap_dec16(current));
            },
            Ok(R16::DE) => {
                let current = self.registers.de();
                self.registers.set_de(crate::words::wrap_dec16(current));
            },
            Ok(R16::HL) => {
                let current = self.registers.hl();
                self.registers.set_hl(crate::words::wrap_dec16(current));
            },
            Ok(R16::SP) => {
                self.registers.sp = crate::words::wrap_dec16(self.registers.sp);
            },
            Err(_) => unreached(),
        }
    }

    #[verifier::rlimit(50)]
    fn addhl(&mut self, operand: u8)
        requires
            old(self).wf(),
            operand < 4,
        ensures
            final(self).wf(),
            final(self)@ == spec_addhl(old(self)@, operand),
    {
        let old_hl = self.registers.hl();
        let register_val: u16 = match R16::try_from(operand) {
            Ok(R16::BC) => self.registers.bc(),
            Ok(R16::DE) => self.registers.de(),
            Ok(R16::HL) => self.registers.hl(),
            Ok(R16::SP) => self.registers.sp,
            Err(_) => unreached(),
        };
        let res = crate::words::wrap_add16(old_hl, register_val);
        let carry = (old_hl as u32) + (register_val as u32) > 0xFFFF;
        let half = old_hl % 0x1000 + register_val % 0x1000 > 0xFFF;
        self.registers.f = FlagsRegisters { z: self.registers.f.z, s: false, h: half, c: carry };
        self.registers.set_hl(res);
    }

    fn incr8(&mut self, operand: u8)
        requires
            old(self).wf(),
            operand < 8,
        ensures
            final(self).wf(),
            final(self)@ == spec_incr8(old(self)@, operand),
    {
        let v = self.read_r8(operand);
        let res = crate::words::wrap_add8(v, 1);
        self.write_r8(operand, res);
        self.registers.f = FlagsRegisters {
            z: res == 0,
            s: false,
            h: v % 16 == 15,
            c: self.registers.f.c,
        };
    }

    fn decr8(&mut self, operand: u8)
        requires
            old(self).wf(),
            operand < 8,
        ensures
            final(self).wf(),
            final(self)@ == spec_decr8(old(self)@, operand),
    {
        let v = self.read_r8(operand);
        let res = crate::words::wrap_sub8(v, 1);
        self.write_r8(operand, res);
        self.registers.f = FlagsRegisters {
            z: res == 0,
            s: true,
            h: v % 16 == 0,
            c: self.registers.f.c,
        };
    }

    fn ldr8n8(&mut self, dest: u8)
        requires
            old(self).wf(),
            dest < 8,
        ensures
            final(self).wf(),
            final(self)@ == spec_ldr8n8(old(self)@, dest),
    {
        let n8 = self.fetch();
        self.write_r8(dest, n8);
    }

    fn rlca(&mut self)
        requires
            old(self).wf(),
        ensures
            final(self).wf(),
            final(self)@ == (CpuView { regs: spec_rlca(old(self)@.regs), ..old(self)@ }),
    {
        let a = self.registers.a;
        self.registers.a = a % 128 * 2 + a / 128;
        self.registers.f = FlagsRegisters { z: false, s: false, h: false, c: a >= 128 };
    }

    fn rrca(&mut self)
        requires
            old(self).wf(),
        ensures
            final(self).wf(),
            final(self)@ == (CpuView { regs: spec_rrca(old(self)@.regs), ..old(self)@ }),
    {
        let a = self.registers.a;
        self.registers.a = a / 2 + a % 2 * 128;
        self.registers.f = FlagsRegisters { z: false, s: false, h: false, c: a % 2 == 1 };
    }

    fn rla(&mut self)
        requires
            old(self).wf(),
        ensures
            final(self).wf(),
            final(self)@ == (CpuView { regs: spec_rla(old(self)@.regs), ..old(self)@ }),
    {
        let a = self.registers.a;
        let carry_in: u8 = if self.registers.f.c {
            1
        } else {
            0
        };
        self.registers.a = a % 128 * 2 + carry_in;
        self.registers.f = FlagsRegisters { z: false, s: false, h: false, c: a >= 128 };
    }

    fn rra(&mut self)
        requires
            old(self).wf(),
        ensures
            final(self).wf(),
            final(self)@ == (CpuView { regs: spec_rra(old(self)@.regs), ..old(self)@ }),
    {
        let a = self.registers.a;
        let carry_in: u8 = if self.registers.f.c {
            128
        } else {
            0
        };
        self.registers.a = a / 2 + carry_in;
        self.registers.f = FlagsRegisters { z: false, s: false, h: false, c: a % 2 == 1 };
    }

    fn daa(&mut self)
        requires
            old(self).wf(),
        ensures
            final(self).wf(),
            final(self)@ == (CpuView { regs: spec_daa(old(self)@.regs), ..old(self)@ }),
    {
        let a = self.registers.a;
        let f = self.registers.f;
        if f.s {
            let adjustment: u8 = (if f.h {
                0x6
            } else {
                0
            }) + (if f.c {
                0x60
            } else {
                0
            });
            let res = crate::words::wrap_sub8(a, adjustment);
            self.registers.a = res;
            self.registers.f = FlagsRegisters { z: res == 0, s: f.s, h: false, c: false };
        } else {
            let adjustment: u8 = (if f.h || a % 16 > 9 {
                0x6
            } else {
                0
            }) + (if f.c || a > 0x99 {
                0x60
            } else {
                0
            });
            let res = crate::words::wrap_add8(a, adjustment);
            self.registers.a = res;
            self.registers.f = FlagsRegisters {
                z: res == 0,
                s: f.s,
                h: false,
                c: f.c || a > 0x99,
            };
        }
    }

    fn cpl(&mut self)
        requires
            old(self).wf(),
        ensures
            final(self).wf(),
            final(self)@ == (CpuView { regs: spec_cpl(old(self)@.regs), ..old(self)@ }),
    {
        self.registers.a = !self.registers.a;
        self.registers.f = FlagsRegisters {
            z: self.registers.f.z,
            s: true,
            h: true,
            c: self.registers.f.c,
        };
    }

    fn scf(&mut self)
        requires
            old(self).wf(),
        ensures
            final(self).wf(),
            final(self)@ == (CpuView { regs: spec_scf(old(self)@.regs), ..old(self)@ }),
    {
        self.registers.f = FlagsRegisters {
            z: self.registers.f.z,
            s: false,
            h: false,
            c: true,
        };
    }

    fn ccf(&mut self)
        requires
            old(self).wf(),
        ensures
            final(self).wf(),
            final(self)@ == (CpuView { regs: spec_ccf(old(self)@.regs), ..old(self)@ }),
    {
        self.registers.f = FlagsRegisters {
            z: self.registers.f.z,
            s: false,
            h: false,
            c: !self.registers.f.c,
        };
    }

    fn jrn8(&mut self)
        requires
            old(self).wf(),
        ensures
            final(self).wf(),
            final(self)@ == spec_jrn8(old(self)@),
    {
        self.jump_relative();
    }

    fn jrcondn8(&mut self, cond: u8)
        requires
            old(self).wf(),
            cond < 4,
        ensures
            final(self).wf(),
            final(self)@ == spec_jrcondn8(old(self)@, cond),
    {
        let taken = match Cond::try_from(cond) {
            Ok(c) => c.met(&self.registers.f),
            Err(_) => unreached(),
        };
        let d = self.fetch();
        if taken {
            self.registers.pc = crate::words::add_signed16(self.registers.pc, d);
        }
    }

    fn stop(&mut self)
        ensures
            final(self)@ == (CpuView { state: RunState::Stopped, ..old(self)@ }),
            final(self).wf() == old(self).wf(),
    {
        self.state = RunState::Stopped;
    }

    /// Consumes the displacement byte and moves the program counter by
    /// its signed value.
    fn jump_relative(&mut self)
        requires
            old(self).wf(),
        ensures
            final(self).wf(),
            final(self)@ == spec_jrn8(old(self)@),
    {
        let d = self.fetch();
        self.registers.pc = crate::words::add_signed16(self.registers.pc, d);
    }

    /// Dispatches one block 0 instruction to its handler.
    fn execute_block_zero(&mut self, instruction: B0Instruction)
        requires
            old(self).wf(),
            spec_instr_wf(Instruction::Block0(instruction)),
        ensures
            final(self).wf(),
            final(self)@ == spec_exec_b0(old(self)@, instruction),
    {
        match instruction {
            B0Instruction::NOP => (),
            B0Instruction::LDR16N16(dest) => self.ldr16n16(dest),
            B0Instruction::LDR16(dest) => self.ldr16(dest),
            B0Instruction::LDA(source) => self.lda(source),
            B0Instruction::LDN16SP => self.ldn16sp(),
            B0Instruction::INCR16(operand) => self.incr16(operand),
            B0Instruction::DECR16(operand) => self.decr16(operand),
            B0Instruction::ADDHL(operand) => self.addhl(operand),
            B0Instruction::INCR8(operand) => self.incr8(operand),
            B0Instruction::DECR8(operand) => self.decr8(operand),
            B0Instruction::LDR8N8(dest) => self.ldr8n8(dest),
            B0Instruction::RLCA => self.rlca(),
            B0Instruction::RRCA => self.rrca(),
            B0Instruction::RLA => self.rla(),
            B0Instruction::RRA => self.rra(),
            B0Instruction::DAA => self.daa(),
            B0Instruction::CPL => self.cpl(),
            B0Instruction::SCF => self.scf(),
            B0Instruction::CCF => self.ccf(),
            B0Instruction::JRN8 => self.jrn8(),
            B0Instruction::JRCONDN8(cond) => self.jrcondn8(cond),
            B0Instruction::STOP => self.stop(),
        }
    }

    // -----------------------------------------------------------------
    // Block 1 handlers
    // -----------------------------------------------------------------

    fn ld_r8(&mut self, dest: u8, source: u8)
        requires
            old(self).wf(),
            dest < 8,
            source < 8,
        ensures
            final(self).wf(),
            final(self)@ == spec_r8_write(old(self)@, dest, spec_r8_read(old(self)@, source)),
    {
        let v = self.read_r8(source);
        self.write_r8(dest, v);
    }

    fn halt(&mut self)
        ensures
            final(self)@ == (CpuView { state: RunState::Halted, ..old(self)@ }),
            final(self).wf() == old(self).wf(),
    {
        self.state = RunState::Halted;
    }

    /// Dispatches one block 1 instruction to its handler.
    fn execute_block_one(&mut self, instruction: B1Instruction)
        requires
            old(self).wf(),
            spec_instr_wf(Instruction::Block1(instruction)),
        ensures
            final(self).wf(),
            final(self)@ == spec_exec_b1(old(self)@, instruction),
    {
        match instruction {
            B1Instruction::LD { dest, source } => self.ld_r8(dest, source),
            B1Instruction::HALT => self.halt(),
        }
    }

    // -----------------------------------------------------------------
    // ALU handlers (blocks 2 and 3)
    // -----------------------------------------------------------------

    /// Applies one of the eight ALU operations to the accumulator.
    fn alu_apply(&mut self, op: u8, v: u8)
        requires
            old(self).wf(),
            op < 8,
        ensures
            final(self).wf(),
            final(self)@ == (CpuView {
                regs: (Registers {
                    a: spec_alu(op, old(self)@.regs.a, old(self)@.regs.f, v).0,
                    f: spec_alu(op, old(self)@.regs.a, old(self)@.regs.f, v).1,
                    ..old(self)@.regs
                }),
                ..old(self)@
            }),
    {
        let a = self.registers.a;
        let f = self.registers.f;
        let out: (u8, FlagsRegisters) = match op {
            0 => {
                let wide: u16 = a as u16 + v as u16;
                let res = (wide % 256) as u8;
                (
                    res,
                    FlagsRegisters {
                        z: res == 0,
                        s: false,
                        h: a % 16 + v % 16 > 15,
                        c: wide > 255,
                    },
                )
            },
            1 => {
                let carry_in: u16 = if f.c {
                    1
                } else {
                    0
                };
                let wide: u16 = a as u16 + v as u16 + carry_in;
                let res = (wide % 256) as u8;
                (
                    res,
                    FlagsRegisters {
                        z: res == 0,
                        s: false,
                        h: (a % 16) as u16 + (v % 16) as u16 + carry_in > 15,
                        c: wide > 255,
                    },
                )
            },
            2 => {
                let res = crate::words::wrap_sub8(a, v);
                (
                    res,
                    FlagsRegisters { z: res == 0, s: true, h: v % 16 > a % 16, c: v > a },
                )
            },
            3 => {
                let carry_in: u16 = if f.c {
                    1
                } else {
                    0
                };
                let wide: u16 = a as u16 + 0x200 - v as u16 - carry_in;
                let res = (wide % 256) as u8;
                (
                    res,
                    FlagsRegisters {
                        z: res == 0,
                        s: true,
                        h: (v % 16) as u16 + carry_in > (a % 16) as u16,
                        c: v as u16 + carry_in > a as u16,
                    },
                )
            },
            4 => {
                let res = a & v;
                (res, FlagsRegisters { z: res == 0, s: false, h: true, c: false })
            },
            5 => {
                let res = a ^ v;
                (res, FlagsRegisters { z: res == 0, s: false, h: false, c: false })
            },
            6 => {
                let res = a | v;
                (res, FlagsRegisters { z: res == 0, s: false, h: false, c: false })
            },
            _ => {
                let res = crate::words::wrap_sub8(a, v);
                (
                    a,
                    FlagsRegisters { z: res == 0, s: true, h: v % 16 > a % 16, c: v > a },
                )
            },
        };
        self.registers.a = out.0;
        self.registers.f = out.1;
    }

    /// An ALU operation against the operand a 3-bit code selects.
    fn alu_r8(&mut self, op: u8, operand: u8)
        requires
            old(self).wf(),
            op < 8,
            operand < 8,
        ensures
            final(self).wf(),
            final(self)@ == spec_alu_r8(old(self)@, op, operand),
    {
        let v = self.read_r8(operand);
        self.alu_apply(op, v);
    }

    /// An ALU operation against the immediate byte.
    fn alu_n8(&mut self, op: u8)
        requires
            old(self).wf(),
            op < 8,
        ensures
            final(self).wf(),
            final(self)@ == spec_alu_n8(old(self)@, op),
    {
        let v = self.fetch();
        self.alu_apply(op, v);
    }

    /// Dispatches one block 2 instruction to the ALU.
    fn execute_block_two(&mut self, instruction: B2Instruction)
        requires
            old(self).wf(),
            spec_instr_wf(Instruction::Block2(instruction)),
        ensures
            final(self).wf(),
            final(self)@ == spec_exec_b2(old(self)@, instruction),
    {
        match instruction {
            B2Instruction::ADD(operand) => self.alu_r8(0, operand),
            B2Instruction::ADC(operand) => self.alu_r8(1, operand),
            B2Instruction::SUB(operand) => self.alu_r8(2, operand),
            B2Instruction::SBC(operand) => self.alu_r8(3, operand),
            B2Instruction::AND(operand) => self.alu_r8(4, operand),
            B2Instruction::XOR(operand) => self.alu_r8(5, operand),
            B2Instruction::OR(operand) => self.alu_r8(6, operand),
            B2Instruction::CP(operand) => self.alu_r8(7, operand),
        }
    }

    // -----------------------------------------------------------------
    // Block 3 handlers
    // -----------------------------------------------------------------

    /// Pushes a word: both bytes below the old stack pointer, high byte
    /// first going down.
    fn push16(&mut self, val: u16)
        requires
            old(self).wf(),
        ensures
            final(self).wf(),
            final(self)@ == spec_push16(old(self)@, val),
    {
        let sp1 = crate::words::wrap_dec16(self.registers.sp);
        self.memory_bus.set_byte(sp1, (val / 256) as u8);
        let sp2 = crate::words::wrap_dec16(sp1);
        self.memory_bus.set_byte(sp2, (val % 256) as u8);
        self.registers.sp = sp2;
    }

    /// Pops a word: low byte at the stack pointer, high byte above it.
    fn pop16(&mut self) -> (val: u16)
        requires
            old(self).wf(),
        ensures
            final(self).wf(),
            val == spec_pop16_val(old(self)@),
            final(self)@ == spec_pop16_state(old(self)@),
    {
        let lo = self.memory_bus.read_byte(self.registers.sp);
        let sp1 = crate::words::wrap_inc16(self.registers.sp);
        let hi = self.memory_bus.read_byte(sp1);
        self.registers.sp = crate::words::wrap_inc16(sp1);
        (hi as u16) * 256 + (lo as u16)
    }

    fn ret(&mut self)
        requires
            old(self).wf(),
        ensures
            final(self).wf(),
            final(self)@ == spec_ret(old(self)@),
    {
        let val = self.pop16();
        self.registers.pc = val;
    }

    fn retcond(&mut self, cond: u8)
        requires
            old(self).wf(),
            cond < 4,
        ensures
            final(self).wf(),
            final(self)@ == spec_retcond(old(self)@, cond),
    {
        let taken = match Cond::try_from(cond) {
            Ok(c) => c.met(&self.registers.f),
            Err(_) => unreached(),
        };
        if taken {
            self.ret();
        }
    }

    fn reti(&mut self)
        requires
            old(self).wf(),
        ensures
            final(self).wf(),
            final(self)@ == spec_reti(old(self)@),
    {
        self.ret();
        self.ime = true;
    }

    fn jpn16(&mut self)
        requires
            old(self).wf(),
        ensures
            final(self).wf(),
            final(self)@ == spec_jpn16(old(self)@),
    {
        let n16 = self.fetch_n16();
        self.registers.pc = n16;
    }

    fn jpcondn16(&mut self, cond: u8)
        requires
            old(self).wf(),
            cond < 4,
        ensures
            final(self).wf(),
            final(self)@ == spec_jpcondn16(old(self)@, cond),
    {
        let taken = match Cond::try_from(cond) {
            Ok(c) => c.met(&self.registers.f),
            Err(_) => unreached(),
        };
        let n16 = self.fetch_n16();
        if taken {
            self.registers.pc = n16;
        }
    }

    fn jphl(&mut self)
        requires
            old(self).wf(),
        ensures
            final(self).wf(),
            final(self)@ == spec_jphl(old(self)@),
    {
        self.registers.pc = self.registers.hl();
    }

    fn calln16(&mut self)
        requires
            old(self).wf(),
        ensures
            final(self).wf(),
            final(self)@ == spec_calln16(old(self)@),
    {
        let n16 = self.fetch_n16();
        let ret_addr = self.registers.pc;
        self.push16(ret_addr);
        self.registers.pc = n16;
    }

    fn callcondn16(&mut self, cond: u8)
        requires
            old(self).wf(),
            cond < 4,
        ensures
            final(self).wf(),
            final(self)@ == spec_callcondn16(old(self)@, cond),
    {
        let taken = match Cond::try_from(cond) {
            Ok(c) => c.met(&self.registers.f),
            Err(_) => unreached(),
        };
        let n16 = self.fetch_n16();
        if taken {
            let ret_addr = self.registers.pc;
            self.push16(ret_addr);
            self.registers.pc = n16;
        }
    }

    fn rst(&mut self, tgt3: u8)
        requires
            old(self).wf(),
            tgt3 < 8,
        ensures
            final(self).wf(),
            final(self)@ == spec_rst(old(self)@, tgt3),
    {
        let ret_addr = self.registers.pc;
        self.push16(ret_addr);
        self.registers.pc = (tgt3 as u16) * 8;
    }

    fn pop_r16stk(&mut self, register: u8)
        requires
            old(self).wf(),
            register < 4,
        ensures
            final(self).wf(),
            final(self)@ == spec_pop_r16stk(old(self)@, register),
    {
        let val = self.pop16();
        match R16Stk::try_from(register) {
            Ok(R16Stk::BC) => self.registers.set_bc(val),
            Ok(R16Stk::DE) => self.registers.set_de(val),
            Ok(R16Stk::HL) => self.registers.set_hl(val),
            Ok(R16Stk::AF) => {
                self.registers.a = (val / 256) as u8;
                self.registers.f = FlagsRegisters::from_byte((val % 256) as u8);
            },
            Err(_) => unreached(),
        }
    }

    fn push_r16stk(&mut self, register: u8)
        requires
            old(self).wf(),
            register < 4,
        ensures
            final(self).wf(),
            final(self)@ == spec_push_r16stk(old(self)@, register),
    {
        let val: u16 = match R16Stk::try_from(register) {
            Ok(R16Stk::BC) => self.registers.bc(),
            Ok(R16Stk::DE) => self.registers.de(),
            Ok(R16Stk::HL) => self.registers.hl(),
            Ok(R16Stk::AF) => (self.registers.a as u16) * 256 + (self.registers.f.to_byte()
                as u16),
            Err(_) => unreached(),
        };
        self.push16(val);
    }

    fn ldhc(&mut self, direction: u8)
        requires
            old(self).wf(),
            direction < 2,
        ensures
            final(self).wf(),
            final(self)@ == spec_ldhc(old(self)@, direction),
    {
        let addr: u16 = 0xFF00 + self.registers.c as u16;
        if direction == 0 {
            self.memory_bus.set_byte(addr, self.registers.a);
        } else {
            self.registers.a = self.memory_bus.read_byte(addr);
        }
    }

    fn ldhn8(&mut self, direction: u8)
        requires
            old(self).wf(),
            direction < 2,
        ensures
            final(self).wf(),
            final(self)@ == spec_ldhn8(old(self)@, direction),
    {
        let n8 = self.fetch();
        let addr: u16 = 0xFF00 + n8 as u16;
        if direction == 0 {
            self.memory_bus.set_byte(addr, self.registers.a);
        } else {
            self.registers.a = self.memory_bus.read_byte(addr);
        }
    }

    fn ldn16(&mut self, direction: u8)
        requires
            old(self).wf(),
            direction < 2,
        ensures
            final(self).wf(),
            final(self)@ == spec_ldn16(old(self)@, direction),
    {
        let n16 = self.fetch_n16();
        if direction == 0 {
            self.memory_bus.set_byte(n16, self.registers.a);
        } else {
            self.registers.a = self.memory_bus.read_byte(n16);
        }
    }

    fn addspn8(&mut self)
        requires
            old(self).wf(),
        ensures
            final(self).wf(),
            final(self)@ == spec_addspn8(old(self)@),
    {
        let d = self.fetch();
        let sp = self.registers.sp;
        let res = crate::words::add_signed16(sp, d);
        let half = sp % 16 + (d % 16) as u16 > 15;
        let carry = sp % 256 + d as u16 > 255;
        self.registers.sp = res;
        self.registers.f = FlagsRegisters { z: false, s: false, h: half, c: carry };
    }

    fn ldhlspn8(&mut self)
        requires
            old(self).wf(),
        ensures
            final(self).wf(),
            final(self)@ == spec_ldhlspn8(old(self)@),
    {
        let d = self.fetch();
        let sp = self.registers.sp;
        let res = crate::words::add_signed16(sp, d);
        let half = sp % 16 + (d % 16) as u16 > 15;
        let carry = sp % 256 + d as u16 > 255;
        self.registers.f = FlagsRegisters { z: false, s: false, h: half, c: carry };
        self.registers.set_hl(res);
    }

    fn ldsphl(&mut self)
        requires
            old(self).wf(),
        ensures
            final(self).wf(),
            final(self)@ == spec_ldsphl(old(self)@),
    {
        self.registers.sp = self.registers.hl();
    }

    /// Dispatches one block 3 instruction to its handler.
    fn execute_block_three(&mut self, instruction: B3Instruction)
        requires
            old(self).wf(),
            spec_instr_wf(Instruction::Block3(instruction)),
        ensures
            final(self).wf(),
            final(self)@ == spec_exec_b3(old(self)@, instruction),
    {
        match instruction {
            B3Instruction::ADDN8 => self.alu_n8(0),
            B3Instruction::ADCN8 => self.alu_n8(1),
            B3Instruction::SUBN8 => self.alu_n8(2),
            B3Instruction::SBCN8 => self.alu_n8(3),
            B3Instruction::ANDN8 => self.alu_n8(4),
            B3Instruction::XORN8 => self.alu_n8(5),
            B3Instruction::ORN8 => self.alu_n8(6),
            B3Instruction::CPN8 => self.alu_n8(7),
            B3Instruction::RETCOND(cond) => self.retcond(cond),
            B3Instruction::RET => self.ret(),
            B3Instruction::RETI => self.reti(),
            B3Instruction::JPCONDN8(cond) => self.jpcondn16(cond),
            B3Instruction::JPN16 => self.jpn16(),
            B3Instruction::JPHL => self.jphl(),
            B3Instruction::CALLCONDN8(cond) => self.callcondn16(cond),
            B3Instruction::CALLN16 => self.calln16(),
            B3Instruction::RST(tgt3) => self.rst(tgt3),
            B3Instruction::POP(register) => self.pop_r16stk(register),
            B3Instruction::PUSH(register) => self.push_r16stk(register),
            B3Instruction::LDHC(direction) => self.ldhc(direction),
            B3Instruction::LDHN8(direction) => self.ldhn8(direction),
            B3Instruction::LDN16(direction) => self.ldn16(direction),
            B3Instruction::ADDSPN8 => self.addspn8(),
            B3Instruction::LDHLSPN8 => self.ldhlspn8(),
            B3Instruction::LDSPHL => self.ldsphl(),
            B3Instruction::DI => self.ime = false,
            B3Instruction::EI => self.ime = true,
        }
    }

    // -----------------------------------------------------------------
    // Prefixed handlers
    // -----------------------------------------------------------------

    /// Applies one of the eight CB rotate/shift operations to the operand
    /// a 3-bit code selects.
    #[verifier::rlimit(50)]
    fn rot_r8(&mut self, kind: u8, operand: u8)
        requires
            old(self).wf(),
            kind < 8,
            operand < 8,
        ensures
            final(self).wf(),
            final(self)@ == spec_rot_r8(old(self)@, kind, operand),
    {
        let v = self.read_r8(operand);
        let carry_in = self.registers.f.c;
        let out: (u8, bool) = match kind {
            0 => (v % 128 * 2 + v / 128, v >= 128),
            1 => (v / 2 + v % 2 * 128, v % 2 == 1),
            2 => (
                v % 128 * 2 + (if carry_in {
                    1
                } else {
                    0
                }),
                v >= 128,
            ),
            3 => (
                v / 2 + (if carry_in {
                    128
                } else {
                    0
                }),
                v % 2 == 1,
            ),
            4 => (v % 128 * 2, v >= 128),
            5 => (v / 2 + v / 128 * 128, v % 2 == 1),
            6 => (v % 16 * 16 + v / 16, false),
            _ => (v / 2, v % 2 == 1),
        };
        self.write_r8(operand, out.0);
        self.registers.f = FlagsRegisters { z: out.0 == 0, s: false, h: false, c: out.1 };
    }

    fn bit_test(&mut self, b3: u8, operand: u8)
        requires
            old(self).wf(),
            b3 < 8,
            operand < 8,
        ensures
            final(self).wf(),
            final(self)@ == spec_bit_test(old(self)@, b3, operand),
    {
        let v = self.read_r8(operand);
        let zero = v >> b3 & 1 == 0;
        self.registers.f = FlagsRegisters {
            z: zero,
            s: false,
            h: true,
            c: self.registers.f.c,
        };
    }

    fn bit_res(&mut self, b3: u8, operand: u8)
        requires
            old(self).wf(),
            b3 < 8,
            operand < 8,
        ensures
            final(self).wf(),
            final(self)@ == spec_bit_res(old(self)@, b3, operand),
    {
        let v = self.read_r8(operand);
        let mask: u8 = 1u8 << b3;
        self.write_r8(operand, v & !mask);
    }

    fn bit_set(&mut self, b3: u8, operand: u8)
        requires
            old(self).wf(),
            b3 < 8,
            operand < 8,
        ensures
            final(self).wf(),
            final(self)@ == spec_bit_set(old(self)@, b3, operand),
    {
        let v = self.read_r8(operand);
        let mask: u8 = 1u8 << b3;
        self.write_r8(operand, v | mask);
    }

    /// Dispatches one CB-prefixed instruction to its handler.
    fn execute_prefixed(&mut self, instruction: PrefixedInstruction)
        requires
            old(self).wf(),
            spec_instr_wf(Instruction::Prefixed(instruction)),
        ensures
            final(self).wf(),
            final(self)@ == spec_exec_prefixed(old(self)@, instruction),
    {
        match instruction {
            PrefixedInstruction::RLC(operand) => self.rot_r8(0, operand),
            PrefixedInstruction::RRC(operand) => self.rot_r8(1, operand),
            PrefixedInstruction::RL(operand) => self.rot_r8(2, operand),
            PrefixedInstruction::RR(operand) => self.rot_r8(3, operand),
            PrefixedInstruction::SL(operand) => self.rot_r8(4, operand),
            PrefixedInstruction::SR(operand) => self.rot_r8(5, operand),
            PrefixedInstruction::SWAP(operand) => self.rot_r8(6, operand),
            PrefixedInstruction::SRL(operand) => self.rot_r8(7, operand),
            PrefixedInstruction::BIT { b3, operand } => self.bit_test(b3, operand),
            PrefixedInstruction::RES { b3, operand } => self.bit_res(b3, operand),
            PrefixedInstruction::SET { b3, operand } => self.bit_set(b3, operand),
        }
    }

    // -----------------------------------------------------------------
    // The whole step
    // -----------------------------------------------------------------

    /// Dispatches one decoded instruction to its family handler.
    fn execute(&mut self, instruction: Instruction)
        requires
            old(self).wf(),
            spec_instr_wf(instruction),
        ensures
            final(self).wf(),
            final(self)@ == spec_exec_instr(old(self)@, instruction),
    {
        proof {
            reveal(spec_exec_instr);
        }
        match instruction {
            Instruction::Block0(i) => self.execute_block_zero(i),
            Instruction::Block1(i) => self.execute_block_one(i),
            Instruction::Block2(i) => self.execute_block_two(i),
            Instruction::Block3(i) => self.execute_block_three(i),
            Instruction::Prefixed(i) => self.execute_prefixed(i),
        }
    }

    /// One full step: fetch the opcode at the program counter, pull in
    /// the second byte behind the CB marker, decode, and execute.  Does
    /// nothing once the CPU has ended or left the running state.  A
    /// decode failure raises `end` and leaves every register and memory
    /// byte exactly as before the fetch; it is terminal for the run.
    #[verifier::rlimit(100)]
    pub fn cycle(&mut self)
        requires
            old(self).wf(),
        ensures
            final(self).wf(),
            final(self)@ == spec_cycle(old(self)@),
    {
        if self.end {
            return ;
        }
        match self.state {
            RunState::Running => (),
            _ => {
                return ;
            },
        }
        let pc = self.registers.pc;
        let opcode = self.memory_bus.read_byte(pc);
        if opcode == 0xCB {
            let second = self.memory_bus.read_byte(crate::words::wrap_inc16(pc));
            match Instruction::from_byte(second, true) {
                Ok(instruction) => {
                    self.registers.advance_pc();
                    self.registers.advance_pc();
                    self.execute(instruction);
                },
                Err(_) => {
                    self.end = true;
                },
            }
        } else {
            match Instruction::from_byte(opcode, false) {
                Ok(instruction) => {
                    self.registers.advance_pc();
                    self.execute(instruction);
                },
                Err(_) => {
                    self.end = true;
                },
            }
        }
    }
}

} // verus!
