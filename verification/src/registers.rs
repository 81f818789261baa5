//! The register file: eight 8-bit registers, the packed flag register, the
//! stack and program counters, the composite 16-bit views over register
//! pairs, and the selector tables that resolve the small integer codes a
//! decoded opcode carries into concrete register and condition identities.

use vstd::prelude::*;

verus! {

/// The four flag bits of the F register.  Packed form: bit 7 = Zero,
/// bit 6 = Subtract, bit 5 = HalfCarry, bit 4 = Carry, bits 3-0 zero.
#[derive(Clone, Copy, Debug, PartialEq, Eq, Structural)]
pub struct FlagsRegisters {
    /// Zero
    pub z: bool,
    /// Subtract
    pub s: bool,
    /// Half carry
    pub h: bool,
    /// Carry
    pub c: bool,
}

/// The byte that packs the four flags: bit 7 = Zero, bit 6 = Subtract,
/// bit 5 = HalfCarry, bit 4 = Carry; the low nibble is always zero.
pub open spec fn spec_flags_to_byte(f: FlagsRegisters) -> u8 {
    ((if f.z {
        128int
    } else {
        0int
    }) + (if f.s {
        64int
    } else {
        0int
    }) + (if f.h {
        32int
    } else {
        0int
    }) + (if f.c {
        16int
    } else {
        0int
    })) as u8
}

/// The flag combination read out of a packed byte; bits 3-0 are ignored.
pub open spec fn spec_flags_from_byte(byte: u8) -> FlagsRegisters {
    FlagsRegisters {
        z: byte as int / 128 % 2 == 1,
        s: byte as int / 64 % 2 == 1,
        h: byte as int / 32 % 2 == 1,
        c: byte as int / 16 % 2 == 1,
    }
}

/// Packing the flags into a byte and unpacking that byte restores every
/// flag combination exactly, and the packed byte's low nibble is zero.
pub proof fn lemma_flags_byte_round_trip(f: FlagsRegisters)
    ensures
        spec_flags_from_byte(spec_flags_to_byte(f)) == f,
        spec_flags_to_byte(f) % 16 == 0,
{
}

impl FlagsRegisters {
    fn new() -> (f: FlagsRegisters)
        ensures
            f == (FlagsRegisters { z: false, s: false, h: false, c: false }),
    {
        FlagsRegisters { z: false, s: false, h: false, c: false }
    }

    /// Packs the four flags into one byte, high nibble only.
    pub fn to_byte(&self) -> (b: u8)
        ensures
            b == spec_flags_to_byte(*self),
            b % 16 == 0,
    {
        let z: u8 = if self.z {
            128
        } else {
            0
        };
        let s: u8 = if self.s {
            64
        } else {
            0
        };
        let h: u8 = if self.h {
            32
        } else {
            0
        };
        let c: u8 = if self.c {
            16
        } else {
            0
        };
        z + s + h + c
    }

    /// Reads the four flags out of a packed byte, ignoring its low nibble.
    pub fn from_byte(byte: u8) -> (f: FlagsRegisters)
        ensures
            f == spec_flags_from_byte(byte),
    {
        FlagsRegisters {
            z: byte / 128 % 2 == 1,
            s: byte / 64 % 2 == 1,
            h: byte / 32 % 2 == 1,
            c: byte / 16 % 2 == 1,
        }
    }
}

/// The register file.  Created zeroed at CPU construction; the composite
/// pairs BC, DE and HL are views over the named 8-bit halves.
#[derive(Clone, Copy, Debug, PartialEq, Eq, Structural)]
pub struct Registers {
    pub a: u8,
    pub b: u8,
    pub c: u8,
    pub d: u8,
    pub e: u8,
    pub f: FlagsRegisters,
    pub h: u8,
    pub l: u8,
    pub sp: u16,
    pub pc: u16,
}

/// The 16-bit value composed big-endian from a register pair: the
/// first-named register is the high byte.
pub open spec fn spec_pair(hi: u8, lo: u8) -> u16 {
    (hi as int * 256 + lo as int) as u16
}

/// High half of a 16-bit value, as written into the first-named register
/// of a pair.
pub open spec fn spec_high_byte(val: u16) -> u8 {
    (val as int / 256) as u8
}

/// Low half of a 16-bit value, as written into the second-named register
/// of a pair.
pub open spec fn spec_low_byte(val: u16) -> u8 {
    (val as int % 256) as u8
}

/// Splitting any 16-bit value into its two bytes and composing those bytes
/// again restores the value, and composing any two bytes and splitting the
/// result restores both bytes.  This is the law behind every register-pair
/// accessor: after `set_bc(spec_pair(hi, lo))`, `b` is `hi` and `c` is `lo`.
pub proof fn lemma_pair_split_round_trip(hi: u8, lo: u8, val: u16)
    ensures
        spec_pair(spec_high_byte(val), spec_low_byte(val)) == val,
        spec_high_byte(spec_pair(hi, lo)) == hi,
        spec_low_byte(spec_pair(hi, lo)) == lo,
{
}

impl Registers {
    pub fn new() -> (r: Registers)
        ensures
            r == (Registers {
                a: 0,
                b: 0,
                c: 0,
                d: 0,
                e: 0,
                f: FlagsRegisters { z: false, s: false, h: false, c: false },
                h: 0,
                l: 0,
                sp: 0,
                pc: 0,
            }),
    {
        Registers {
            a: 0,
            b: 0,
            c: 0,
            d: 0,
            e: 0,
            f: FlagsRegisters::new(),
            h: 0,
            l: 0,
            sp: 0,
            pc: 0,
        }
    }

    pub fn bc(&self) -> (r: u16)
        ensures
            r == spec_pair(self.b, self.c),
    {
        (self.b as u16) * 256 + (self.c as u16)
    }

    pub fn set_bc(&mut self, val: u16)
        ensures
            *final(self) == (Registers {
                b: spec_high_byte(val),
                c: spec_low_byte(val),
                ..*old(self)
            }),
    {
        self.b = (val / 256) as u8;
        self.c = (val % 256) as u8;
    }

    pub fn de(&self) -> (r: u16)
        ensures
            r == spec_pair(self.d, self.e),
    {
        (self.d as u16) * 256 + (self.e as u16)
    }

    pub fn set_de(&mut self, val: u16)
        ensures
            *final(self) == (Registers {
                d: spec_high_byte(val),
                e: spec_low_byte(val),
                ..*old(self)
            }),
    {
        self.d = (val / 256) as u8;
        self.e = (val % 256) as u8;
    }

    pub fn hl(&self) -> (r: u16)
        ensures
            r == spec_pair(self.h, self.l),
    {
        (self.h as u16) * 256 + (self.l as u16)
    }

    pub fn set_hl(&mut self, val: u16)
        ensures
            *final(self) == (Registers {
                h: spec_high_byte(val),
                l: spec_low_byte(val),
                ..*old(self)
            }),
    {
        self.h = (val / 256) as u8;
        self.l = (val % 256) as u8;
    }

    /// Steps the program counter past one fetched byte, wrapping at the
    /// top of the address space.
    pub fn advance_pc(&mut self)
        ensures
            *final(self) == (Registers {
                pc: ((old(self).pc as int + 1) % 0x10000) as u16,
                ..*old(self)
            }),
    {
        self.pc = crate::words::wrap_inc16(self.pc);
    }
}

/// Identity of an 8-bit operand: a register, or the byte addressed by HL.
#[derive(Clone, Copy, Debug, PartialEq, Eq, Structural)]
pub enum R8 {
    B,
    C,
    D,
    E,
    H,
    L,
    HL,
    A,
}

/// The register identity a 3-bit operand code stands for.
pub open spec fn spec_r8(code: u8) -> R8 {
    if code == 0 {
        R8::B
    } else if code == 1 {
        R8::C
    } else if code == 2 {
        R8::D
    } else if code == 3 {
        R8::E
    } else if code == 4 {
        R8::H
    } else if code == 5 {
        R8::L
    } else if code == 6 {
        R8::HL
    } else {
        R8::A
    }
}

impl R8 {
    /// Resolves a 3-bit operand code.  A code outside 0-7 cannot come out
    /// of the decoder, which masks three bits; it is reported so a caller
    /// can treat it as a fatal defect.
    pub fn try_from(value: u8) -> (r: Result<R8, ()>)
        ensures
            r == (if value < 8 {
                Ok::<R8, ()>(spec_r8(value))
            } else {
                Err::<R8, ()>(())
            }),
    {
        match value {
            0 => Ok(R8::B),
            1 => Ok(R8::C),
            2 => Ok(R8::D),
            3 => Ok(R8::E),
            4 => Ok(R8::H),
            5 => Ok(R8::L),
            6 => Ok(R8::HL),
            7 => Ok(R8::A),
            _ => Err(()),
        }
    }
}

/// Identity of a 16-bit register operand.
#[derive(Clone, Copy, Debug, PartialEq, Eq, Structural)]
pub enum R16 {
    BC,
    DE,
    HL,
    SP,
}

/// The 16-bit register a 2-bit code stands for.
pub open spec fn spec_r16(code: u8) -> R16 {
    if code == 0 {
        R16::BC
    } else if code == 1 {
        R16::DE
    } else if code == 2 {
        R16::HL
    } else {
        R16::SP
    }
}

impl R16 {
    /// Resolves a 2-bit register code; see `R8::try_from` on range.
    pub fn try_from(value: u8) -> (r: Result<R16, ()>)
        ensures
            r == (if value < 4 {
                Ok::<R16, ()>(spec_r16(value))
            } else {
                Err::<R16, ()>(())
            }),
    {
        match value {
            0 => Ok(R16::BC),
            1 => Ok(R16::DE),
            2 => Ok(R16::HL),
            3 => Ok(R16::SP),
            _ => Err(()),
        }
    }
}

/// Identity of a 16-bit stack operand: a register pair, or AF.
#[derive(Clone, Copy, Debug, PartialEq, Eq, Structural)]
pub enum R16Stk {
    BC,
    DE,
    HL,
    AF,
}

/// The stack-operand pair a 2-bit code stands for.
pub open spec fn spec_r16_stk(code: u8) -> R16Stk {
    if code == 0 {
        R16Stk::BC
    } else if code == 1 {
        R16Stk::DE
    } else if code == 2 {
        R16Stk::HL
    } else {
        R16Stk::AF
    }
}

impl R16Stk {
    /// Resolves a 2-bit stack-operand code; see `R8::try_from` on range.
    pub fn try_from(value: u8) -> (r: Result<R16Stk, ()>)
        ensures
            r == (if value < 4 {
                Ok::<R16Stk, ()>(spec_r16_stk(value))
            } else {
                Err::<R16Stk, ()>(())
            }),
    {
        match value {
            0 => Ok(R16Stk::BC),
            1 => Ok(R16Stk::DE),
            2 => Ok(R16Stk::HL),
            3 => Ok(R16Stk::AF),
            _ => Err(()),
        }
    }
}

/// Identity of an indirect accumulator operand: a register pair holding
/// the address, with HL offered in post-increment and post-decrement form.
#[derive(Clone, Copy, Debug, PartialEq, Eq, Structural)]
pub enum R16Mem {
    BC,
    DE,
    HLI,
    HLD,
}

/// The addressing mode a 2-bit code stands for.
pub open spec fn spec_r16_mem(code: u8) -> R16Mem {
    if code == 0 {
        R16Mem::BC
    } else if code == 1 {
        R16Mem::DE
    } else if code == 2 {
        R16Mem::HLI
    } else {
        R16Mem::HLD
    }
}

impl R16Mem {
    /// Resolves a 2-bit addressing-mode code; see `R8::try_from` on range.
    pub fn try_from(value: u8) -> (r: Result<R16Mem, ()>)
        ensures
            r == (if value < 4 {
                Ok::<R16Mem, ()>(spec_r16_mem(value))
            } else {
                Err::<R16Mem, ()>(())
            }),
    {
        match value {
            0 => Ok(R16Mem::BC),
            1 => Ok(R16Mem::DE),
            2 => Ok(R16Mem::HLI),
            3 => Ok(R16Mem::HLD),
            _ => Err(()),
        }
    }
}

/// Identity of a branch condition.
#[derive(Clone, Copy, Debug, PartialEq, Eq, Structural)]
pub enum Cond {
    NZ,
    Z,
    NC,
    C,
}

/// The branch condition a 2-bit code stands for.
pub open spec fn spec_cond(code: u8) -> Cond {
    if code == 0 {
        Cond::NZ
    } else if code == 1 {
        Cond::Z
    } else if code == 2 {
        Cond::NC
    } else {
        Cond::C
    }
}

/// Whether a branch condition holds of the current flags.
pub open spec fn spec_cond_met(code: u8, f: FlagsRegisters) -> bool {
    match spec_cond(code) {
        Cond::NZ => !f.z,
        Cond::Z => f.z,
        Cond::NC => !f.c,
        Cond::C => f.c,
    }
}

impl Cond {
    /// Resolves a 2-bit condition code; see `R8::try_from` on range.
    pub fn try_from(value: u8) -> (r: Result<Cond, ()>)
        ensures
            r == (if value < 4 {
                Ok::<Cond, ()>(spec_cond(value))
            } else {
                Err::<Cond, ()>(())
            }),
    {
        match value {
            0 => Ok(Cond::NZ),
            1 => Ok(Cond::Z),
            2 => Ok(Cond::NC),
            3 => Ok(Cond::C),
            _ => Err(()),
        }
    }

    /// Whether this condition holds of the given flags.
    pub fn met(&self, f: &FlagsRegisters) -> (r: bool)
        ensures
            forall|code: u8| spec_cond(code) == *self ==> r == spec_cond_met(code, *f),
    {
        match self {
            Cond::NZ => !f.z,
            Cond::Z => f.z,
            Cond::NC => !f.c,
            Cond::C => f.c,
        }
    }
}

} // verus!
