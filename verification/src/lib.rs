//! Core of a Sharp LR35902 ("Game Boy"-class) CPU emulator.
//!
//! The crate turns a stream of opcode bytes held in an addressable memory
//! space into instruction values and executes them against a register file
//! with architecturally exact flag semantics.  The decoder is a total, pure
//! function from an opcode byte (plus a prefix marker) to an instruction or
//! a decode error; the executor drives fetch, decode, dispatch and mutation
//! one instruction at a time.

pub mod cpu;
pub mod instructions;
pub mod mmu;
pub mod registers;
pub mod words;
