//! The memory bus: one flat 64 KiB address space.  The view of the unit
//! is the sequence of its 65536 bytes; address arithmetic wraps modulo
//! 2^16 at the top of the address space.

use vstd::prelude::*;

verus! {

/// The size of the address space, in bytes.
pub const MEMORY_SIZE: usize = 65536;

/// The memory bus.  Every address a 16-bit word can hold is backed.
pub struct MemoryManagementUnit {
    memory: Vec<u8>,
}

impl View for MemoryManagementUnit {
    type V = Seq<u8>;

    closed spec fn view(&self) -> Seq<u8> {
        self.memory@
    }
}

impl MemoryManagementUnit {
    /// Well-formedness: every address a 16-bit word can hold is backed.
    /// `new` establishes it and every operation preserves it.
    pub open spec fn wf(&self) -> bool {
        self@.len() == MEMORY_SIZE
    }

    /// A fresh bus with every byte zeroed.
    pub fn new() -> (mmu: MemoryManagementUnit)
        ensures
            mmu.wf(),
            mmu@ == Seq::<u8>::new(MEMORY_SIZE as nat, |i: int| 0u8),
    {
        let mut memory: Vec<u8> = Vec::new();
        let mut filled: usize = 0;
        while filled < MEMORY_SIZE
            invariant
                filled == memory@.len(),
                filled <= MEMORY_SIZE,
                forall|i: int| 0 <= i < filled ==> memory@[i] == 0u8,
            decreases MEMORY_SIZE - filled,
        {
            memory.push(0);
            filled = filled + 1;
        }
        let mmu = MemoryManagementUnit { memory };
        proof {
            assert(mmu@ =~= Seq::<u8>::new(MEMORY_SIZE as nat, |i: int| 0u8));
        }
        mmu
    }

    /// Fills memory from address 0 with the given bytes, in order,
    /// overwriting prior contents; the rest of memory is untouched.
    pub fn load_rom(&mut self, rom: &Vec<u8>)
        requires
            old(self).wf(),
            rom@.len() <= MEMORY_SIZE,
        ensures
            final(self).wf(),
            final(self)@ == rom@ + old(self)@.skip(rom@.len() as int),
    {
        let mut pos: usize = 0;
        while pos < rom.len()
            invariant
                rom@.len() <= MEMORY_SIZE,
                pos <= rom@.len(),
                self.memory@.len() == MEMORY_SIZE,
                forall|i: int| 0 <= i < pos ==> self.memory@[i] == rom@[i],
                forall|i: int| pos <= i < MEMORY_SIZE ==> self.memory@[i] == old(self)@[i],
            decreases rom@.len() - pos,
        {
            self.memory.set(pos, rom[pos]);
            pos = pos + 1;
        }
        proof {
            assert(self@ =~= rom@ + old(self)@.skip(rom@.len() as int));
        }
    }

    /// The byte at any address of the space.
    pub fn read_byte(&self, address: u16) -> (byte: u8)
        requires
            self.wf(),
        ensures
            byte == self@[address as int],
    {
        self.memory[address as usize]
    }

    /// The 16-bit word composed big-endian from the byte at `address` and
    /// the byte at `address + 1`, the latter address wrapping at the top
    /// of the space.
    pub fn read_word(&self, address: u16) -> (word: u16)
        requires
            self.wf(),
        ensures
            word == self@[address as int] as int * 256 + self@[(address as int + 1) % 0x10000],
    {
        let next = crate::words::wrap_inc16(address);
        (self.memory[address as usize] as u16) * 256 + (self.memory[next as usize] as u16)
    }

    /// Overwrites the byte at any address of the space.
    pub fn set_byte(&mut self, address: u16, val: u8)
        requires
            old(self).wf(),
        ensures
            final(self).wf(),
            final(self)@ == old(self)@.update(address as int, val),
    {
        self.memory.set(address as usize, val);
    }
}

} // verus!
