//! The memory bus: a flat byte-addressable space covering the full 16-bit
//! address range.

use vstd::prelude::*;

verus! {

/// Number of addressable bytes: every 16-bit address is valid.
pub const MEM_SIZE: usize = 0x10000;

/// A flat addressable byte array. Peripherals own sub-ranges by convention,
/// but the bus presents one uniform read/write surface.
pub struct MemoryBus {
    pub memory: Vec<u8>,
}

impl View for MemoryBus {
    type V = Seq<u8>;

    open spec fn view(&self) -> Seq<u8> {
        self.memory@
    }
}

impl MemoryBus {
    /// The backing store spans the whole 16-bit address range, so every
    /// representable address is in bounds.
    pub open spec fn wf(self) -> bool {
        self@.len() == MEM_SIZE
    }

    /// A bus of the full size with every cell zero: uninitialized cells read
    /// as 0.
    pub fn new() -> (r: MemoryBus)
        ensures
            r.wf(),
            forall|i: int| 0 <= i < MEM_SIZE ==> r@[i] == 0,
    {
        let mut memory: Vec<u8> = Vec::new();
        while memory.len() < MEM_SIZE
            invariant
                memory@.len() <= MEM_SIZE,
                forall|i: int| 0 <= i < memory@.len() ==> memory@[i] == 0,
            decreases MEM_SIZE - memory@.len(),
        {
            memory.push(0);
        }
        MemoryBus { memory }
    }

    pub fn read_byte(&self, address: u16) -> (v: u8)
        requires
            self.wf(),
        ensures
            v == self@[address as int],
    {
        self.memory[address as usize]
    }

    pub fn write_byte(&mut self, address: u16, value: u8)
        requires
            old(self).wf(),
        ensures
            final(self).wf(),
            final(self)@ == old(self)@.update(address as int, value),
    {
        self.memory[address as usize] = value;
    }

    /// Writes one cell, addressed as a plain index.
    pub fn insert_into_position(&mut self, position: usize, value: u8)
        requires
            old(self).wf(),
            position < MEM_SIZE,
        ensures
            final(self).wf(),
            final(self)@ == old(self)@.update(position as int, value),
    {
        self.memory[position] = value;
    }

    /// Bulk load used by an external program loader: copies `bytes` into the
    /// bus starting at `offset`, leaving every other cell unchanged.
    pub fn load(&mut self, offset: u16, bytes: &Vec<u8>)
        requires
            old(self).wf(),
            offset + bytes@.len() <= MEM_SIZE,
        ensures
            final(self).wf(),
            forall|i: int|
                0 <= i < bytes@.len() ==> final(self)@[offset + i] == bytes@[i],
            forall|i: int|
                0 <= i < MEM_SIZE && !(offset <= i < offset + bytes@.len())
                    ==> final(self)@[i] == old(self)@[i],
    {
        let mut k: usize = 0;
        while k < bytes.len()
            invariant
                self.wf(),
                offset + bytes@.len() <= MEM_SIZE,
                k <= bytes@.len(),
                forall|i: int| 0 <= i < k ==> self@[offset + i] == bytes@[i],
                forall|i: int|
                    0 <= i < MEM_SIZE && !(offset <= i < offset + bytes@.len())
                        ==> self@[i] == old(self)@[i],
            decreases bytes@.len() - k,
        {
            self.memory[offset as usize + k] = bytes[k];
            k = k + 1;
        }
    }
}

} // verus!
