//! The flat 64 KiB store that the processor addresses.

use vstd::prelude::*;

verus! {

/// Number of addressable cells: one for every 16-bit address.
pub const MEMORY_SIZE: usize = 0x10000;

/// A byte-addressable store with one cell for every 16-bit address.
pub struct Memory {
    data: [u8; MEMORY_SIZE],
}

/// The contents of a store whose cells all hold zero.
pub open spec fn zeroed() -> Seq<u8> {
    Seq::new(MEMORY_SIZE as nat, |i: int| 0u8)
}

impl View for Memory {
    type V = Seq<u8>;

    /// The cells in address order.
    closed spec fn view(&self) -> Seq<u8> {
        self.data@
    }
}

impl Clone for Memory {
    /// A second store with the same contents.
    fn clone(&self) -> (copy: Memory)
        ensures
            copy@ == self@,
    {
        Memory { data: self.data }
    }
}

impl Memory {
    /// Every store has exactly `MEMORY_SIZE` cells.
    pub proof fn lemma_size(&self)
        ensures
            self@.len() == MEMORY_SIZE,
    {
    }

    /// A store with every cell zero.
    pub fn new() -> (memory: Memory)
        ensures
            memory@ == zeroed(),
    {
        Memory { data: [0u8; MEMORY_SIZE] }
    }

    /// Sets every cell to zero.
    pub fn initialize(&mut self)
        ensures
            final(self)@ == zeroed(),
    {
        let mut i: usize = 0;
        while i < MEMORY_SIZE
            invariant
                i <= MEMORY_SIZE,
                forall|k: int| 0 <= k < i ==> self.data@[k] == 0u8,
            decreases MEMORY_SIZE - i,
        {
            self.data[i] = 0;
            i += 1;
        }
    }

    /// Stores `data` in the cell at `address`; every other cell keeps its content.
    pub fn write(&mut self, address: u16, data: u8)
        ensures
            final(self)@ == old(self)@.update(address as int, data),
    {
        self.data[address as usize] = data;
    }

    /// The content of the cell at `address`.
    pub fn read(&self, address: u16) -> (data: u8)
        ensures
            data == self@[address as int],
    {
        self.data[address as usize]
    }
}

} // verus!
