//! The SSBC's flat, always-in-bounds byte memory.

use crate::addr::Addr;
use crate::addr::MEMORY_LENGTH;
use vstd::prelude::*;

verus! {

/// The 64 KiB of memory that the SSBC accesses. Every 16-bit address is
/// valid, so `get` and `set` are total: there is no error path.
pub struct Memory {
    cells: [u8; MEMORY_LENGTH],
}

impl View for Memory {
    type V = Seq<u8>;

    closed spec fn view(&self) -> Seq<u8> {
        self.cells@
    }
}

impl Memory {
    /// A fresh memory with every cell zero-filled.
    pub fn new() -> (m: Self)
        ensures
            forall|i: int| 0 <= i < MEMORY_LENGTH ==> m@[i] == 0u8,
    {
        Memory { cells: [0u8; MEMORY_LENGTH] }
    }

    /// Read the byte stored at `address`.
    pub fn get(&self, address: Addr) -> (b: u8)
        ensures
            b == self@[address.0 as int],
    {
        self.cells[address.to_usize()]
    }

    /// Borrow the byte stored at `address` for writing.
    pub fn get_mut(&mut self, address: Addr) -> (b: &mut u8)
        ensures
            *b == old(self)@[address.0 as int],
            final(self)@ == old(self)@.update(address.0 as int, *final(b)),
    {
        &mut self.cells[address.to_usize()]
    }

    /// Store `value` at `address`.
    pub fn set(&mut self, address: Addr, value: u8)
        ensures
            final(self)@ == old(self)@.update(address.0 as int, value),
    {
        self.cells[address.to_usize()] = value;
    }
}

/// Every memory holds exactly `MEMORY_LENGTH` bytes: the backing store is a
/// fixed-size array, so every 16-bit address is in bounds.
pub broadcast proof fn lemma_memory_len(m: &Memory)
    ensures
        #[trigger] m@.len() == MEMORY_LENGTH,
{
}

/// Reading an address straight after writing it returns the byte written:
/// the round trip through `Memory::set` and `Memory::get`, stated over the
/// memory's view.
pub proof fn lemma_set_get(m: Seq<u8>, a: u16, v: u8)
    requires
        m.len() == MEMORY_LENGTH,
    ensures
        m.update(a as int, v)[a as int] == v,
{
}

} // verus!
