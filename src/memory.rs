//! The flat, zero-initialised 64 KiB address space.

use vstd::prelude::*;
use crate::error::ExecutionError;

verus! {

/// The number of bytes in the address space.
pub const MAX_MEM: usize = 0x10000;

/// A byte store over the full 16-bit address space. Its size never changes.
pub struct Memory {
    data: Vec<u8>,
}

impl View for Memory {
    type V = Seq<u8>;

    closed spec fn view(&self) -> Seq<u8> {
        self.data@
    }
}

impl Memory {
    /// The store holds exactly one byte per address.
    pub open spec fn wf(&self) -> bool {
        self@.len() == MAX_MEM
    }

    /// A store of `MAX_MEM` bytes, each zero.
    pub fn initialise() -> (r: Memory)
        ensures
            r.wf(),
            forall|i: int| 0 <= i < MAX_MEM ==> r@[i] == 0,
    {
        Memory { data: vec![0u8; MAX_MEM] }
    }

    /// The byte at `index`, or `OutOfBoundsAddress` beyond the address space.
    pub fn get(&self, index: usize) -> (r: Result<u8, ExecutionError>)
        ensures
            index < self@.len() ==> r == Ok::<u8, ExecutionError>(self@[index as int]),
            index >= self@.len() ==> r == Err::<u8, ExecutionError>(
                ExecutionError::OutOfBoundsAddress(index),
            ),
    {
        if index < self.data.len() {
            Ok(self.data[index])
        } else {
            Err(ExecutionError::OutOfBoundsAddress(index))
        }
    }

    /// Stores `value` at `index`, or refuses with `OutOfBoundsAddress` beyond
    /// the address space and leaves the store unchanged.
    pub fn write(&mut self, index: usize, value: u8) -> (r: Result<(), ExecutionError>)
        ensures
            index < old(self)@.len() ==> r == Ok::<(), ExecutionError>(())
                && final(self)@ == old(self)@.update(index as int, value),
            index >= old(self)@.len() ==> r == Err::<(), ExecutionError>(
                ExecutionError::OutOfBoundsAddress(index),
            ) && final(self)@ == old(self)@,
    {
        if index < self.data.len() {
            self.data.set(index, value);
            Ok(())
        } else {
            Err(ExecutionError::OutOfBoundsAddress(index))
        }
    }

    /// The byte at a 16-bit address, which is always inside the space.
    pub fn read(&self, addr: u16) -> (r: u8)
        requires
            self.wf(),
        ensures
            r == self@[addr as int],
    {
        self.data[addr as usize]
    }

    /// Stores `value` at a 16-bit address, which is always inside the space.
    pub fn store(&mut self, addr: u16, value: u8)
        requires
            old(self).wf(),
        ensures
            final(self)@ == old(self)@.update(addr as int, value),
            final(self).wf(),
    {
        self.data.set(addr as usize, value);
    }
}

} // verus!
