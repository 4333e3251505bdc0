//! Byte-addressable memory backing the simulated machine.

use vstd::prelude::*;

verus! {

use vstd::pervasive::VecAdditionalExecFns;

/// Error raised when an access names an address outside the store's valid
/// range.  Carries the offending address; the access is propagated as a
/// failure, never retried.
#[derive(Clone, Copy, Debug, PartialEq, Eq, Structural)]
pub struct MemoryError {
    pub addr: usize,
}

/// Byte-addressable store.  The view is the sequence of bytes it holds;
/// every address below the length is valid, every other address is not.
pub struct Dram {
    mem: Vec<u8>,
}

impl View for Dram {
    type V = Seq<u8>;

    closed spec fn view(&self) -> Seq<u8> {
        self.mem@
    }
}

impl Dram {
    /// Builds a store holding exactly the given bytes.
    pub fn new(image: Vec<u8>) -> (d: Dram)
        ensures
            d@ == image@,
    {
        Dram { mem: image }
    }

    /// Number of valid byte addresses.
    pub fn size(&self) -> (n: usize)
        ensures
            n == self@.len(),
    {
        self.mem.len()
    }

    /// Unchecked read; the caller owns the bounds obligation.
    pub fn raw_byte(&self, addr: usize) -> (b: u8)
        requires
            addr < self@.len(),
        ensures
            b == self@[addr as int],
    {
        self.mem[addr]
    }

    /// Unchecked write; the caller owns the bounds obligation.
    pub fn set_byte(&mut self, addr: usize, val: u8)
        requires
            addr < old(self)@.len(),
        ensures
            final(self)@ == old(self)@.update(addr as int, val),
    {
        self.mem.set(addr, val);
    }

    /// Checked read, total over all addresses.
    pub fn read_byte(&self, addr: usize) -> (r: Result<u8, MemoryError>)
        ensures
            addr < self@.len() ==> r == Ok::<u8, MemoryError>(self@[addr as int]),
            addr >= self@.len() ==> r == Err::<u8, MemoryError>(MemoryError { addr }),
    {
        if addr < self.mem.len() {
            Ok(self.mem[addr])
        } else {
            Err(MemoryError { addr })
        }
    }

    /// Checked write, total over all addresses; on failure the store is
    /// unchanged.
    pub fn write_byte(&mut self, addr: usize, val: u8) -> (r: Result<(), MemoryError>)
        ensures
            addr < old(self)@.len() ==> r == Ok::<(), MemoryError>(())
                && final(self)@ == old(self)@.update(addr as int, val),
            addr >= old(self)@.len() ==> r == Err::<(), MemoryError>(MemoryError { addr })
                && final(self)@ == old(self)@,
    {
        if addr < self.mem.len() {
            self.mem.set(addr, val);
            Ok(())
        } else {
            Err(MemoryError { addr })
        }
    }
}

} // verus!
