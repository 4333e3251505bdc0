//! Architectural state of the simulated hart, and the fetch stage.

pub mod decode;
pub mod execution;
pub mod instruction;

use vstd::prelude::*;

use crate::bus::dram::{Dram, MemoryError};
use crate::cpu::decode::{decode32, spec_instr32, spec_opcode32, DecodeError, RawWord};
use crate::cpu::instruction::Instruction;

verus! {

/// Architectural state: the next fetch address and the 32 general-purpose
/// registers.  Register 0 is hard-wired to zero; `execute` discards writes
/// to it.  Registers hold the 32-bit pattern of the value; operations that
/// care about signedness interpret the pattern themselves.
pub struct CPU {
    pub pc: usize,
    pub reg: Vec<u32>,
}

impl CPU {
    /// The architectural invariant: 32 registers, register 0 at zero, and a
    /// program counter inside the 32-bit address space.
    pub open spec fn wf(self) -> bool {
        &&& self.reg@.len() == 32
        &&& self.reg@[0] == 0
        &&& self.pc <= u32::MAX
    }

    /// Fresh hart: PC at the entry address, every register zero.
    pub fn new(entry_address: usize) -> (c: CPU)
        ensures
            c.pc == entry_address,
            c.reg@.len() == 32,
            forall|i: int| 0 <= i < 32 ==> c.reg@[i] == 0,
            entry_address <= u32::MAX ==> c.wf(),
    {
        let mut reg: Vec<u32> = Vec::new();
        let mut i: usize = 0;
        while i < 32
            invariant
                i <= 32,
                reg@.len() == i,
                forall|j: int| 0 <= j < i ==> reg@[j] == 0,
            decreases 32 - i,
        {
            reg.push(0);
            i = i + 1;
        }
        CPU { pc: entry_address, reg }
    }
}

/// Width-tagged raw word on its way from fetch to decode.  Decode is a
/// capability over the five operand queries; this wrapper dispatches on the
/// width tag, so execute never learns which width variant produced an
/// instruction.
#[derive(Clone, Copy, Debug, PartialEq, Eq, Structural)]
pub struct Wrapper {
    pub value: RawWord,
}

impl Wrapper {
    pub fn new(value: RawWord) -> (w: Wrapper)
        ensures
            w.value == value,
    {
        Wrapper { value }
    }

    /// Decodes the wrapped word with the decoder of its width.  A standard
    /// word goes through the 32-bit table; a compressed word has no table
    /// here and fails with its bits, never guessing a class.
    pub fn decode(&self) -> (r: Result<Instruction, DecodeError>)
        ensures
            r is Ok <==> (self.value matches RawWord::Word(w) && spec_opcode32(w) is Some),
            r matches Ok(i) ==> (self.value matches RawWord::Word(w)
                && spec_opcode32(w) matches Some(k) && i == spec_instr32(w, k) && i.wf()),
            self.value matches RawWord::Word(w) ==> (spec_opcode32(w) is None
                ==> r == Err::<Instruction, DecodeError>((DecodeError::UnrecognizedWord {
                bits: w,
            }))),
            self.value matches RawWord::Half(h) ==> r == Err::<Instruction, DecodeError>((
            DecodeError::UnrecognizedHalf { bits: h })),
    {
        match self.value {
            RawWord::Word(w) => decode32(w),
            RawWord::Half(h) => Err(DecodeError::UnrecognizedHalf { bits: h }),
        }
    }
}

/// What fetch returns on each memory and program counter: the bytes at the
/// program counter packed little-endian, two of them when the first byte's
/// two low bits are not `11` (a compressed encoding), else four; `None`
/// when any needed byte is out of range.
pub open spec fn spec_fetch(mem: Seq<u8>, pc: int) -> Option<RawWord> {
    if pc >= mem.len() {
        None
    } else if mem[pc] & 3 != 3 {
        if pc + 1 < mem.len() {
            Some(RawWord::Half(((mem[pc + 1] as int) * 0x100 + mem[pc] as int) as u16))
        } else {
            None
        }
    } else {
        if pc + 3 < mem.len() {
            Some(
                RawWord::Word(
                    ((mem[pc + 3] as int) * 0x100_0000 + (mem[pc + 2] as int) * 0x1_0000
                        + (mem[pc + 1] as int) * 0x100 + mem[pc] as int) as u32,
                ),
            )
        } else {
            None
        }
    }
}

/// The first out-of-range byte address of a failed fetch.
pub open spec fn spec_fetch_fault(mem: Seq<u8>, pc: int) -> int {
    if pc >= mem.len() {
        pc
    } else {
        mem.len() as int
    }
}

/// Fetch stage: reads the byte at the program counter, takes its two low
/// bits as the width discriminator, and assembles the raw word
/// little-endian.  An out-of-range access is a fetch failure, propagated,
/// never retried.
pub fn fetch(dram: &Dram, index_pc: usize) -> (r: Result<Wrapper, MemoryError>)
    ensures
        r is Ok <==> spec_fetch(dram@, index_pc as int) is Some,
        r matches Ok(w) ==> spec_fetch(dram@, index_pc as int) == Some(w.value),
        r matches Ok(w) ==> ((w.value matches RawWord::Half(_)) <==> dram@[index_pc as int] & 3
            != 3),
        r matches Err(e) ==> e.addr == spec_fetch_fault(dram@, index_pc as int),
{
    let n: usize = dram.size();
    if index_pc >= n {
        return Err(MemoryError { addr: index_pc });
    }
    let b0: u8 = dram.raw_byte(index_pc);
    if b0 & 3 != 3 {
        if n - index_pc < 2 {
            return Err(MemoryError { addr: n });
        }
        let b1: u8 = dram.raw_byte(index_pc + 1);
        let value: u16 = (b1 as u16) * 0x100 + (b0 as u16);
        Ok(Wrapper::new(RawWord::Half(value)))
    } else {
        if n - index_pc < 4 {
            return Err(MemoryError { addr: n });
        }
        let b1: u8 = dram.raw_byte(index_pc + 1);
        let b2: u8 = dram.raw_byte(index_pc + 2);
        let b3: u8 = dram.raw_byte(index_pc + 3);
        let value: u32 = (b3 as u32) * 0x100_0000 + (b2 as u32) * 0x1_0000 + (b1 as u32) * 0x100
            + (b0 as u32);
        Ok(Wrapper::new(RawWord::Word(value)))
    }
}

} // verus!
