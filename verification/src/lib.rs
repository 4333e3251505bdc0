//! Core of an RV32 instruction-set simulator: fetch machine-code words from a
//! byte-addressable store, decode them into a canonical instruction record, and
//! execute that record against the architectural register/PC state.

pub mod bus;
pub mod cpu;
