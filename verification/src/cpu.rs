//! The CPU data model: flags, register file, and the wrapper a caller hands in.

use vstd::prelude::*;

verus! {

/// The five condition flags of the CPU's flag register.
#[derive(Clone, Copy, Debug, PartialEq, Eq, Structural)]
pub struct CpuFlags {
    pub sign: bool,
    pub zero: bool,
    pub aux_carry: bool,
    pub parity: bool,
    pub carry: bool,
}

/// The register file: eight 8-bit registers, two 16-bit pointers, a wrapping
/// 64-bit cycle counter, and the flag register.
#[derive(Clone, Copy, Debug, PartialEq, Eq, Structural)]
pub struct CpuState {
    pub a: u8,
    pub b: u8,
    pub c: u8,
    pub d: u8,
    pub e: u8,
    pub h: u8,
    pub l: u8,
    pub stack_pointer: u16,
    pub program_counter: u16,
    pub cycles: u64,
    pub flags: CpuFlags,
}

/// A request's view of the machine: the register state, an opaque
/// caller-assigned identifier passed through untouched, and the opcode byte
/// (accepted, not dispatched on).
#[derive(Debug)]
pub struct Cpu {
    pub state: CpuState,
    pub id: String,
    pub opcode: u8,
}

} // verus!
