//! The record of an instruction-set opcode table.
use vstd::prelude::*;

verus! {

/// How an instruction addresses its operands.
#[derive(Debug, Clone, Copy, PartialEq, Eq, Structural)]
pub enum Addressing {
    Direct,
    RDirect,
    Immediate,
    RIndirect,
    RIndirectWo,
    RIndirectPreInc,
    RIndirectPosInc,
    RIndirectRIndexed,
    RIndirectIndexed,
    /// Register to register.
    Rtr,
}

/// The mnemonic and addressing mode of an opcode.
#[derive(Debug, Clone, Copy)]
pub struct Opcode {
    pub mnemonic: &'static str,
    pub addressing: Addressing,
}

} // verus!
