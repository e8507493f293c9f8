//! The 32-bit ARM opcode table, keyed by the instruction's top byte.
use vstd::prelude::*;
use std::collections::HashMap;
use crate::opcodes_instructions::{Addressing, Opcode};

verus! {

broadcast use vstd::std_specs::hash::group_hash_axioms;

/// The table's entry for a top byte, as mnemonic and addressing mode.
pub open spec fn arm_spec(op: u8) -> Option<(Seq<char>, Addressing)> {
    if op == 0x8B {
        Some(("ADD"@, Addressing::Immediate))
    } else if op == 0xD2 {
        Some(("MOV"@, Addressing::Immediate))
    } else if op == 0xAA {
        Some(("MOV"@, Addressing::Rtr))
    } else {
        None
    }
}

/// The opcode table.
pub fn get_opcodes() -> (r: HashMap<u8, Opcode>)
    ensures
        forall|k: u8| #[trigger] r@.contains_key(k) <==> arm_spec(k) is Some,
        forall|k: u8|
            r@.contains_key(k) ==> (#[trigger] r@[k]).mnemonic@ == arm_spec(k)->Some_0.0
                && r@[k].addressing == arm_spec(k)->Some_0.1,
{
    let mut t: HashMap<u8, Opcode> = HashMap::new();
    t.insert(0x8B, Opcode { mnemonic: "ADD", addressing: Addressing::Immediate });
    t.insert(0xD2, Opcode { mnemonic: "MOV", addressing: Addressing::Immediate });
    t.insert(0xAA, Opcode { mnemonic: "MOV", addressing: Addressing::Rtr });
    t
}

} // verus!
