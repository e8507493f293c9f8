//! The AArch64 opcode table, keyed by the instruction's top byte.
use vstd::prelude::*;
use std::collections::HashMap;
use crate::opcodes_instructions::{Addressing, Opcode};

verus! {

broadcast use vstd::std_specs::hash::group_hash_axioms;

/// The table's entry for a top byte, as mnemonic and addressing mode.
pub open spec fn aarch_spec(op: u8) -> Option<(Seq<char>, Addressing)> {
    if op == 0x8B {
        Some(("ADD"@, Addressing::Immediate))
    } else if op == 0xCB {
        Some(("SUB"@, Addressing::Rtr))
    } else if op == 0x9B {
        Some(("MUL"@, Addressing::Rtr))
    } else if op == 0x8A {
        Some(("AND"@, Addressing::Rtr))
    } else if op == 0xAA {
        Some(("STR"@, Addressing::Rtr))
    } else if op == 0xCA {
        Some(("EOR"@, Addressing::Rtr))
    } else if op == 0xD2 {
        Some(("MOV"@, Addressing::Immediate))
    } else if op == 0xF9 {
        Some(("LDR"@, Addressing::Immediate))
    } else {
        None
    }
}

/// The opcode table. Entries are inserted in table order, so that of the
/// entries that share `0xAA` (ORR, MOV, STR) the last one stays.
pub fn get_opcodes() -> (r: HashMap<u8, Opcode>)
    ensures
        forall|k: u8| #[trigger] r@.contains_key(k) <==> aarch_spec(k) is Some,
        forall|k: u8|
            r@.contains_key(k) ==> (#[trigger] r@[k]).mnemonic@ == aarch_spec(k)->Some_0.0
                && r@[k].addressing == aarch_spec(k)->Some_0.1,
{
    let mut t: HashMap<u8, Opcode> = HashMap::new();
    t.insert(0x8B, Opcode { mnemonic: "ADD", addressing: Addressing::Immediate });
    t.insert(0xCB, Opcode { mnemonic: "SUB", addressing: Addressing::Rtr });
    t.insert(0x9B, Opcode { mnemonic: "MUL", addressing: Addressing::Rtr });
    t.insert(0x8A, Opcode { mnemonic: "AND", addressing: Addressing::Rtr });
    t.insert(0xAA, Opcode { mnemonic: "ORR", addressing: Addressing::Rtr });
    t.insert(0xCA, Opcode { mnemonic: "EOR", addressing: Addressing::Rtr });
    t.insert(0xD2, Opcode { mnemonic: "MOV", addressing: Addressing::Immediate });
    t.insert(0xAA, Opcode { mnemonic: "MOV", addressing: Addressing::Rtr });
    t.insert(0xF9, Opcode { mnemonic: "LDR", addressing: Addressing::Immediate });
    t.insert(0xAA, Opcode { mnemonic: "STR", addressing: Addressing::Rtr });
    t
}

} // verus!
