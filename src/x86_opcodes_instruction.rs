//! The mnemonics of the first x86 one-byte opcodes.
use vstd::prelude::*;
use std::collections::HashMap;

verus! {

broadcast use vstd::std_specs::hash::group_hash_axioms;

/// The mnemonic of a one-byte opcode, for the opcodes that the table covers.
pub open spec fn mnemonic_spec(op: u8) -> Option<Seq<char>> {
    if op <= 0x05 {
        Some("ADD"@)
    } else if op <= 0x07 {
        Some("invalid"@)
    } else if op <= 0x0D {
        Some("OR"@)
    } else if op == 0x0E {
        Some("invalid"@)
    } else if op == 0x10 {
        Some("ADC"@)
    } else {
        None
    }
}

/// The mnemonic of a one-byte opcode, `None` for one that the table lacks.
pub fn mnemonic(op: u8) -> (r: Option<&'static str>)
    ensures
        r is Some == mnemonic_spec(op) is Some,
        r matches Some(m) ==> m@ == mnemonic_spec(op)->Some_0,
{
    if op <= 0x05 {
        Some("ADD")
    } else if op <= 0x07 {
        Some("invalid")
    } else if op <= 0x0D {
        Some("OR")
    } else if op == 0x0E {
        Some("invalid")
    } else if op == 0x10 {
        Some("ADC")
    } else {
        None
    }
}

/// The opcode table as a map from opcode to mnemonic.
pub fn get_opcodes() -> (r: HashMap<u8, &'static str>)
    ensures
        forall|k: u8| #[trigger] r@.contains_key(k) <==> mnemonic_spec(k) is Some,
        forall|k: u8| r@.contains_key(k) ==> (#[trigger] r@[k])@ == mnemonic_spec(k)->Some_0,
{
    let mut x86: HashMap<u8, &'static str> = HashMap::new();
    let mut op: u8 = 0;
    while op <= 0x10
        invariant
            op <= 0x11,
            forall|k: u8| #[trigger] x86@.contains_key(k) <==> (k < op && mnemonic_spec(k) is Some),
            forall|k: u8| x86@.contains_key(k) ==> (#[trigger] x86@[k])@ == mnemonic_spec(k)->Some_0,
        decreases 0x11 - op,
    {
        match mnemonic(op) {
            Some(m) => {
                x86.insert(op, m);
            },
            None => {},
        }
        op += 1;
    }
    x86
}

} // verus!
