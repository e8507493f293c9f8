use binscan::bytes::{read_u16, read_u32, reverse_bytes};
use binscan::decode::{get_file_data, FileInfo};
use binscan::elf_structure::extract_elf_header;
use binscan::error::DecodeError;
use binscan::macho_structure::extract_macho_header;
use binscan::opcodes_instructions::Addressing;
use binscan::signature::FileFormat;
use binscan::text::lossy_text;
use binscan::x86_opcodes_instruction::{get_opcodes, mnemonic};

#[test]
fn little_endian_reads() {
    let b = [0x01, 0x02, 0x03, 0x04, 0xFF];
    assert_eq!(read_u16(&b, 0), 0x0201);
    assert_eq!(read_u32(&b, 0), 0x04030201);
    assert_eq!(read_u32(&b, 1), 0xFF040302);
}

#[test]
fn reversed_bytes() {
    assert_eq!(reverse_bytes(&[1u8, 2, 3]), vec![3, 2, 1]);
    assert_eq!(reverse_bytes::<u8>(&[]), Vec::<u8>::new());
}

#[test]
fn elf_header_by_class() {
    let mut b: Vec<u8> = (0..70).collect();
    b[4] = 1;
    let f = extract_elf_header(&b).unwrap();
    assert_eq!(f.identification.class, &[1]);
    assert_eq!(f.header.entry_point, &[22, 23, 24, 25]);
    assert_eq!(f.header.section_name_string_table_index, &[48, 49]);
    b[4] = 2;
    let f = extract_elf_header(&b).unwrap();
    assert_eq!(f.header.entry_point, &[22, 23, 24, 25, 26, 27, 28, 29]);
    assert_eq!(f.header.section_name_string_table_index, &[60, 61]);
    assert_eq!(extract_elf_header(&b[..55]).unwrap_err(), DecodeError::MalformedHeader);
    b[4] = 1;
    assert!(extract_elf_header(&b[..55]).is_ok());
    assert!(matches!(get_file_data(FileFormat::Elf, &b[..10]), Err(DecodeError::MalformedHeader)));
}

#[test]
fn macho_header_in_both_byte_orders() {
    let b: Vec<u8> = (0..28).collect();
    let h = extract_macho_header(&b, false).unwrap();
    assert_eq!(h.cputype, vec![4, 5, 6, 7]);
    let h = extract_macho_header(&b, true).unwrap();
    assert_eq!(h.cputype, vec![7, 6, 5, 4]);
    assert_eq!(h.flags, vec![27, 26, 25, 24]);
    assert_eq!(extract_macho_header(&b[..27], false).unwrap_err(), DecodeError::MalformedHeader);
    match get_file_data(FileFormat::MachO64Reversed, &b) {
        Ok(FileInfo::MachO(h)) => assert_eq!(h.magic, vec![3, 2, 1, 0]),
        other => panic!("unexpected {:?}", other),
    }
}

#[test]
fn x86_opcode_table() {
    let t = get_opcodes();
    assert_eq!(t.len(), 16);
    assert_eq!(t[&0x00], "ADD");
    assert_eq!(t[&0x06], "invalid");
    assert_eq!(t[&0x0B], "OR");
    assert_eq!(t[&0x10], "ADC");
    assert!(!t.contains_key(&0x0F));
    assert_eq!(mnemonic(0x11), None);
}

#[test]
fn aarch64_opcode_table_keeps_last_duplicate() {
    let t = binscan::aarch_opcodes_instructions::get_opcodes();
    assert_eq!(t.len(), 8);
    assert_eq!(t[&0xAA].mnemonic, "STR");
    assert_eq!(t[&0xAA].addressing, Addressing::Rtr);
    assert_eq!(t[&0x8B].mnemonic, "ADD");
    assert_eq!(t[&0x8B].addressing, Addressing::Immediate);
    assert_eq!(t[&0xF9].mnemonic, "LDR");
}

#[test]
fn arm_opcode_table() {
    let t = binscan::arm_opcodes_instruction::get_opcodes();
    assert_eq!(t.len(), 3);
    assert_eq!(t[&0xAA].mnemonic, "MOV");
    assert_eq!(t[&0xAA].addressing, Addressing::Rtr);
    assert_eq!(t[&0xD2].addressing, Addressing::Immediate);
}

#[test]
fn names_as_text() {
    assert_eq!(lossy_text(b".text"), ".text");
    assert_eq!(lossy_text(&[0x61, 0xFF, 0x62]), "a\u{FFFD}b");
    assert_eq!(lossy_text(&[]), "");
}
