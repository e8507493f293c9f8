use binscan::decode::{decode_pe, get_file_data, FileInfo};
use binscan::error::DecodeError;
use binscan::headers::{extract_coff_header, extract_dos_header, extract_dos_stub, extract_opt_header};
use binscan::pe_structure::{COFFHeader, SectionData};
use binscan::signature::FileFormat;
use binscan::tables::{extract_section_table, extract_string_table, extract_symbol_table};

fn put16(b: &mut [u8], o: usize, v: u16) {
    b[o..o + 2].copy_from_slice(&v.to_le_bytes());
}

fn put32(b: &mut [u8], o: usize, v: u32) {
    b[o..o + 4].copy_from_slice(&v.to_le_bytes());
}

fn put_name(b: &mut [u8], o: usize, name: &[u8]) {
    b[o..o + name.len()].copy_from_slice(name);
}

// An image with its COFF header at 64, an optional header of 112 bytes, three
// sections at 200 (.text with 16 bytes at 320, .bss without raw data, and one
// named /4), one symbol at 400 and a string table at 418.
fn sample_image() -> Vec<u8> {
    let mut b = vec![0u8; 460];
    b[0] = 0x4D;
    b[1] = 0x5A;
    put32(&mut b, 60, 64);
    put_name(&mut b, 64, b"PE\0\0");
    put16(&mut b, 68, 0x14C);
    put16(&mut b, 70, 3);
    put32(&mut b, 76, 400);
    put32(&mut b, 80, 1);
    put16(&mut b, 84, 112);
    put32(&mut b, 64 + 28, 0x200);
    put32(&mut b, 64 + 40, 0x1234);
    // .text
    put_name(&mut b, 200, b".text");
    put32(&mut b, 208, 16);
    put32(&mut b, 212, 0x1000);
    put32(&mut b, 216, 16);
    put32(&mut b, 220, 320);
    put32(&mut b, 236, 0x6000_0020);
    for i in 0..16 {
        b[320 + i] = 0x90;
    }
    // .bss: no raw data, and a pointer past the end
    put_name(&mut b, 240, b".bss");
    put32(&mut b, 256, 0);
    put32(&mut b, 260, 99999);
    // /4: its name lies in the string table
    put_name(&mut b, 280, b"/4");
    put32(&mut b, 296, 4);
    put32(&mut b, 300, 336);
    // symbol "main"
    put_name(&mut b, 400, b"main");
    put32(&mut b, 408, 7);
    // string table: length 4 + 13, payload "abc\0longname\0"
    put32(&mut b, 418, 17);
    put_name(&mut b, 422, b"abc\0longname\0");
    b
}

#[test]
fn section_count_matches_sections_produced() {
    let b = sample_image();
    let coff = extract_coff_header(&b, 64).unwrap();
    let st = extract_section_table(&b, 64, coff).unwrap();
    assert_eq!(coff.section_count, 3);
    assert_eq!(st.sections.len(), 3);
}

#[test]
fn empty_section_has_empty_raw_data() {
    let b = sample_image();
    let coff = extract_coff_header(&b, 64).unwrap();
    let st = extract_section_table(&b, 64, coff).unwrap();
    assert_eq!(st.sections[1].raw_data_size, 0);
    assert_eq!(st.sections[1].raw_data.len(), 0);
    assert!(st.malformed.is_empty());
    assert_eq!(st.sections[0].raw_data, &[0x90u8; 16][..]);
    assert_eq!(st.sections[0].characteristics, 0x6000_0020);
    assert_eq!(st.sections[0].virtual_address, 0x1000);
}

#[test]
fn section_raw_data_outside_buffer_is_reported() {
    let mut b = sample_image();
    put32(&mut b, 300, 458);
    let coff = extract_coff_header(&b, 64).unwrap();
    let st = extract_section_table(&b, 64, coff).unwrap();
    assert_eq!(st.sections.len(), 3);
    assert_eq!(st.malformed, vec![2]);
    assert!(st.sections[2].raw_data.is_empty());
    assert_eq!(st.sections[0].raw_data.len(), 16);
}

#[test]
fn section_table_outside_buffer_is_malformed() {
    let mut b = sample_image();
    put16(&mut b, 70, 20);
    let coff = extract_coff_header(&b, 64).unwrap();
    assert_eq!(extract_section_table(&b, 64, coff).unwrap_err(), DecodeError::MalformedHeader);
}

#[test]
fn headers_are_read_at_their_offsets() {
    let b = sample_image();
    let dos = extract_dos_header(&b).unwrap();
    assert_eq!(dos.magic, b"MZ");
    assert_eq!(dos.pe_offset, 64);
    assert_eq!(extract_dos_stub(&b, 64).unwrap().len(), 0);
    let coff: COFFHeader = extract_coff_header(&b, 64).unwrap();
    assert_eq!(coff.magic, b"PE\0\0");
    assert_eq!(coff.machine, &[0x4C, 0x01]);
    assert_eq!(coff.symbol_table_pointer, 400);
    assert_eq!(coff.symbol_count, 1);
    assert_eq!(coff.optional_header_size, 112);
    let opt = extract_opt_header(&b, 64).unwrap();
    assert_eq!(opt.code_size, 0x200);
    assert_eq!(opt.entry_point_address, 0x1234);
}

#[test]
fn symbols_and_strings_are_read() {
    let b = sample_image();
    let coff = extract_coff_header(&b, 64).unwrap();
    let syms = extract_symbol_table(&b, 64, coff).unwrap();
    assert_eq!(syms.symbols.len(), 1);
    assert_eq!(syms.symbols[0].name, b"main".to_vec());
    assert_eq!(syms.symbols[0].value, &[7, 0, 0, 0]);
    let strings = extract_string_table(&b, coff).unwrap();
    assert_eq!(strings.length, 17);
    assert_eq!(strings.strings, vec![b"abc".to_vec(), b"longname".to_vec(), Vec::new()]);
}

#[test]
fn string_table_round_trip() {
    let b = sample_image();
    let coff = extract_coff_header(&b, 64).unwrap();
    let t = extract_string_table(&b, coff).unwrap();
    let mut rebuilt = b[418..422].to_vec();
    rebuilt.extend_from_slice(&t.strings.join(&0u8));
    assert_eq!(rebuilt, b[418..418 + t.length].to_vec());
    assert_eq!(t.payload(), b[422..435].to_vec());
}

#[test]
fn string_table_with_short_length_is_malformed() {
    let mut b = sample_image();
    put32(&mut b, 418, 2);
    let coff = extract_coff_header(&b, 64).unwrap();
    assert_eq!(extract_string_table(&b, coff).unwrap_err(), DecodeError::MalformedHeader);
    put32(&mut b, 418, 1000);
    let coff = extract_coff_header(&b, 64).unwrap();
    assert_eq!(extract_string_table(&b, coff).unwrap_err(), DecodeError::MalformedHeader);
}

#[test]
fn symbols_past_buffer_are_malformed() {
    let mut b = sample_image();
    put32(&mut b, 80, 100);
    let coff = extract_coff_header(&b, 64).unwrap();
    assert_eq!(extract_symbol_table(&b, 64, coff).unwrap_err(), DecodeError::MalformedHeader);
    assert_eq!(extract_string_table(&b, coff).unwrap_err(), DecodeError::MalformedHeader);
}

#[test]
fn whole_image_decodes() {
    let b = sample_image();
    let d = decode_pe(&b).unwrap();
    let st = d.section_table.as_ref().unwrap();
    let names: Vec<Vec<u8>> = st.sections.iter().map(|s| s.name.clone()).collect();
    assert_eq!(names, vec![b".text".to_vec(), b".bss".to_vec(), b"longname".to_vec()]);
    assert_eq!(st.sections[2].name_text(), "longname");
    assert_eq!(d.symbol_table.as_ref().unwrap().symbols[0].name_text(), "main");
    assert!(d.unresolved_names.is_empty());
    let data = d.sections_data.as_ref().unwrap();
    assert_eq!(data.sections.len(), 3);
    match &data.sections[0] {
        SectionData::Text(t) => assert_eq!(t.extracted_code, &[0x90u8; 16][..]),
        other => panic!("unexpected {:?}", other),
    }
    match &data.sections[2] {
        SectionData::Unknown(u) => {
            assert_eq!(u.section_name, b"longname".to_vec());
            assert_eq!(u.extracted_raw.len(), 4);
        }
        other => panic!("unexpected {:?}", other),
    }
    assert!(matches!(get_file_data(FileFormat::DosMz, &b), Ok(FileInfo::Pe(_))));
}

#[test]
fn short_buffer_is_irrecoverable() {
    let b = vec![0x4D, 0x5A, 0, 0, 0, 0, 0, 0, 0, 0];
    assert_eq!(decode_pe(&b).unwrap_err(), DecodeError::IrrecoverableInput);
    assert_eq!(extract_dos_header(&b).unwrap_err(), DecodeError::IrrecoverableInput);
}

#[test]
fn pe_offset_beyond_buffer_is_malformed() {
    let mut b = vec![0u8; 100];
    b[0] = 0x4D;
    b[1] = 0x5A;
    put32(&mut b, 60, 5000);
    assert_eq!(decode_pe(&b).unwrap_err(), DecodeError::MalformedHeader);
    assert_eq!(extract_dos_stub(&b, 5000).unwrap_err(), DecodeError::MalformedHeader);
    assert!(matches!(get_file_data(FileFormat::DosMz, &b), Err(DecodeError::MalformedHeader)));
}

#[test]
fn optional_header_past_buffer_is_malformed_alone() {
    let mut b = vec![0u8; 120];
    b[0] = 0x4D;
    b[1] = 0x5A;
    put32(&mut b, 60, 64);
    put_name(&mut b, 64, b"PE\0\0");
    let d = decode_pe(&b).unwrap();
    assert_eq!(d.optional_header.unwrap_err(), DecodeError::MalformedHeader);
    assert_eq!(d.coff_header.section_count, 0);
    assert_eq!(d.section_table.unwrap().sections.len(), 0);
}
