use binscan::error::DecodeError;
use binscan::names::{replace_section_names, resolve_section_name, string_at};
use binscan::pe_structure::{Section, SectionTable, StringTable};

fn section(name: &[u8]) -> Section<'static> {
    Section {
        name: name.to_vec(),
        virtual_size: 0,
        virtual_address: 0,
        raw_data_size: 0,
        ptr_to_raw_data: 0,
        ptr_to_relocations: 0,
        ptr_to_linenumbers: 0,
        number_of_relocations: 0,
        number_of_linenumbers: 0,
        characteristics: 0,
        raw_data: &[],
    }
}

fn table() -> StringTable {
    // Payload: "abcdefghijk\0.debug_info\0" - ".debug_info" starts at byte 12.
    StringTable {
        length: 4 + 24,
        strings: vec![b"abcdefghijk".to_vec(), b".debug_info".to_vec(), Vec::new()],
    }
}

#[test]
fn indirect_name_resolves_at_byte_offset() {
    let p = table().payload();
    assert_eq!(resolve_section_name(b"/12", &p), Ok(Some(b".debug_info".to_vec())));
    assert_eq!(resolve_section_name(b"/0", &p), Ok(Some(b"abcdefghijk".to_vec())));
    assert_eq!(resolve_section_name(b"/14", &p), Ok(Some(b"ebug_info".to_vec())));
    assert_eq!(resolve_section_name(b".text", &p), Ok(None));
}

#[test]
fn out_of_range_or_non_numeric_name_is_malformed() {
    let p = table().payload();
    assert_eq!(resolve_section_name(b"/999999", &p), Err(DecodeError::MalformedHeader));
    assert_eq!(resolve_section_name(b"/24", &p), Err(DecodeError::MalformedHeader));
    assert_eq!(resolve_section_name(b"/1x", &p), Err(DecodeError::MalformedHeader));
    assert_eq!(resolve_section_name(b"/", &p), Err(DecodeError::MalformedHeader));
    assert_eq!(resolve_section_name(b"/99999999999999999999999", &p), Err(DecodeError::MalformedHeader));
}

#[test]
fn replace_leaves_unresolved_names() {
    let mut st = SectionTable {
        sections: vec![section(b".text"), section(b"/12"), section(b"/999999")],
        malformed: Vec::new(),
    };
    let bad = replace_section_names(&table(), &mut st);
    assert_eq!(bad, vec![2]);
    assert_eq!(st.sections[0].name, b".text".to_vec());
    assert_eq!(st.sections[1].name, b".debug_info".to_vec());
    assert_eq!(st.sections[2].name, b"/999999".to_vec());
}

#[test]
fn string_at_stops_at_nul_or_end() {
    assert_eq!(string_at(b"ab\0cd", 0), b"ab".to_vec());
    assert_eq!(string_at(b"ab\0cd", 3), b"cd".to_vec());
    assert_eq!(string_at(b"ab\0cd", 5), Vec::<u8>::new());
}
