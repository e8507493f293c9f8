use binscan::pe_structure::{RessourceAdresses, Section, SectionData, SectionTable};
use binscan::rsrc::{
    find_rsrc_data_adresses, is_a_subdirectory, match_codepage, msb_to_0, read_data_entry, read_rsrc_dir,
};
use binscan::sections::{extract_imports, extract_rsrc, extract_section_datas, get_dll_name};

fn put16(b: &mut [u8], o: usize, v: u16) {
    b[o..o + 2].copy_from_slice(&v.to_le_bytes());
}

fn put32(b: &mut [u8], o: usize, v: u32) {
    b[o..o + 4].copy_from_slice(&v.to_le_bytes());
}

// A root directory with one ID entry that points to a subdirectory, which
// holds two ID entries that point to data entries.
fn two_level_tree() -> Vec<u8> {
    let mut s = vec![0u8; 96];
    put16(&mut s, 14, 1);
    put32(&mut s, 16, 3);
    put32(&mut s, 20, 0x8000_0000 | 24);
    put16(&mut s, 24 + 14, 2);
    put32(&mut s, 40, 1);
    put32(&mut s, 44, 56);
    put32(&mut s, 48, 2);
    put32(&mut s, 52, 72);
    put32(&mut s, 56, 0x1010);
    put32(&mut s, 60, 4);
    put32(&mut s, 64, 1252);
    put32(&mut s, 72, 0x1020);
    put32(&mut s, 76, 8);
    put32(&mut s, 80, 0);
    s
}

fn empty_found() -> RessourceAdresses {
    RessourceAdresses { adresses: Vec::new(), faults: Vec::new() }
}

#[test]
fn two_level_tree_yields_both_leaves() {
    let s = two_level_tree();
    let mut found = empty_found();
    find_rsrc_data_adresses(&mut found, 0, &s, 96, 0x400, 0x1000);
    assert_eq!(found.adresses.len(), 2);
    assert_eq!(found.adresses[0].address, 0x1010 - 0x1000 + 0x400);
    assert_eq!(found.adresses[0].size, 4);
    assert_eq!(found.adresses[0].codepage, "Windows-1252");
    assert_eq!(found.adresses[1].address, 0x1020 - 0x1000 + 0x400);
    assert_eq!(found.adresses[1].size, 8);
    assert_eq!(found.adresses[1].codepage, "Unicode");
    assert!(found.faults.is_empty());
}

#[test]
fn self_referential_directory_stops_at_depth_limit() {
    let mut s = vec![0u8; 24];
    put16(&mut s, 14, 1);
    put32(&mut s, 20, 0x8000_0000);
    let mut found = empty_found();
    find_rsrc_data_adresses(&mut found, 0, &s, 24, 0x400, 0x1000);
    assert!(found.adresses.is_empty());
    assert_eq!(found.faults, vec![0]);
}

#[test]
fn unreadable_parts_are_faults() {
    let mut s = two_level_tree();
    // The second leaf points past the section; its RVA lies below the section.
    put32(&mut s, 52, 90);
    let mut found = empty_found();
    find_rsrc_data_adresses(&mut found, 0, &s, 96, 0x400, 0x1000);
    assert_eq!(found.adresses.len(), 1);
    assert_eq!(found.faults, vec![90]);
    put32(&mut s, 52, 72);
    put32(&mut s, 72, 0x10);
    let mut found = empty_found();
    find_rsrc_data_adresses(&mut found, 0, &s, 96, 0x400, 0x1000);
    assert_eq!(found.adresses.len(), 1);
    assert_eq!(found.faults, vec![72]);
    let mut found = empty_found();
    find_rsrc_data_adresses(&mut found, 200, &s, 96, 0x400, 0x1000);
    assert_eq!(found.faults, vec![200]);
}

#[test]
fn subdirectory_bit() {
    assert!(is_a_subdirectory(&[0x18, 0, 0, 0x80]));
    assert!(!is_a_subdirectory(&[0x18, 0, 0, 0x7F]));
    assert_eq!(msb_to_0(&[0x18, 0, 0, 0x80]), vec![0x18, 0, 0, 0]);
    assert_eq!(msb_to_0(&[1, 2, 3, 0xFF]), vec![1, 2, 3, 0x7F]);
}

#[test]
fn codepage_names() {
    assert_eq!(match_codepage(65001), "UTF-8");
    assert_eq!(match_codepage(1252), "Windows-1252");
    assert_eq!(match_codepage(7), "Unknown");
}

fn section<'a>(name: &[u8], va: u32, ptr: usize, raw: &'a [u8]) -> Section<'a> {
    Section {
        name: name.to_vec(),
        virtual_size: raw.len() as u32,
        virtual_address: va,
        raw_data_size: raw.len(),
        ptr_to_raw_data: ptr,
        ptr_to_relocations: 0,
        ptr_to_linenumbers: 0,
        number_of_relocations: 0,
        number_of_linenumbers: 0,
        characteristics: 0,
        raw_data: raw,
    }
}

#[test]
fn rsrc_section_bytes_are_taken_from_the_file() {
    // The section sits at file offset 0x400 of a buffer of 0x500 bytes.
    let mut file = vec![0u8; 0x500];
    let tree = two_level_tree();
    file[0x400..0x400 + 96].copy_from_slice(&tree);
    for i in 0..4 {
        file[0x410 + i] = 0xA0 + i as u8;
    }
    let sec = section(b".rsrc", 0x1000, 0x400, &file[0x400..0x460]);
    let list = extract_rsrc(&file, &sec);
    assert_eq!(list.data.len(), 2);
    assert_eq!(list.data[0].extracted_raw, &[0xA0, 0xA1, 0xA2, 0xA3]);
    assert_eq!(list.data[1].extracted_raw.len(), 8);
    assert!(list.out_of_bounds.is_empty());
    // A file that ends before the second resource.
    let short = &file[..0x424];
    let sec = section(b".rsrc", 0x1000, 0x400, &file[0x400..0x460]);
    let list = extract_rsrc(short, &sec);
    assert_eq!(list.out_of_bounds, vec![1]);
    assert!(list.data[1].extracted_raw.is_empty());
}

#[test]
fn dll_names_are_read_up_to_nul() {
    let bytes = b"xxKERNEL32.dll\0rest";
    assert_eq!(get_dll_name(bytes, 2), "KERNEL32.dll");
    assert_eq!(get_dll_name(bytes, 15), "rest");
    assert_eq!(get_dll_name(bytes, bytes.len()), "");
}

#[test]
fn imports_up_to_terminator() {
    // The section sits at file offset 0x100, virtual address 0x2000.
    let mut file = vec![0u8; 0x200];
    put32(&mut file, 0x100 + 12, 0x2050);
    put32(&mut file, 0x100 + 16, 1);
    put32(&mut file, 0x100 + 20 + 12, 0x2060);
    put32(&mut file, 0x100 + 20 + 16, 1);
    file[0x150..0x15D].copy_from_slice(b"KERNEL32.dll\0");
    file[0x160..0x16B].copy_from_slice(b"USER32.dll\0");
    let sec = section(b".idata", 0x2000, 0x100, &file[0x100..0x180]);
    let im = extract_imports(&file, &sec);
    assert_eq!(im.dll_names, vec!["KERNEL32.dll".to_string(), "USER32.dll".to_string()]);
    assert!(!im.malformed);
    // Without a terminator the list runs off the section.
    let sec = section(b".idata", 0x2000, 0x100, &file[0x100..0x124]);
    let im = extract_imports(&file, &sec);
    assert_eq!(im.dll_names, vec!["KERNEL32.dll".to_string()]);
    assert!(im.malformed);
}

#[test]
fn sections_are_classified_by_name() {
    let file = vec![7u8; 64];
    let table = SectionTable {
        sections: vec![
            section(b".text", 0, 0, &file[0..8]),
            section(b".data", 0, 8, &file[8..12]),
            section(b".idata", 0, 0, &file[0..0]),
        ],
        malformed: Vec::new(),
    };
    let data = extract_section_datas(&file, &table);
    assert_eq!(data.sections.len(), 3);
    assert!(matches!(&data.sections[0], SectionData::Text(t) if t.extracted_code.len() == 8));
    assert!(matches!(&data.sections[1], SectionData::Unknown(u) if u.section_name == b".data".to_vec()));
    assert!(matches!(&data.sections[2], SectionData::IData(im) if im.malformed && im.dll_names.is_empty()));
}

#[test]
fn directory_and_data_entry_records() {
    let s = two_level_tree();
    let root = read_rsrc_dir(&s, 0);
    assert_eq!(root.name_entries_number, 0);
    assert_eq!(root.id_entries_number, 1);
    let sub = read_rsrc_dir(&s, 24);
    assert_eq!(sub.id_entries_number, 2);
    let leaf = read_data_entry(&s, 56);
    assert_eq!(leaf.data_rva, 0x1010);
    assert_eq!(leaf.size, 4);
    assert_eq!(leaf.codepage, &[0xE4, 0x04, 0, 0]);
}
