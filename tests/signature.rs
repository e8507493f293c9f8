use binscan::decode::{get_file_data, FileInfo};
use binscan::error::DecodeError;
use binscan::signature::{get_sign, sniff, FileFormat};

#[test]
fn sniff_dos_mz() {
    let bytes = vec![0x4D, 0x5A, 0x90, 0x00, 0x03];
    assert_eq!(get_sign(&bytes), "DOS MZ executable");
    assert_eq!(sniff(&bytes), FileFormat::DosMz);
}

#[test]
fn sniff_elf() {
    let bytes = vec![0x7F, 0x45, 0x4C, 0x46, 0x02, 0x01];
    assert_eq!(get_sign(&bytes), "Executable and Linkable Format (ELF)");
}

#[test]
fn sniff_macho_and_java() {
    assert_eq!(get_sign(&[0xFE, 0xED, 0xFA, 0xCE, 0]), "Mach-O binary (32-bit)");
    assert_eq!(get_sign(&[0xFE, 0xED, 0xFA, 0xCF]), "Mach-O binary (64-bit)");
    assert_eq!(
        get_sign(&[0xCE, 0xFA, 0xED, 0xFE]),
        "Mach-O binary (reverse byte ordering scheme, 32-bit)"
    );
    assert_eq!(
        get_sign(&[0xCF, 0xFA, 0xED, 0xFE]),
        "Mach-O binary (reverse byte ordering scheme, 64-bit)"
    );
    assert_eq!(get_sign(&[0xCA, 0xFE, 0xBA, 0xBE]), "Java class file, Mach-O Fat Binary");
}

#[test]
fn sniff_unknown_in_every_window() {
    let bytes = vec![0x11u8; 3000];
    assert_eq!(get_sign(&bytes), "unknown");
    assert_eq!(get_sign(&[]), "unknown");
}

#[test]
fn sniff_magic_inside_window_is_not_seen() {
    let mut bytes = vec![0u8; 100];
    bytes[5] = 0x4D;
    bytes[6] = 0x5A;
    assert_eq!(sniff(&bytes), FileFormat::Unknown);
}

#[test]
fn sniff_later_window_overrides_earlier() {
    let mut bytes = vec![0u8; 2048];
    bytes[0] = 0x4D;
    bytes[1] = 0x5A;
    bytes[1024] = 0x7F;
    bytes[1025] = 0x45;
    bytes[1026] = 0x4C;
    bytes[1027] = 0x46;
    assert_eq!(sniff(&bytes), FileFormat::Elf);
}

#[test]
fn sniff_magic_cut_by_buffer_end() {
    // The last window holds only the first byte of a magic.
    let mut bytes = vec![0u8; 1025];
    bytes[1024] = 0x7F;
    assert_eq!(sniff(&bytes), FileFormat::Unknown);
}

#[test]
fn unknown_format_is_unsupported() {
    let r = get_file_data(FileFormat::Unknown, &[1, 2, 3]);
    assert!(matches!(r, Err(DecodeError::UnsupportedFormat)));
    let r = get_file_data(FileFormat::JavaClassOrFat, &[0xCA, 0xFE, 0xBA, 0xBE]);
    assert!(matches!(r, Ok(FileInfo::JavaClassOrFat)));
}
