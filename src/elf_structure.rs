//! The identification and header of an ELF file, read at fixed offsets.
use vstd::prelude::*;
use crate::bytes::slice_of;
use crate::error::DecodeError;

verus! {

/// The 16 identification bytes that open an ELF file.
#[derive(Debug)]
pub struct ELFIdentification<'a> {
    pub magic: &'a [u8],
    pub class: &'a [u8],
    pub data: &'a [u8],
    pub version: &'a [u8],
    pub os_abi: &'a [u8],
    pub abi_version: &'a [u8],
    pub padding: &'a [u8],
}

/// The ELF file header that follows the identification bytes.
#[derive(Debug)]
pub struct ELFHeader<'a> {
    pub file_type: &'a [u8],
    pub machine: &'a [u8],
    pub version: &'a [u8],
    pub entry_point: &'a [u8],
    pub program_header_offset: &'a [u8],
    pub section_header_offset: &'a [u8],
    pub flags: &'a [u8],
    pub header_size: &'a [u8],
    pub program_header_entry_size: &'a [u8],
    pub program_header_entry_count: &'a [u8],
    pub section_header_entry_size: &'a [u8],
    pub section_header_entry_count: &'a [u8],
    pub section_name_string_table_index: &'a [u8],
}

/// The identification and header of an ELF file.
#[derive(Debug)]
pub struct FileInfoELF<'a> {
    pub identification: ELFIdentification<'a>,
    pub header: ELFHeader<'a>,
}

/// Whether the class byte of `b` announces a 32-bit file.
pub open spec fn is_elf32(b: Seq<u8>) -> bool {
    b[4] == 1
}

/// The length of the header of `b`, by its class.
pub open spec fn elf_header_end(b: Seq<u8>) -> int {
    if is_elf32(b) {
        50
    } else {
        62
    }
}

/// `i` holds the identification bytes of `b`.
pub open spec fn elf_ident_spec(b: Seq<u8>, i: ELFIdentification) -> bool {
    &&& i.magic@ == b.subrange(0, 4)
    &&& i.class@ == b.subrange(4, 5)
    &&& i.data@ == b.subrange(5, 6)
    &&& i.version@ == b.subrange(6, 7)
    &&& i.os_abi@ == b.subrange(7, 8)
    &&& i.abi_version@ == b.subrange(8, 9)
    &&& i.padding@ == b.subrange(9, 16)
}

/// `h` holds the header fields of the 32-bit file `b`.
pub open spec fn elf32_header_spec(b: Seq<u8>, h: ELFHeader) -> bool {
    &&& h.file_type@ == b.subrange(16, 18)
    &&& h.machine@ == b.subrange(18, 20)
    &&& h.version@ == b.subrange(20, 22)
    &&& h.entry_point@ == b.subrange(22, 26)
    &&& h.program_header_offset@ == b.subrange(26, 30)
    &&& h.section_header_offset@ == b.subrange(30, 34)
    &&& h.flags@ == b.subrange(34, 38)
    &&& h.header_size@ == b.subrange(38, 40)
    &&& h.program_header_entry_size@ == b.subrange(40, 42)
    &&& h.program_header_entry_count@ == b.subrange(42, 44)
    &&& h.section_header_entry_size@ == b.subrange(44, 46)
    &&& h.section_header_entry_count@ == b.subrange(46, 48)
    &&& h.section_name_string_table_index@ == b.subrange(48, 50)
}

/// `h` holds the header fields of the 64-bit file `b`.
pub open spec fn elf64_header_spec(b: Seq<u8>, h: ELFHeader) -> bool {
    &&& h.file_type@ == b.subrange(16, 18)
    &&& h.machine@ == b.subrange(18, 20)
    &&& h.version@ == b.subrange(20, 22)
    &&& h.entry_point@ == b.subrange(22, 30)
    &&& h.program_header_offset@ == b.subrange(30, 38)
    &&& h.section_header_offset@ == b.subrange(38, 46)
    &&& h.flags@ == b.subrange(46, 50)
    &&& h.header_size@ == b.subrange(50, 52)
    &&& h.program_header_entry_size@ == b.subrange(52, 54)
    &&& h.program_header_entry_count@ == b.subrange(54, 56)
    &&& h.section_header_entry_size@ == b.subrange(56, 58)
    &&& h.section_header_entry_count@ == b.subrange(58, 60)
    &&& h.section_name_string_table_index@ == b.subrange(60, 62)
}

/// Reads the identification bytes and the header of an ELF file, with the
/// 32-bit layout when the class byte is 1 and the 64-bit layout otherwise.
/// `MalformedHeader` when the buffer is shorter than that layout.
pub fn extract_elf_header(bytes: &[u8]) -> (r: Result<FileInfoELF<'_>, DecodeError>)
    ensures
        r is Ok <==> bytes@.len() >= 16 && elf_header_end(bytes@) <= bytes@.len(),
        r is Err ==> r == Err::<FileInfoELF<'_>, DecodeError>(DecodeError::MalformedHeader),
        r matches Ok(f) ==> {
            &&& elf_ident_spec(bytes@, f.identification)
            &&& is_elf32(bytes@) ==> elf32_header_spec(bytes@, f.header)
            &&& !is_elf32(bytes@) ==> elf64_header_spec(bytes@, f.header)
        },
{
    if bytes.len() < 16 {
        return Err(DecodeError::MalformedHeader);
    }
    let identification = ELFIdentification {
        magic: slice_of(bytes, 0, 4),
        class: slice_of(bytes, 4, 5),
        data: slice_of(bytes, 5, 6),
        version: slice_of(bytes, 6, 7),
        os_abi: slice_of(bytes, 7, 8),
        abi_version: slice_of(bytes, 8, 9),
        padding: slice_of(bytes, 9, 16),
    };
    let header = if bytes[4] == 1 {
        if bytes.len() < 50 {
            return Err(DecodeError::MalformedHeader);
        }
        ELFHeader {
            file_type: slice_of(bytes, 16, 18),
            machine: slice_of(bytes, 18, 20),
            version: slice_of(bytes, 20, 22),
            entry_point: slice_of(bytes, 22, 26),
            program_header_offset: slice_of(bytes, 26, 30),
            section_header_offset: slice_of(bytes, 30, 34),
            flags: slice_of(bytes, 34, 38),
            header_size: slice_of(bytes, 38, 40),
            program_header_entry_size: slice_of(bytes, 40, 42),
            program_header_entry_count: slice_of(bytes, 42, 44),
            section_header_entry_size: slice_of(bytes, 44, 46),
            section_header_entry_count: slice_of(bytes, 46, 48),
            section_name_string_table_index: slice_of(bytes, 48, 50),
        }
    } else {
        if bytes.len() < 62 {
            return Err(DecodeError::MalformedHeader);
        }
        ELFHeader {
            file_type: slice_of(bytes, 16, 18),
            machine: slice_of(bytes, 18, 20),
            version: slice_of(bytes, 20, 22),
            entry_point: slice_of(bytes, 22, 30),
            program_header_offset: slice_of(bytes, 30, 38),
            section_header_offset: slice_of(bytes, 38, 46),
            flags: slice_of(bytes, 46, 50),
            header_size: slice_of(bytes, 50, 52),
            program_header_entry_size: slice_of(bytes, 52, 54),
            program_header_entry_count: slice_of(bytes, 54, 56),
            section_header_entry_size: slice_of(bytes, 56, 58),
            section_header_entry_count: slice_of(bytes, 58, 60),
            section_name_string_table_index: slice_of(bytes, 60, 62),
        }
    };
    Ok(FileInfoELF { identification, header })
}

} // verus!
