//! The fixed-offset headers of a PE image: DOS header and stub, COFF header
//! and optional header.
use vstd::prelude::*;
use crate::bytes::{le16, le32, read_u16, read_u32, slice_of};
use crate::error::DecodeError;
use crate::pe_structure::{COFFHeader, DOSHeader, DataDirectoryEntry, OptionalHeader};

verus! {

/// Length of the DOS header, whose last field is the COFF header's offset.
pub const DOS_HEADER_LEN: usize = 64;

/// Length of the COFF header, its `PE\0\0` magic included.
pub const COFF_HEADER_LEN: usize = 24;

/// Bytes from the COFF header's start to the end of the optional header's
/// first data directory entry.
pub const OPT_HEADER_END: usize = 128;

/// `h` holds the DOS header fields of `b`.
pub open spec fn dos_header_spec(b: Seq<u8>, h: DOSHeader) -> bool {
    &&& h.magic@ == b.subrange(0, 2)
    &&& h.extra_bytes@ == b.subrange(2, 4)
    &&& h.pages@ == b.subrange(4, 6)
    &&& h.entries_relocation_table@ == b.subrange(6, 8)
    &&& h.header_size@ == b.subrange(8, 10)
    &&& h.min_alloc@ == b.subrange(10, 12)
    &&& h.max_alloc@ == b.subrange(12, 14)
    &&& h.initial_ss@ == b.subrange(14, 16)
    &&& h.initial_sp@ == b.subrange(16, 18)
    &&& h.checksum@ == b.subrange(18, 20)
    &&& h.initial_ip@ == b.subrange(20, 22)
    &&& h.initial_cs@ == b.subrange(22, 24)
    &&& h.reloc_table_address@ == b.subrange(24, 26)
    &&& h.overlay@ == b.subrange(26, 28)
    &&& h.pe_offset == le32(b, 60)
}

/// `h` holds the COFF header fields of `b` at offset `off`.
pub open spec fn coff_header_spec(b: Seq<u8>, off: int, h: COFFHeader) -> bool {
    &&& h.magic@ == b.subrange(off + 0, off + 4)
    &&& h.machine@ == b.subrange(off + 4, off + 6)
    &&& h.timestamp@ == b.subrange(off + 8, off + 12)
    &&& h.characteristics@ == b.subrange(off + 22, off + 24)
    &&& h.section_count == le16(b, off + 6)
    &&& h.symbol_table_pointer == le32(b, off + 12)
    &&& h.symbol_count == le32(b, off + 16)
    &&& h.optional_header_size == le16(b, off + 20)
}

/// `h` holds the optional header fields of `b`, for a COFF header at `off`.
pub open spec fn opt_header_spec(b: Seq<u8>, off: int, h: OptionalHeader) -> bool {
    &&& h.magic@ == b.subrange(off + 24, off + 26)
    &&& h.major_linker_version@ == b.subrange(off + 26, off + 27)
    &&& h.minor_linker_version@ == b.subrange(off + 27, off + 28)
    &&& h.initialized_data_size@ == b.subrange(off + 32, off + 36)
    &&& h.uninitialized_data_size@ == b.subrange(off + 36, off + 40)
    &&& h.base_of_code@ == b.subrange(off + 44, off + 48)
    &&& h.base_of_data@ == b.subrange(off + 48, off + 52)
    &&& h.image_base@ == b.subrange(off + 52, off + 56)
    &&& h.section_alignment@ == b.subrange(off + 56, off + 60)
    &&& h.file_alignment@ == b.subrange(off + 60, off + 64)
    &&& h.major_os_version@ == b.subrange(off + 64, off + 66)
    &&& h.minor_os_version@ == b.subrange(off + 66, off + 68)
    &&& h.major_image_version@ == b.subrange(off + 68, off + 70)
    &&& h.minor_image_version@ == b.subrange(off + 70, off + 72)
    &&& h.major_subsystem_version@ == b.subrange(off + 72, off + 74)
    &&& h.minor_subsystem_version@ == b.subrange(off + 74, off + 76)
    &&& h.win32_version_value@ == b.subrange(off + 76, off + 80)
    &&& h.image_size@ == b.subrange(off + 80, off + 84)
    &&& h.headers_size@ == b.subrange(off + 84, off + 88)
    &&& h.checksum@ == b.subrange(off + 88, off + 92)
    &&& h.subsystem@ == b.subrange(off + 92, off + 94)
    &&& h.dll_characteristics@ == b.subrange(off + 94, off + 96)
    &&& h.stack_reserve_size@ == b.subrange(off + 96, off + 100)
    &&& h.stack_commit_size@ == b.subrange(off + 100, off + 104)
    &&& h.heap_reserve_size@ == b.subrange(off + 104, off + 108)
    &&& h.heap_commit_size@ == b.subrange(off + 108, off + 112)
    &&& h.loader_flags@ == b.subrange(off + 112, off + 116)
    &&& h.number_of_rva_and_sizes@ == b.subrange(off + 116, off + 120)
    &&& h.code_size == le32(b, off + 28)
    &&& h.entry_point_address == le32(b, off + 40)
    &&& h.data_directory.virtual_address@ == b.subrange(off + 120, off + 124)
    &&& h.data_directory.size@ == b.subrange(off + 124, off + 128)
}

/// Reads the DOS header. A buffer shorter than the header cannot be an
/// image: `IrrecoverableInput`.
pub fn extract_dos_header(bytes: &[u8]) -> (r: Result<DOSHeader<'_>, DecodeError>)
    ensures
        r is Err <==> bytes@.len() < DOS_HEADER_LEN,
        r is Err ==> r == Err::<DOSHeader<'_>, DecodeError>(DecodeError::IrrecoverableInput),
        r matches Ok(h) ==> dos_header_spec(bytes@, h),
{
    if bytes.len() < DOS_HEADER_LEN {
        return Err(DecodeError::IrrecoverableInput);
    }
    let pe_offset = read_u32(bytes, 60) as usize;
    Ok(DOSHeader {
        magic: slice_of(bytes, 0, 2),
        extra_bytes: slice_of(bytes, 2, 4),
        pages: slice_of(bytes, 4, 6),
        entries_relocation_table: slice_of(bytes, 6, 8),
        header_size: slice_of(bytes, 8, 10),
        min_alloc: slice_of(bytes, 10, 12),
        max_alloc: slice_of(bytes, 12, 14),
        initial_ss: slice_of(bytes, 14, 16),
        initial_sp: slice_of(bytes, 16, 18),
        checksum: slice_of(bytes, 18, 20),
        initial_ip: slice_of(bytes, 20, 22),
        initial_cs: slice_of(bytes, 22, 24),
        reloc_table_address: slice_of(bytes, 24, 26),
        overlay: slice_of(bytes, 26, 28),
        pe_offset,
    })
}

/// The DOS stub: the bytes from the end of the DOS header to the COFF header.
/// `MalformedHeader` when the COFF header's offset lies inside the DOS header
/// or past the end of the buffer.
pub fn extract_dos_stub(bytes: &[u8], pe_offset: usize) -> (r: Result<&[u8], DecodeError>)
    ensures
        r is Ok <==> DOS_HEADER_LEN <= pe_offset <= bytes@.len(),
        r is Err ==> r == Err::<&[u8], DecodeError>(DecodeError::MalformedHeader),
        r matches Ok(s) ==> s@ == bytes@.subrange(DOS_HEADER_LEN as int, pe_offset as int),
{
    if pe_offset < DOS_HEADER_LEN || pe_offset > bytes.len() {
        return Err(DecodeError::MalformedHeader);
    }
    Ok(slice_of(bytes, DOS_HEADER_LEN, pe_offset))
}

/// Reads the COFF header at `pe_offset`; `MalformedHeader` when it does not
/// fit in the buffer.
pub fn extract_coff_header(bytes: &[u8], pe_offset: usize) -> (r: Result<COFFHeader<'_>, DecodeError>)
    ensures
        r is Ok <==> pe_offset + COFF_HEADER_LEN <= bytes@.len(),
        r is Err ==> r == Err::<COFFHeader<'_>, DecodeError>(DecodeError::MalformedHeader),
        r matches Ok(h) ==> coff_header_spec(bytes@, pe_offset as int, h),
{
    if pe_offset > bytes.len() || bytes.len() - pe_offset < COFF_HEADER_LEN {
        return Err(DecodeError::MalformedHeader);
    }
    let symbol_table_pointer = read_u32(bytes, pe_offset + 12) as usize;
    let symbol_count = read_u32(bytes, pe_offset + 16) as usize;
    let optional_header_size = read_u16(bytes, pe_offset + 20) as usize;
    Ok(COFFHeader {
        magic: slice_of(bytes, pe_offset + 0, pe_offset + 4),
        machine: slice_of(bytes, pe_offset + 4, pe_offset + 6),
        section_count: read_u16(bytes, pe_offset + 6) as usize,
        timestamp: slice_of(bytes, pe_offset + 8, pe_offset + 12),
        symbol_table_pointer,
        symbol_count,
        optional_header_size,
        characteristics: slice_of(bytes, pe_offset + 22, pe_offset + 24),
    })
}

/// Reads the optional header of the COFF header at `pe_offset`, up to its
/// first data directory entry; `MalformedHeader` when that does not fit in
/// the buffer.
pub fn extract_opt_header(bytes: &[u8], pe_offset: usize) -> (r: Result<OptionalHeader<'_>, DecodeError>)
    ensures
        r is Ok <==> pe_offset + OPT_HEADER_END <= bytes@.len(),
        r is Err ==> r == Err::<OptionalHeader<'_>, DecodeError>(DecodeError::MalformedHeader),
        r matches Ok(h) ==> opt_header_spec(bytes@, pe_offset as int, h),
{
    if pe_offset > bytes.len() || bytes.len() - pe_offset < OPT_HEADER_END {
        return Err(DecodeError::MalformedHeader);
    }
    let code_size = read_u32(bytes, pe_offset + 28) as usize;
    let entry_point_address = read_u32(bytes, pe_offset + 40) as usize;
    Ok(OptionalHeader {
        magic: slice_of(bytes, pe_offset + 24, pe_offset + 26),
        major_linker_version: slice_of(bytes, pe_offset + 26, pe_offset + 27),
        minor_linker_version: slice_of(bytes, pe_offset + 27, pe_offset + 28),
        code_size,
        initialized_data_size: slice_of(bytes, pe_offset + 32, pe_offset + 36),
        uninitialized_data_size: slice_of(bytes, pe_offset + 36, pe_offset + 40),
        entry_point_address,
        base_of_code: slice_of(bytes, pe_offset + 44, pe_offset + 48),
        base_of_data: slice_of(bytes, pe_offset + 48, pe_offset + 52),
        image_base: slice_of(bytes, pe_offset + 52, pe_offset + 56),
        section_alignment: slice_of(bytes, pe_offset + 56, pe_offset + 60),
        file_alignment: slice_of(bytes, pe_offset + 60, pe_offset + 64),
        major_os_version: slice_of(bytes, pe_offset + 64, pe_offset + 66),
        minor_os_version: slice_of(bytes, pe_offset + 66, pe_offset + 68),
        major_image_version: slice_of(bytes, pe_offset + 68, pe_offset + 70),
        minor_image_version: slice_of(bytes, pe_offset + 70, pe_offset + 72),
        major_subsystem_version: slice_of(bytes, pe_offset + 72, pe_offset + 74),
        minor_subsystem_version: slice_of(bytes, pe_offset + 74, pe_offset + 76),
        win32_version_value: slice_of(bytes, pe_offset + 76, pe_offset + 80),
        image_size: slice_of(bytes, pe_offset + 80, pe_offset + 84),
        headers_size: slice_of(bytes, pe_offset + 84, pe_offset + 88),
        checksum: slice_of(bytes, pe_offset + 88, pe_offset + 92),
        subsystem: slice_of(bytes, pe_offset + 92, pe_offset + 94),
        dll_characteristics: slice_of(bytes, pe_offset + 94, pe_offset + 96),
        stack_reserve_size: slice_of(bytes, pe_offset + 96, pe_offset + 100),
        stack_commit_size: slice_of(bytes, pe_offset + 100, pe_offset + 104),
        heap_reserve_size: slice_of(bytes, pe_offset + 104, pe_offset + 108),
        heap_commit_size: slice_of(bytes, pe_offset + 108, pe_offset + 112),
        loader_flags: slice_of(bytes, pe_offset + 112, pe_offset + 116),
        number_of_rva_and_sizes: slice_of(bytes, pe_offset + 116, pe_offset + 120),
        data_directory: DataDirectoryEntry {
            virtual_address: slice_of(bytes, pe_offset + 120, pe_offset + 124),
            size: slice_of(bytes, pe_offset + 124, pe_offset + 128),
        },
    })
}

} // verus!
