//! The records of a PE/COFF image. Byte-string fields borrow from the buffer
//! that was decoded; numeric fields hold the decoded little-endian values.
use vstd::prelude::*;

verus! {

/// The legacy MZ header at the start of the image.
#[derive(Debug)]
pub struct DOSHeader<'a> {
    pub magic: &'a [u8],
    pub extra_bytes: &'a [u8],
    pub pages: &'a [u8],
    pub entries_relocation_table: &'a [u8],
    pub header_size: &'a [u8],
    pub min_alloc: &'a [u8],
    pub max_alloc: &'a [u8],
    pub initial_ss: &'a [u8],
    pub initial_sp: &'a [u8],
    pub checksum: &'a [u8],
    pub initial_ip: &'a [u8],
    pub initial_cs: &'a [u8],
    pub reloc_table_address: &'a [u8],
    pub overlay: &'a [u8],
    /// Offset of the COFF header, read at byte 60.
    pub pe_offset: usize,
}

/// The COFF file header that follows the `PE\0\0` magic.
#[derive(Debug, Clone, Copy)]
pub struct COFFHeader<'a> {
    pub magic: &'a [u8],
    pub machine: &'a [u8],
    pub section_count: usize,
    pub timestamp: &'a [u8],
    pub symbol_table_pointer: usize,
    pub symbol_count: usize,
    pub optional_header_size: usize,
    pub characteristics: &'a [u8],
}

/// One address/size pair of the data directory.
#[derive(Debug)]
pub struct DataDirectoryEntry<'a> {
    pub virtual_address: &'a [u8],
    pub size: &'a [u8],
}

/// The full data directory of an optional header.
#[derive(Debug)]
pub struct DataDirectory<'a> {
    pub export_table: DataDirectoryEntry<'a>,
    pub import_table: DataDirectoryEntry<'a>,
    pub resource_table: DataDirectoryEntry<'a>,
    pub exception_table: DataDirectoryEntry<'a>,
    pub certificate_table: DataDirectoryEntry<'a>,
    pub base_relocation_table: DataDirectoryEntry<'a>,
    pub debug: DataDirectoryEntry<'a>,
    pub architecture: DataDirectoryEntry<'a>,
    pub global_ptr: DataDirectoryEntry<'a>,
    pub tls_table: DataDirectoryEntry<'a>,
    pub load_config_table: DataDirectoryEntry<'a>,
    pub bound_import: DataDirectoryEntry<'a>,
    pub iat: DataDirectoryEntry<'a>,
    pub delay_import_descriptor: DataDirectoryEntry<'a>,
    pub clr_runtime_header: DataDirectoryEntry<'a>,
    pub reserved: DataDirectoryEntry<'a>,
}

/// The optional header that follows the COFF header.
#[derive(Debug)]
pub struct OptionalHeader<'a> {
    pub magic: &'a [u8],
    pub major_linker_version: &'a [u8],
    pub minor_linker_version: &'a [u8],
    pub code_size: usize,
    pub initialized_data_size: &'a [u8],
    pub uninitialized_data_size: &'a [u8],
    pub entry_point_address: usize,
    pub base_of_code: &'a [u8],
    pub base_of_data: &'a [u8],
    pub image_base: &'a [u8],
    pub section_alignment: &'a [u8],
    pub file_alignment: &'a [u8],
    pub major_os_version: &'a [u8],
    pub minor_os_version: &'a [u8],
    pub major_image_version: &'a [u8],
    pub minor_image_version: &'a [u8],
    pub major_subsystem_version: &'a [u8],
    pub minor_subsystem_version: &'a [u8],
    pub win32_version_value: &'a [u8],
    pub image_size: &'a [u8],
    pub headers_size: &'a [u8],
    pub checksum: &'a [u8],
    pub subsystem: &'a [u8],
    pub dll_characteristics: &'a [u8],
    pub stack_reserve_size: &'a [u8],
    pub stack_commit_size: &'a [u8],
    pub heap_reserve_size: &'a [u8],
    pub heap_commit_size: &'a [u8],
    pub loader_flags: &'a [u8],
    pub number_of_rva_and_sizes: &'a [u8],
    pub data_directory: DataDirectoryEntry<'a>,
}

/// The three headers of a PE image.
#[derive(Debug)]
pub struct PEFile<'a> {
    pub mz_header: DOSHeader<'a>,
    pub pe_header: COFFHeader<'a>,
    pub optional_header: OptionalHeader<'a>,
}

/// One 18-byte record of the COFF symbol table.
#[derive(Debug)]
pub struct Symbol<'a> {
    /// The inline name, without its trailing NUL padding.
    pub name: Vec<u8>,
    pub value: &'a [u8],
    pub section_number: &'a [u8],
    pub data_type: &'a [u8],
    pub storage_class: &'a [u8],
    pub number_aux_symbols: &'a [u8],
}

/// The symbol records in file order.
#[derive(Debug)]
pub struct SymbolTable<'a> {
    pub symbols: Vec<Symbol<'a>>,
}

/// The section descriptors in file order.
#[derive(Debug)]
pub struct SectionTable<'a> {
    pub sections: Vec<Section<'a>>,
    /// Indices, increasing, of the sections whose raw data lies outside the
    /// buffer; their `raw_data` is empty.
    pub malformed: Vec<usize>,
}

/// The COFF string table.
#[derive(Debug)]
pub struct StringTable {
    /// Total length in bytes, the 4-byte length prefix included.
    pub length: usize,
    /// The payload after the prefix, split on NUL bytes.
    pub strings: Vec<Vec<u8>>,
}

/// One 40-byte section descriptor together with the section's raw bytes.
#[derive(Debug)]
pub struct Section<'a> {
    /// The name, without trailing NUL padding; `/<n>` until resolved.
    pub name: Vec<u8>,
    pub virtual_size: u32,
    pub virtual_address: u32,
    pub raw_data_size: usize,
    pub ptr_to_raw_data: usize,
    pub ptr_to_relocations: usize,
    pub ptr_to_linenumbers: usize,
    pub number_of_relocations: u16,
    pub number_of_linenumbers: u16,
    pub characteristics: u32,
    pub raw_data: &'a [u8],
}

/// A string table read as length-prefixed records.
#[derive(Debug)]
pub struct COFFStringTable<'a> {
    pub strings: Vec<COFFString<'a>>,
}

/// One length-prefixed string record.
#[derive(Debug)]
pub struct COFFString<'a> {
    pub length: usize,
    pub structure_length: usize,
    pub data_type: &'a [u8],
    pub string: Vec<u8>,
}

/// The 16-byte header of a resource directory.
#[derive(Debug)]
pub struct RessourceDir<'a> {
    pub characteristics: &'a [u8],
    pub time_date_stamp: &'a [u8],
    pub major_version: &'a [u8],
    pub minor_version: &'a [u8],
    pub name_entries_number: usize,
    pub id_entries_number: usize,
}

/// One 8-byte entry of a resource directory.
#[derive(Debug)]
pub struct RessourceDirEntries {
    pub name_offset: usize,
    /// Bit 31 set: offset of a subdirectory; clear: offset of a data entry.
    pub data_entry_offset: usize,
}

/// A length-prefixed UTF-16 name of the resource directory.
#[derive(Debug)]
pub struct RessourceDirString<'a> {
    pub length: usize,
    pub unicode_string: &'a [u8],
}

/// A 16-byte leaf of the resource directory tree.
#[derive(Debug)]
pub struct RessourceDataEntry<'a> {
    pub data_rva: usize,
    pub size: usize,
    pub codepage: &'a [u8],
    pub reserved: &'a [u8],
}

/// Where one resource lies in the file.
#[derive(Debug)]
pub struct RessourceAdress {
    /// Absolute file offset.
    pub address: usize,
    pub size: usize,
    pub codepage: &'static str,
}

/// What a walk of the resource directory tree collected.
#[derive(Debug)]
pub struct RessourceAdresses {
    /// The leaves, in walk order.
    pub adresses: Vec<RessourceAdress>,
    /// Offsets, relative to the section, of the directories and data entries
    /// that could not be read, in walk order.
    pub faults: Vec<usize>,
}

/// One 20-byte record of the import directory.
#[derive(Debug, Clone, Copy, PartialEq, Eq, Structural)]
pub struct ImportDescriptor {
    pub original_first_thunk: usize,
    pub time_date_stamp: usize,
    pub forwarder_chain: usize,
    pub name_rva: usize,
    pub first_thunk: usize,
}

/// The raw code of a `.text` section.
#[derive(Debug)]
pub struct TextData<'a> {
    pub extracted_code: &'a [u8],
}

/// The bytes of one resource.
#[derive(Debug)]
pub struct RsrcData<'a> {
    pub extracted_raw: &'a [u8],
    pub codepage: &'static str,
}

/// The resources of a `.rsrc` section.
#[derive(Debug)]
pub struct RsrcDataList<'a> {
    pub data: Vec<RsrcData<'a>>,
    /// Offsets of the directory parts that could not be read: see
    /// `RessourceAdresses::faults`.
    pub faults: Vec<usize>,
    /// Indices into `data`, increasing, of the resources whose bytes lie
    /// outside the buffer; their `extracted_raw` is empty.
    pub out_of_bounds: Vec<usize>,
}

/// The DLL names of an `.idata` section.
#[derive(Debug)]
pub struct ImportData {
    pub dll_names: Vec<String>,
    /// Whether the descriptor list ran off the section before its
    /// all-zero terminator, or a name pointed outside the buffer.
    pub malformed: bool,
}

/// A section that is not classified further.
#[derive(Debug)]
pub struct UnknownSection<'a> {
    pub section_name: Vec<u8>,
    pub extracted_raw: &'a [u8],
}

/// The unclassified sections, in file order.
#[derive(Debug)]
pub struct UnknownSections<'a> {
    pub sections: Vec<UnknownSection<'a>>,
}

/// What one section holds, by the kind that its name gives.
#[derive(Debug)]
pub enum SectionData<'a> {
    Text(TextData<'a>),
    Rsrc(RsrcDataList<'a>),
    IData(ImportData),
    Unknown(UnknownSection<'a>),
}

/// The classified content of each section, in section order.
#[derive(Debug)]
pub struct SectionsData<'a> {
    pub sections: Vec<SectionData<'a>>,
}

} // verus!
