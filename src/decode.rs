//! The decoding of a whole buffer, by the format that its signature gives.
use vstd::prelude::*;
use crate::bytes::le32;
use crate::elf_structure::{extract_elf_header, elf_ident_spec, elf32_header_spec, elf64_header_spec, elf_header_end, is_elf32, FileInfoELF};
use crate::error::DecodeError;
use crate::headers::{
    coff_header_spec, dos_header_spec, extract_coff_header, extract_dos_header, extract_dos_stub,
    extract_opt_header, opt_header_spec, COFF_HEADER_LEN, DOS_HEADER_LEN, OPT_HEADER_END,
};
use crate::macho_structure::{extract_macho_header, macho_header_spec, MachOHeader, MACHO_HEADER_LEN};
use crate::names::{replace_section_names, resolved_name, section_names, unresolved_indices};
use crate::pe_structure::{
    COFFHeader, DOSHeader, OptionalHeader, SectionTable, SectionsData, StringTable, SymbolTable,
};
use crate::sections::{classified, extract_section_datas};
use crate::signature::FileFormat;
use crate::tables::{
    extract_section_table, extract_string_table, extract_symbol_table, join_nul, outside_indices,
    raw_name, section_fields_spec, section_table_offset, sections_fit, string_table_fits,
    string_table_offset, string_table_spec, symbol_spec, symbols_fit, views, SECTION_LEN, SYMBOL_LEN,
};

verus! {

/// Everything decoded from a PE image. Each stage after the COFF header
/// carries its own outcome, so that a malformed part does not hide the others.
#[derive(Debug)]
pub struct PeDecode<'a> {
    pub dos_header: DOSHeader<'a>,
    pub dos_stub: Result<&'a [u8], DecodeError>,
    pub coff_header: COFFHeader<'a>,
    pub optional_header: Result<OptionalHeader<'a>, DecodeError>,
    pub symbol_table: Result<SymbolTable<'a>, DecodeError>,
    pub string_table: Result<StringTable, DecodeError>,
    /// The sections, with their indirect names resolved where the string
    /// table could be read.
    pub section_table: Result<SectionTable<'a>, DecodeError>,
    /// Indices of the sections whose indirect name could not be resolved.
    pub unresolved_names: Vec<usize>,
    /// The classified content of each section, when the section table could
    /// be read.
    pub sections_data: Option<SectionsData<'a>>,
}

/// What a buffer decodes to, by its format.
#[derive(Debug)]
pub enum FileInfo<'a> {
    Pe(PeDecode<'a>),
    Elf(FileInfoELF<'a>),
    MachO(MachOHeader),
    /// A Java class file or Mach-O fat binary: only the tag is known.
    JavaClassOrFat,
}

/// The payload of the string table, when it was read.
pub open spec fn payload_of(t: Result<StringTable, DecodeError>) -> Option<Seq<u8>> {
    match t {
        Ok(tab) => Some(join_nul(views(tab.strings@))),
        Err(_) => None,
    }
}

/// The name of the `i`-th section of `b` after resolution against `p`.
pub open spec fn final_name(b: Seq<u8>, t: int, i: int, p: Option<Seq<u8>>) -> Seq<u8> {
    match p {
        Some(p) => resolved_name(raw_name(b, t + SECTION_LEN * i), p),
        None => raw_name(b, t + SECTION_LEN * i),
    }
}

/// The raw names of the first `k` descriptors at `t` of `b`.
pub open spec fn raw_names(b: Seq<u8>, t: int, k: int) -> Seq<Seq<u8>> {
    Seq::new(k as nat, |i: int| raw_name(b, t + SECTION_LEN * i))
}

/// `d` is the decoding of the PE image `b`, whose COFF header lies at
/// `pe_offset` and fits in `b`.
pub open spec fn pe_decode_spec(b: Seq<u8>, d: PeDecode) -> bool {
    let off = d.dos_header.pe_offset as int;
    let h = d.coff_header;
    let t = section_table_offset(off, h);
    let p = payload_of(d.string_table);
    &&& dos_header_spec(b, d.dos_header)
    &&& coff_header_spec(b, off, h)
    &&& (d.dos_stub is Ok <==> DOS_HEADER_LEN <= off <= b.len())
    &&& (d.dos_stub matches Ok(s) ==> s@ == b.subrange(DOS_HEADER_LEN as int, off))
    &&& (d.optional_header is Ok <==> off + OPT_HEADER_END <= b.len())
    &&& (d.optional_header matches Ok(o) ==> opt_header_spec(b, off, o))
    &&& (d.symbol_table is Ok <==> symbols_fit(h, b.len() as int))
    &&& (d.symbol_table matches Ok(st) ==> {
        &&& st.symbols@.len() == h.symbol_count
        &&& forall|i: int|
            0 <= i < st.symbols@.len() ==> symbol_spec(
                b,
                h.symbol_table_pointer + SYMBOL_LEN * i,
                #[trigger] st.symbols@[i],
            )
    })
    &&& (d.string_table is Ok <==> symbols_fit(h, b.len() as int) && string_table_fits(
        b,
        string_table_offset(h),
    ))
    &&& (d.string_table matches Ok(tab) ==> string_table_spec(b, string_table_offset(h), tab))
    &&& (d.section_table is Ok <==> sections_fit(off, h, b.len() as int))
    &&& sections_part_spec(b, off, h, p, d.section_table, d.unresolved_names@, d.sections_data)
}

/// The section table `st` of `b`, for the headers `off` and `h`, has its
/// names resolved against `p`, the sections whose names did not resolve are
/// `unresolved`, and `data` holds the content of each section.
pub open spec fn sections_part_spec(
    b: Seq<u8>,
    off: int,
    h: COFFHeader,
    p: Option<Seq<u8>>,
    section_table: Result<SectionTable, DecodeError>,
    unresolved: Seq<usize>,
    data: Option<SectionsData>,
) -> bool {
    let t = section_table_offset(off, h);
    &&& (section_table matches Ok(st) ==> {
        &&& st.sections@.len() == h.section_count
        &&& forall|i: int|
            0 <= i < st.sections@.len() ==> section_fields_spec(
                b,
                t + SECTION_LEN * i,
                #[trigger] st.sections@[i],
            ) && st.sections@[i].name@ == final_name(b, t, i, p)
        &&& st.malformed@ == outside_indices(b, t, h.section_count as int)
    })
    &&& (section_table is Ok && p is Some ==> unresolved == unresolved_indices(
        raw_names(b, t, h.section_count as int),
        p->Some_0,
        h.section_count as int,
    ))
    &&& (section_table is Err || p is None ==> unresolved.len() == 0)
    &&& (data is Some <==> section_table is Ok)
    &&& (section_table matches Ok(st) ==> data matches Some(sd) && {
        &&& sd.sections@.len() == st.sections@.len()
        &&& forall|i: int|
            0 <= i < sd.sections@.len() ==> classified(
                b,
                #[trigger] st.sections@[i],
                sd.sections@[i],
            )
    })
}

/// Resolves the names of a section table that was read and classifies its
/// sections.
fn resolve_and_classify<'a>(
    bytes: &'a [u8],
    pe_offset: usize,
    coff_header: COFFHeader<'a>,
    string_table: &Result<StringTable, DecodeError>,
    section_table: Result<SectionTable<'a>, DecodeError>,
) -> (r: (Result<SectionTable<'a>, DecodeError>, Vec<usize>, Option<SectionsData<'a>>))
    requires
        section_table matches Ok(st) ==> crate::tables::section_table_spec(
            bytes@,
            pe_offset as int,
            coff_header,
            st,
        ),
    ensures
        r.0 is Ok == section_table is Ok,
        sections_part_spec(
            bytes@,
            pe_offset as int,
            coff_header,
            payload_of(*string_table),
            r.0,
            r.1@,
            r.2,
        ),
{
    let ghost t = section_table_offset(pe_offset as int, coff_header);
    let ghost p = payload_of(*string_table);
    match section_table {
        Ok(st) => {
            let mut st = st;
            let ghost before = st;
            let mut unresolved: Vec<usize> = Vec::new();
            proof {
                assert(section_names(before.sections@) =~= raw_names(
                    bytes@,
                    t,
                    coff_header.section_count as int,
                ));
            }
            match string_table {
                Ok(tab) => {
                    unresolved = replace_section_names(tab, &mut st);
                    assert forall|i: int| 0 <= i < st.sections@.len() implies section_fields_spec(
                        bytes@,
                        t + SECTION_LEN * i,
                        #[trigger] st.sections@[i],
                    ) && st.sections@[i].name@ == final_name(bytes@, t, i, p) by {
                        assert(crate::names::renamed(
                            before.sections@[i],
                            st.sections@[i],
                            join_nul(views(tab.strings@)),
                        ));
                        assert(crate::tables::section_spec(
                            bytes@,
                            t + SECTION_LEN * i,
                            before.sections@[i],
                        ));
                    }
                },
                Err(_) => {
                    assert forall|i: int| 0 <= i < st.sections@.len() implies section_fields_spec(
                        bytes@,
                        t + SECTION_LEN * i,
                        #[trigger] st.sections@[i],
                    ) && st.sections@[i].name@ == final_name(bytes@, t, i, p) by {
                        assert(crate::tables::section_spec(
                            bytes@,
                            t + SECTION_LEN * i,
                            before.sections@[i],
                        ));
                    }
                },
            }
            let data = extract_section_datas(bytes, &st);
            (Ok(st), unresolved, Some(data))
        },
        Err(e) => (Err(e), Vec::new(), None),
    }
}

/// Decodes a PE image. A buffer shorter than the DOS header is
/// `IrrecoverableInput`; a COFF header that does not fit is `MalformedHeader`.
/// Past those, each stage is read on its own and carries its own outcome.
pub fn decode_pe(bytes: &[u8]) -> (r: Result<PeDecode<'_>, DecodeError>)
    ensures
        bytes@.len() < DOS_HEADER_LEN ==> r == Err::<PeDecode<'_>, DecodeError>(
            DecodeError::IrrecoverableInput,
        ),
        bytes@.len() >= DOS_HEADER_LEN && le32(bytes@, 60) + COFF_HEADER_LEN > bytes@.len()
            ==> r == Err::<PeDecode<'_>, DecodeError>(DecodeError::MalformedHeader),
        bytes@.len() >= DOS_HEADER_LEN && le32(bytes@, 60) + COFF_HEADER_LEN <= bytes@.len()
            ==> r is Ok,
        r matches Ok(d) ==> pe_decode_spec(bytes@, d),
{
    let dos_header = match extract_dos_header(bytes) {
        Ok(h) => h,
        Err(e) => {
            return Err(e);
        },
    };
    let pe_offset = dos_header.pe_offset;
    let coff_header = match extract_coff_header(bytes, pe_offset) {
        Ok(h) => h,
        Err(e) => {
            return Err(e);
        },
    };
    let dos_stub = extract_dos_stub(bytes, pe_offset);
    let optional_header = extract_opt_header(bytes, pe_offset);
    let symbol_table = extract_symbol_table(bytes, pe_offset, coff_header);
    let string_table = extract_string_table(bytes, coff_header);
    let section_table = extract_section_table(bytes, pe_offset, coff_header);
    let (section_table, unresolved_names, sections_data) = resolve_and_classify(
        bytes,
        pe_offset,
        coff_header,
        &string_table,
        section_table,
    );
    Ok(PeDecode {
        dos_header,
        dos_stub,
        coff_header,
        optional_header,
        symbol_table,
        string_table,
        section_table,
        unresolved_names,
        sections_data,
    })
}

/// Decodes a buffer by the format that its signature gives: a PE image in
/// full (see `decode_pe`), the fixed header of an ELF or Mach-O file, and
/// nothing more than the tag of a Java class file or fat binary. An unknown
/// format is `UnsupportedFormat`.
pub fn get_file_data(file_signature: FileFormat, bytes: &[u8]) -> (r: Result<FileInfo<'_>, DecodeError>)
    ensures
        file_signature == FileFormat::Unknown ==> r == Err::<FileInfo<'_>, DecodeError>(
            DecodeError::UnsupportedFormat,
        ),
        file_signature == FileFormat::DosMz ==> {
            &&& bytes@.len() < DOS_HEADER_LEN ==> r == Err::<FileInfo<'_>, DecodeError>(
                DecodeError::IrrecoverableInput,
            )
            &&& bytes@.len() >= DOS_HEADER_LEN && le32(bytes@, 60) + COFF_HEADER_LEN > bytes@.len()
                ==> r == Err::<FileInfo<'_>, DecodeError>(DecodeError::MalformedHeader)
            &&& bytes@.len() >= DOS_HEADER_LEN && le32(bytes@, 60) + COFF_HEADER_LEN
                <= bytes@.len() ==> (r matches Ok(FileInfo::Pe(d)) && pe_decode_spec(bytes@, d))
        },
        file_signature == FileFormat::Elf ==> {
            &&& (r is Ok <==> bytes@.len() >= 16 && elf_header_end(bytes@) <= bytes@.len())
            &&& r is Err ==> r == Err::<FileInfo<'_>, DecodeError>(DecodeError::MalformedHeader)
            &&& r is Ok ==> (r matches Ok(FileInfo::Elf(f)) && elf_ident_spec(bytes@, f.identification)
                && (is_elf32(bytes@) ==> elf32_header_spec(bytes@, f.header)) && (!is_elf32(bytes@)
                ==> elf64_header_spec(bytes@, f.header)))
        },
        file_signature == FileFormat::MachO32 || file_signature == FileFormat::MachO64
            || file_signature == FileFormat::MachO32Reversed || file_signature
            == FileFormat::MachO64Reversed ==> {
            &&& (r is Ok <==> bytes@.len() >= MACHO_HEADER_LEN)
            &&& r is Err ==> r == Err::<FileInfo<'_>, DecodeError>(DecodeError::MalformedHeader)
            &&& r is Ok ==> (r matches Ok(FileInfo::MachO(h)) && macho_header_spec(
                bytes@,
                h,
                file_signature == FileFormat::MachO32Reversed || file_signature
                    == FileFormat::MachO64Reversed,
            ))
        },
        file_signature == FileFormat::JavaClassOrFat ==> r matches Ok(FileInfo::JavaClassOrFat),
{
    match file_signature {
        FileFormat::DosMz => match decode_pe(bytes) {
            Ok(d) => Ok(FileInfo::Pe(d)),
            Err(e) => Err(e),
        },
        FileFormat::Elf => match extract_elf_header(bytes) {
            Ok(f) => Ok(FileInfo::Elf(f)),
            Err(e) => Err(e),
        },
        FileFormat::MachO32 | FileFormat::MachO64 => match extract_macho_header(bytes, false) {
            Ok(h) => Ok(FileInfo::MachO(h)),
            Err(e) => Err(e),
        },
        FileFormat::MachO32Reversed | FileFormat::MachO64Reversed => match extract_macho_header(
            bytes,
            true,
        ) {
            Ok(h) => Ok(FileInfo::MachO(h)),
            Err(e) => Err(e),
        },
        FileFormat::JavaClassOrFat => Ok(FileInfo::JavaClassOrFat),
        FileFormat::Unknown => Err(DecodeError::UnsupportedFormat),
    }
}

} // verus!
