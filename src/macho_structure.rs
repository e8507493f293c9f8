//! The header of a Mach-O file, read at fixed offsets, and the records of its
//! load commands.
use vstd::prelude::*;
use crate::bytes::{reverse_bytes, reversed, slice_of};
use crate::error::DecodeError;

verus! {

/// Length of the Mach-O header fields that are read.
pub const MACHO_HEADER_LEN: usize = 28;

/// The Mach-O header, each field in the byte order of the host that reads it:
/// as stored, or reversed for a file of the other byte order.
#[derive(Debug)]
pub struct MachOHeader {
    pub magic: Vec<u8>,
    pub cputype: Vec<u8>,
    pub cpusubtype: Vec<u8>,
    pub ftype: Vec<u8>,
    pub lcnum: Vec<u8>,
    pub lcsize: Vec<u8>,
    pub flags: Vec<u8>,
}

/// The two fields that open every load command.
#[derive(Debug)]
pub struct LoadCommand<'a> {
    pub cmd: &'a [u8],
    pub cmdsize: &'a [u8],
}

/// A segment load command.
#[derive(Debug)]
pub struct SegmentCommand<'a> {
    pub load_cmd: LoadCommand<'a>,
    pub segname: &'a [u8],
    pub vmaddr: &'a [u8],
    pub vmsize: &'a [u8],
    pub fileoff: &'a [u8],
    pub filesize: &'a [u8],
    pub maxprot: &'a [u8],
    pub initprot: &'a [u8],
    pub nsects: &'a [u8],
    pub flags: &'a [u8],
}

/// A section record of a segment.
#[derive(Debug)]
pub struct SectionCommand<'a> {
    pub sectname: &'a [u8],
    pub segname: &'a [u8],
    pub addr: &'a [u8],
    pub size: &'a [u8],
    pub offset: &'a [u8],
    pub align: &'a [u8],
    pub reloff: &'a [u8],
    pub nreloc: &'a [u8],
    pub flags: &'a [u8],
    pub reserved: &'a [u8],
}

/// A dynamic library load command.
#[derive(Debug)]
pub struct DylibCommand<'a> {
    pub load_cmd: LoadCommand<'a>,
    pub name_offset: &'a [u8],
    pub timestamp: &'a [u8],
    pub current_version: &'a [u8],
    pub compatibility_version: &'a [u8],
}

/// The symbol table load command.
#[derive(Debug)]
pub struct SymtabCommand<'a> {
    pub load_cmd: LoadCommand<'a>,
    pub symoff: &'a [u8],
    pub nsyms: &'a [u8],
    pub stroff: &'a [u8],
    pub strsize: &'a [u8],
}

/// The symbol segment load command.
#[derive(Debug)]
pub struct SymsegCommand<'a> {
    pub load_cmd: LoadCommand<'a>,
    pub offset: &'a [u8],
    pub size: &'a [u8],
}

/// The entry point load command.
#[derive(Debug)]
pub struct EntryPointCommand<'a> {
    pub load_cmd: LoadCommand<'a>,
    pub entryoff: &'a [u8],
    pub stacksize: &'a [u8],
}

/// The initialisation routine load command.
#[derive(Debug)]
pub struct RoutineCommand<'a> {
    pub load_cmd: LoadCommand<'a>,
    pub init_address: &'a [u8],
    pub init_module: &'a [u8],
    pub reserved_bytes: &'a [u8],
}

/// The dynamic symbol table load command.
#[derive(Debug)]
pub struct DysymtabCommand<'a> {
    pub load_cmd: LoadCommand<'a>,
    pub ilocalsym: &'a [u8],
    pub nlocalsym: &'a [u8],
    pub iextdefsym: &'a [u8],
    pub nextdefsim: &'a [u8],
    pub iundefsym: &'a [u8],
    pub nundefsym: &'a [u8],
    pub tocoff: &'a [u8],
    pub ntoc: &'a [u8],
    pub modtaboff: &'a [u8],
    pub nmodtab: &'a [u8],
    pub extrefsymoff: &'a [u8],
    pub nextrefsyms: &'a [u8],
    pub indirectsymoff: &'a [u8],
    pub nindirectsyms: &'a [u8],
    pub extreloff: &'a [u8],
    pub nextre1: &'a [u8],
    pub locreloff: &'a [u8],
    pub nlocre1: &'a [u8],
}

/// The prebind checksum load command.
#[derive(Debug)]
pub struct PrebindChecksumCommand<'a> {
    pub load_cmd: LoadCommand<'a>,
    pub cksum: &'a [u8],
}

/// The UUID load command.
#[derive(Debug)]
pub struct UUIDCommand<'a> {
    pub load_cmd: LoadCommand<'a>,
    pub uuid: &'a [u8],
}

/// A thread state load command.
#[derive(Debug)]
pub struct ThreadCommand<'a> {
    pub load_cmd: LoadCommand<'a>,
    pub flavor: &'a [u8],
    pub count: &'a [u8],
    pub state: &'a [u8],
}

/// The encryption info load command.
#[derive(Debug)]
pub struct EncryptionInfoCommand<'a> {
    pub load_cmd: LoadCommand<'a>,
    pub cryptoff: &'a [u8],
    pub cryptsize: &'a [u8],
    pub cryptid: &'a [u8],
}

/// The minimum OS version load command.
#[derive(Debug)]
pub struct VersionMinCommand<'a> {
    pub load_cmd: LoadCommand<'a>,
    pub version: &'a [u8],
    pub sdk: &'a [u8],
}

/// A link-edit data load command.
#[derive(Debug)]
pub struct LinkEditDataCommand<'a> {
    pub load_cmd: LoadCommand<'a>,
    pub dataoff: &'a [u8],
    pub datasize: &'a [u8],
}

/// The dynamic loader info load command.
#[derive(Debug)]
pub struct DyldInfoCommand<'a> {
    pub load_cmd: LoadCommand<'a>,
    pub rebase_off: &'a [u8],
    pub rebase_size: &'a [u8],
    pub bind_off: &'a [u8],
    pub bind_size: &'a [u8],
    pub weak_bind_off: &'a [u8],
    pub weak_bind_size: &'a [u8],
    pub lazy_bind_off: &'a [u8],
    pub lazy_bind_size: &'a [u8],
    pub export_of: &'a [u8],
    pub export_size: &'a [u8],
}

/// A run path load command.
#[derive(Debug)]
pub struct RunPathCommand<'a> {
    pub load_cmd: LoadCommand<'a>,
    pub offset: &'a [u8],
}

/// A load command of any kind.
#[derive(Debug)]
pub enum LoadCommandData<'a> {
    Segment(SegmentCommand<'a>),
    Symtab(SymtabCommand<'a>),
    Dymlib(DylibCommand<'a>),
    Dysymtab(DysymtabCommand<'a>),
    Routine(RoutineCommand<'a>),
    EntryPoint(EntryPointCommand<'a>),
    Symseg(SymsegCommand<'a>),
    PrebindChecksum(PrebindChecksumCommand<'a>),
    UUID(UUIDCommand<'a>),
    Thread(ThreadCommand<'a>),
    EncryptionInfo(EncryptionInfoCommand<'a>),
    VersionMin(VersionMinCommand<'a>),
    RunPath(RunPathCommand<'a>),
    DyldInfo(DyldInfoCommand<'a>),
    LinkEditData(LinkEditDataCommand<'a>),
}

/// The bytes of `b` in `a..c`, reversed when `rev` holds.
pub open spec fn field_bytes(b: Seq<u8>, a: int, c: int, rev: bool) -> Seq<u8> {
    if rev {
        reversed(b.subrange(a, c))
    } else {
        b.subrange(a, c)
    }
}

/// `h` holds the header fields of `b`, each reversed when `rev` holds.
pub open spec fn macho_header_spec(b: Seq<u8>, h: MachOHeader, rev: bool) -> bool {
    &&& h.magic@ == field_bytes(b, 0, 4, rev)
    &&& h.cputype@ == field_bytes(b, 4, 8, rev)
    &&& h.cpusubtype@ == field_bytes(b, 8, 12, rev)
    &&& h.ftype@ == field_bytes(b, 12, 16, rev)
    &&& h.lcnum@ == field_bytes(b, 16, 20, rev)
    &&& h.lcsize@ == field_bytes(b, 20, 24, rev)
    &&& h.flags@ == field_bytes(b, 24, 28, rev)
}

/// A copy of `bytes[a..c]`, reversed when `rev` holds.
fn field(bytes: &[u8], a: usize, c: usize, rev: bool) -> (r: Vec<u8>)
    requires
        a <= c <= bytes@.len(),
    ensures
        r@ == field_bytes(bytes@, a as int, c as int, rev),
{
    let s = slice_of(bytes, a, c);
    if rev {
        reverse_bytes(s)
    } else {
        vstd::slice::slice_to_vec(s)
    }
}

/// Reads the Mach-O header, reversing each field when the file's byte order
/// is the other one (`reversed`). `MalformedHeader` when the buffer is
/// shorter than the header.
pub fn extract_macho_header(bytes: &[u8], reversed: bool) -> (r: Result<MachOHeader, DecodeError>)
    ensures
        r is Ok <==> bytes@.len() >= MACHO_HEADER_LEN,
        r is Err ==> r == Err::<MachOHeader, DecodeError>(DecodeError::MalformedHeader),
        r matches Ok(h) ==> macho_header_spec(bytes@, h, reversed),
{
    if bytes.len() < MACHO_HEADER_LEN {
        return Err(DecodeError::MalformedHeader);
    }
    Ok(MachOHeader {
        magic: field(bytes, 0, 4, reversed),
        cputype: field(bytes, 4, 8, reversed),
        cpusubtype: field(bytes, 8, 12, reversed),
        ftype: field(bytes, 12, 16, reversed),
        lcnum: field(bytes, 16, 20, reversed),
        lcsize: field(bytes, 20, 24, reversed),
        flags: field(bytes, 24, 28, reversed),
    })
}

} // verus!
