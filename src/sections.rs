//! Classification of sections by name, and the content of `.rsrc` and
//! `.idata` sections.
use vstd::prelude::*;
use crate::bytes::{bytes_eq, le32, read_u32, slice_of};
use crate::names::string_from;
use crate::pe_structure::{
    ImportData, ImportDescriptor, RessourceAdresses, RsrcData, RsrcDataList, Section, SectionData,
    SectionTable, SectionsData, TextData, UnknownSection,
};
use crate::rsrc::{find_rsrc_data_adresses, walk_dir, adresses_view, ResLeaf, RSRC_MAX_DEPTH};

verus! {

/// Size of one import descriptor.
pub const IMPORT_DESCRIPTOR_LEN: usize = 20;

/// The name `.text`.
pub open spec fn text_name() -> Seq<u8> {
    seq![46u8, 116, 101, 120, 116]
}

/// The name `.rsrc`.
pub open spec fn rsrc_name() -> Seq<u8> {
    seq![46u8, 114, 115, 114, 99]
}

/// The name `.idata`.
pub open spec fn idata_name() -> Seq<u8> {
    seq![46u8, 105, 100, 97, 116, 97]
}

/// The characters of a byte string read one byte per character.
pub open spec fn latin1(s: Seq<u8>) -> Seq<char> {
    s.map_values(|c: u8| c as char)
}

/// Relies on `String::push`: the character is appended at the end.
#[verifier::external_body]
fn push_char(s: &mut String, c: char)
    ensures
        final(s)@ == old(s)@.push(c),
{
    s.push(c)
}

/// The NUL-terminated name at `offset` of `bytes`, one character per byte; a
/// name that runs to the end of `bytes` ends there.
pub fn get_dll_name(bytes: &[u8], offset: usize) -> (r: String)
    requires
        offset <= bytes@.len(),
    ensures
        r@ == latin1(string_from(bytes@, offset as int)),
{
    let mut dll_name = String::new();
    let mut j = offset;
    let ghost mut taken: Seq<u8> = Seq::empty();
    while j < bytes.len() && bytes[j] != 0
        invariant
            offset <= j <= bytes@.len(),
            string_from(bytes@, offset as int) == taken + string_from(bytes@, j as int),
            dll_name@ == latin1(taken),
        decreases bytes@.len() - j,
    {
        let c = bytes[j];
        push_char(&mut dll_name, c as char);
        proof {
            taken = taken.push(c);
        }
        j += 1;
        assert(string_from(bytes@, offset as int) =~= taken + string_from(bytes@, j as int));
        assert(dll_name@ =~= latin1(taken));
    }
    assert(taken + string_from(bytes@, j as int) =~= taken);
    dll_name
}

/// Whether the 20-byte import descriptor at `o` of `r` is all zero: the
/// terminator of the list.
pub open spec fn descriptor_zero(r: Seq<u8>, o: int) -> bool {
    &&& le32(r, o) == 0
    &&& le32(r, o + 4) == 0
    &&& le32(r, o + 8) == 0
    &&& le32(r, o + 12) == 0
    &&& le32(r, o + 16) == 0
}

/// Whether the name RVA `rva` translates to an offset inside a buffer of `n`
/// bytes, for a section at virtual address `va` and file offset `ptr`.
pub open spec fn name_fits(rva: int, va: int, ptr: int, n: int) -> bool {
    va <= rva + ptr && rva + ptr - va <= n
}

/// The DLL names of the import descriptors from the `k`-th on of the section
/// bytes `r`, with whether the list is malformed: it runs off the section
/// before its terminator, or a name lies outside `b`. The names read before a
/// fault are kept.
pub open spec fn import_walk(b: Seq<u8>, r: Seq<u8>, va: int, ptr: int, k: nat) -> (Seq<Seq<char>>, bool)
    decreases r.len() - 20 * k,
{
    let o: int = 20 * (k as int);
    if o + 20 > r.len() {
        (Seq::empty(), true)
    } else if descriptor_zero(r, o) {
        (Seq::empty(), false)
    } else if !name_fits(le32(r, o + 12), va, ptr, b.len() as int) {
        (Seq::empty(), true)
    } else {
        let rest = import_walk(b, r, va, ptr, k + 1);
        (seq![latin1(string_from(b, le32(r, o + 12) + ptr - va))] + rest.0, rest.1)
    }
}

/// The text held by a list of strings.
pub open spec fn string_views(v: Seq<String>) -> Seq<Seq<char>> {
    v.map_values(|x: String| x@)
}

/// `im` holds the imports of section `s` of buffer `b`.
pub open spec fn import_spec(b: Seq<u8>, s: Section, im: ImportData) -> bool {
    let w = import_walk(b, s.raw_data@, s.virtual_address as int, s.ptr_to_raw_data as int, 0);
    &&& string_views(im.dll_names@) == w.0
    &&& im.malformed == w.1
}

/// Reads the import descriptor at `o` of `r`.
pub fn read_import_descriptor(r: &[u8], o: usize) -> (d: ImportDescriptor)
    requires
        o + 20 <= r@.len(),
    ensures
        d.original_first_thunk == le32(r@, o as int),
        d.time_date_stamp == le32(r@, o + 4),
        d.forwarder_chain == le32(r@, o + 8),
        d.name_rva == le32(r@, o + 12),
        d.first_thunk == le32(r@, o + 16),
{
    let _n = r.len();
    ImportDescriptor {
        original_first_thunk: read_u32(r, o) as usize,
        time_date_stamp: read_u32(r, o + 4) as usize,
        forwarder_chain: read_u32(r, o + 8) as usize,
        name_rva: read_u32(r, o + 12) as usize,
        first_thunk: read_u32(r, o + 16) as usize,
    }
}

/// Reads the import descriptors of an `.idata` section up to the all-zero
/// terminator, and the DLL name of each: its RVA is translated to a file
/// offset by `name_rva + ptr_to_raw_data - virtual_address`. A list that runs
/// off the section, or a name outside the buffer, ends the reading and marks
/// the list malformed.
pub fn extract_imports(bytes: &[u8], section: &Section) -> (r: ImportData)
    ensures
        import_spec(bytes@, *section, r),
{
    let raw = section.raw_data;
    let va = section.virtual_address as usize;
    let ptr = section.ptr_to_raw_data;
    let n = bytes.len();
    let ghost w0 = import_walk(bytes@, raw@, va as int, ptr as int, 0);
    let mut dll_names: Vec<String> = Vec::new();
    let mut k: usize = 0;
    let mut o: usize = 0;
    loop
        invariant
            raw@ == section.raw_data@,
            va == section.virtual_address,
            ptr == section.ptr_to_raw_data,
            n == bytes@.len(),
            o == 20 * k,
            o <= raw@.len(),
            w0 == import_walk(bytes@, raw@, va as int, ptr as int, 0),
            string_views(dll_names@) + import_walk(bytes@, raw@, va as int, ptr as int, k as nat).0 == w0.0,
            import_walk(bytes@, raw@, va as int, ptr as int, k as nat).1 == w0.1,
        decreases raw@.len() - o,
    {
        let ghost wk = import_walk(bytes@, raw@, va as int, ptr as int, k as nat);
        if raw.len() - o < IMPORT_DESCRIPTOR_LEN {
            assert(string_views(dll_names@) =~= w0.0);
            return ImportData { dll_names, malformed: true };
        }
        let d = read_import_descriptor(raw, o);
        if d.original_first_thunk == 0 && d.time_date_stamp == 0 && d.forwarder_chain == 0
            && d.name_rva == 0 && d.first_thunk == 0 {
            assert(string_views(dll_names@) =~= w0.0);
            return ImportData { dll_names, malformed: false };
        }
        let rva = d.name_rva;
        let fits = if rva >= va {
            ptr <= n && rva - va <= n - ptr
        } else {
            va - rva <= ptr && ptr - (va - rva) <= n
        };
        if !fits {
            assert(string_views(dll_names@) =~= w0.0);
            return ImportData { dll_names, malformed: true };
        }
        let off = if rva >= va { ptr + (rva - va) } else { ptr - (va - rva) };
        let name = get_dll_name(bytes, off);
        let ghost nv = name@;
        dll_names.push(name);
        proof {
            let rest = import_walk(bytes@, raw@, va as int, ptr as int, (k + 1) as nat);
            assert(wk.0 == seq![nv] + rest.0);
            assert(string_views(dll_names@) =~= string_views(dll_names@.drop_last()).push(nv));
            assert(dll_names@.drop_last() =~= dll_names@.subrange(0, dll_names@.len() - 1));
            assert(string_views(dll_names@) + rest.0 =~= w0.0);
        }
        k += 1;
        o += IMPORT_DESCRIPTOR_LEN;
    }
}

/// Whether the resource `l` lies inside a buffer of `n` bytes.
pub open spec fn leaf_fits(l: ResLeaf, n: int) -> bool {
    l.address + l.size <= n
}

/// The indices below `k` of the resources of `ls` that leave a buffer of `n`
/// bytes.
pub open spec fn leaves_outside(ls: Seq<ResLeaf>, n: int, k: int) -> Seq<usize>
    decreases k,
{
    if k <= 0 {
        Seq::empty()
    } else if leaf_fits(ls[k - 1], n) {
        leaves_outside(ls, n, k - 1)
    } else {
        leaves_outside(ls, n, k - 1).push((k - 1) as usize)
    }
}

/// `d` holds the bytes of the resource `l` of buffer `b`, or none when they
/// leave `b`.
pub open spec fn rsrc_data_spec(b: Seq<u8>, l: ResLeaf, d: RsrcData) -> bool {
    &&& d.codepage@ == l.codepage
    &&& d.extracted_raw@ == if leaf_fits(l, b.len() as int) {
        b.subrange(l.address, l.address + l.size)
    } else {
        Seq::empty()
    }
}

/// The walk of the resource tree of section `s`, from its root directory.
pub open spec fn rsrc_walk(s: Section) -> (Seq<ResLeaf>, Seq<usize>) {
    walk_dir(
        s.raw_data@,
        0,
        RSRC_MAX_DEPTH as nat,
        s.virtual_address as int,
        s.ptr_to_raw_data as int,
    )
}

/// `l` holds the resources of the `.rsrc` section `s` of buffer `b`.
pub open spec fn rsrc_spec(b: Seq<u8>, s: Section, l: RsrcDataList) -> bool {
    let w = rsrc_walk(s);
    &&& l.faults@ == w.1
    &&& l.data@.len() == w.0.len()
    &&& forall|i: int| 0 <= i < w.0.len() ==> rsrc_data_spec(b, w.0[i], #[trigger] l.data@[i])
    &&& l.out_of_bounds@ == leaves_outside(w.0, b.len() as int, w.0.len() as int)
}

/// Walks the resource tree of a `.rsrc` section and takes the bytes of each
/// resource out of the buffer.
pub fn extract_rsrc<'a>(bytes: &'a [u8], section: &Section<'a>) -> (r: RsrcDataList<'a>)
    ensures
        rsrc_spec(bytes@, *section, r),
{
    let mut found = RessourceAdresses { adresses: Vec::new(), faults: Vec::new() };
    find_rsrc_data_adresses(
        &mut found,
        0,
        section.raw_data,
        section.virtual_size as usize,
        section.ptr_to_raw_data,
        section.virtual_address as usize,
    );
    let ghost w = rsrc_walk(*section);
    assert(adresses_view(found.adresses@) =~= w.0);
    assert(found.faults@ =~= w.1);
    let n = bytes.len();
    let mut data: Vec<RsrcData<'a>> = Vec::new();
    let mut out_of_bounds: Vec<usize> = Vec::new();
    let mut i: usize = 0;
    while i < found.adresses.len()
        invariant
            n == bytes@.len(),
            adresses_view(found.adresses@) == w.0,
            i <= w.0.len(),
            data@.len() == i,
            forall|j: int| 0 <= j < i ==> rsrc_data_spec(bytes@, w.0[j], #[trigger] data@[j]),
            out_of_bounds@ == leaves_outside(w.0, n as int, i as int),
        decreases w.0.len() - i,
    {
        let a = &found.adresses[i];
        assert(w.0[i as int] == crate::rsrc::adress_view(*a));
        if a.address <= n && a.size <= n - a.address {
            data.push(RsrcData { extracted_raw: slice_of(bytes, a.address, a.address + a.size), codepage: a.codepage });
        } else {
            out_of_bounds.push(i);
            let empty = slice_of(bytes, 0, 0);
            assert(empty@ =~= Seq::<u8>::empty());
            data.push(RsrcData { extracted_raw: empty, codepage: a.codepage });
        }
        i += 1;
    }
    RsrcDataList { data, faults: found.faults, out_of_bounds }
}

/// `d` is what section `s` of buffer `b` holds, by the kind that its name
/// gives: `.text` code, `.rsrc` resources, `.idata` imports, or else the
/// section's name and raw bytes.
pub open spec fn classified(b: Seq<u8>, s: Section, d: SectionData) -> bool {
    if s.name@ == text_name() {
        d matches SectionData::Text(t) && t.extracted_code@ == s.raw_data@
    } else if s.name@ == rsrc_name() {
        d matches SectionData::Rsrc(l) && rsrc_spec(b, s, l)
    } else if s.name@ == idata_name() {
        d matches SectionData::IData(im) && import_spec(b, s, im)
    } else {
        d matches SectionData::Unknown(u) && u.section_name@ == s.name@ && u.extracted_raw@
            == s.raw_data@
    }
}

/// Classifies each section by its name and extracts its content: the code of
/// `.text`, the resources of `.rsrc`, the DLL names of `.idata`, and the name
/// and raw bytes of any other section. One entry per section, in order.
pub fn extract_section_datas<'a>(bytes: &'a [u8], section_table: &SectionTable<'a>) -> (r: SectionsData<'a>)
    ensures
        r.sections@.len() == section_table.sections@.len(),
        forall|i: int|
            0 <= i < r.sections@.len() ==> classified(
                bytes@,
                #[trigger] section_table.sections@[i],
                r.sections@[i],
            ),
{
    let text = vec![46u8, 116, 101, 120, 116];
    let rsrc = vec![46u8, 114, 115, 114, 99];
    let idata = vec![46u8, 105, 100, 97, 116, 97];
    assert(text@ =~= text_name());
    assert(rsrc@ =~= rsrc_name());
    assert(idata@ =~= idata_name());
    let mut out: Vec<SectionData<'a>> = Vec::new();
    let mut i: usize = 0;
    while i < section_table.sections.len()
        invariant
            text@ == text_name(),
            rsrc@ == rsrc_name(),
            idata@ == idata_name(),
            i <= section_table.sections@.len(),
            out@.len() == i,
            forall|j: int|
                0 <= j < i ==> classified(bytes@, #[trigger] section_table.sections@[j], out@[j]),
        decreases section_table.sections@.len() - i,
    {
        let section = &section_table.sections[i];
        let name = section.name.as_slice();
        let d = if bytes_eq(name, text.as_slice()) {
            SectionData::Text(TextData { extracted_code: section.raw_data })
        } else if bytes_eq(name, rsrc.as_slice()) {
            SectionData::Rsrc(extract_rsrc(bytes, section))
        } else if bytes_eq(name, idata.as_slice()) {
            SectionData::IData(extract_imports(bytes, section))
        } else {
            SectionData::Unknown(
                UnknownSection {
                    section_name: vstd::slice::slice_to_vec(name),
                    extracted_raw: section.raw_data,
                },
            )
        };
        out.push(d);
        i += 1;
    }
    SectionsData { sections: out }
}

} // verus!
