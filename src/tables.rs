//! The symbol, string and section tables of a PE image.
use vstd::prelude::*;
use crate::bytes::{le16, le32, read_u16, read_u32, slice_of};
use crate::error::DecodeError;
use crate::pe_structure::{COFFHeader, Section, SectionTable, StringTable, Symbol, SymbolTable};

verus! {

/// Size of one symbol record.
pub const SYMBOL_LEN: usize = 18;

/// Size of one section descriptor.
pub const SECTION_LEN: usize = 40;

/// `s` without its trailing NUL bytes.
pub open spec fn trim_nul(s: Seq<u8>) -> Seq<u8>
    decreases s.len(),
{
    if s.len() > 0 && s.last() == 0 {
        trim_nul(s.drop_last())
    } else {
        s
    }
}

/// A copy of `bytes[start..end]` without its trailing NUL bytes.
pub fn trimmed(bytes: &[u8], start: usize, end: usize) -> (r: Vec<u8>)
    requires
        start <= end <= bytes@.len(),
    ensures
        r@ == trim_nul(bytes@.subrange(start as int, end as int)),
{
    let mut k = end;
    while k > start && bytes[k - 1] == 0
        invariant
            start <= k <= end <= bytes@.len(),
            trim_nul(bytes@.subrange(start as int, end as int)) == trim_nul(
                bytes@.subrange(start as int, k as int),
            ),
        decreases k,
    {
        assert(bytes@.subrange(start as int, k as int).drop_last() =~= bytes@.subrange(
            start as int,
            k - 1,
        ));
        k -= 1;
    }
    vstd::slice::slice_to_vec(slice_of(bytes, start, k))
}

/// `s` holds the symbol record of `b` at offset `o`.
pub open spec fn symbol_spec(b: Seq<u8>, o: int, s: Symbol) -> bool {
    &&& s.name@ == trim_nul(b.subrange(o, o + 8))
    &&& s.value@ == b.subrange(o + 8, o + 12)
    &&& s.section_number@ == b.subrange(o + 12, o + 14)
    &&& s.data_type@ == b.subrange(o + 14, o + 16)
    &&& s.storage_class@ == b.subrange(o + 16, o + 17)
    &&& s.number_aux_symbols@ == b.subrange(o + 17, o + 18)
}

/// Whether the symbol records that `h` announces fit in a buffer of `n` bytes.
pub open spec fn symbols_fit(h: COFFHeader, n: int) -> bool {
    h.symbol_table_pointer + SYMBOL_LEN * h.symbol_count <= n
}

/// Offset of the string table: right after the last symbol record.
pub open spec fn string_table_offset(h: COFFHeader) -> int {
    h.symbol_table_pointer + SYMBOL_LEN * h.symbol_count
}

/// Reads the `symbol_count` records of 18 bytes at `symbol_table_pointer`;
/// `MalformedHeader` when they do not fit in the buffer. Only the inline form
/// of a name is decoded; `pe_offset` takes no part.
pub fn extract_symbol_table<'a>(bytes: &'a [u8], pe_offset: usize, coff_header: COFFHeader<'a>) -> (r:
    Result<SymbolTable<'a>, DecodeError>)
    ensures
        r is Ok <==> symbols_fit(coff_header, bytes@.len() as int),
        r is Err ==> r == Err::<SymbolTable<'a>, DecodeError>(DecodeError::MalformedHeader),
        r matches Ok(t) ==> {
            &&& t.symbols@.len() == coff_header.symbol_count
            &&& forall|i: int|
                0 <= i < t.symbols@.len() ==> symbol_spec(
                    bytes@,
                    coff_header.symbol_table_pointer + SYMBOL_LEN * i,
                    #[trigger] t.symbols@[i],
                )
        },
{
    let n = bytes.len();
    let ptr = coff_header.symbol_table_pointer;
    let count = coff_header.symbol_count;
    if ptr > n || count > (n - ptr) / SYMBOL_LEN {
        proof {
            if ptr <= n {
                assert(ptr + 18 * count > n) by (nonlinear_arith)
                    requires
                        count > (n - ptr) / 18,
                        ptr <= n,
                ;
            }
        }
        return Err(DecodeError::MalformedHeader);
    }
    assert(ptr + 18 * count <= n) by (nonlinear_arith)
        requires
            count <= (n - ptr) / 18,
            ptr <= n,
    ;
    let mut symbols: Vec<Symbol<'a>> = Vec::new();
    let mut i: usize = 0;
    let mut o: usize = ptr;
    while i < count
        invariant
            n == bytes@.len(),
            ptr == coff_header.symbol_table_pointer,
            count == coff_header.symbol_count,
            ptr + 18 * count <= n,
            i <= count,
            o == ptr + 18 * i,
            symbols@.len() == i,
            forall|j: int|
                0 <= j < i ==> symbol_spec(bytes@, ptr + SYMBOL_LEN * j, #[trigger] symbols@[j]),
        decreases count - i,
    {
        assert(o + 18 <= n) by (nonlinear_arith)
            requires
                o == ptr + 18 * i,
                i < count,
                ptr + 18 * count <= n,
        ;
        symbols.push(
            Symbol {
                name: trimmed(bytes, o, o + 8),
                value: slice_of(bytes, o + 8, o + 12),
                section_number: slice_of(bytes, o + 12, o + 14),
                data_type: slice_of(bytes, o + 14, o + 16),
                storage_class: slice_of(bytes, o + 16, o + 17),
                number_aux_symbols: slice_of(bytes, o + 17, o + 18),
            },
        );
        i += 1;
        o += SYMBOL_LEN;
    }
    Ok(SymbolTable { symbols })
}

/// `s` split on NUL bytes: one piece more than there are NULs, each piece
/// without NULs.
pub open spec fn split_nul(s: Seq<u8>) -> Seq<Seq<u8>>
    decreases s.len(),
{
    if s.len() == 0 {
        seq![Seq::empty()]
    } else {
        let prev = split_nul(s.drop_last());
        if s.last() == 0 {
            prev.push(Seq::empty())
        } else {
            prev.update(prev.len() - 1, prev.last().push(s.last()))
        }
    }
}

/// The pieces joined with a NUL byte between each two.
pub open spec fn join_nul(parts: Seq<Seq<u8>>) -> Seq<u8>
    decreases parts.len(),
{
    if parts.len() == 0 {
        Seq::empty()
    } else if parts.len() == 1 {
        parts[0]
    } else {
        join_nul(parts.drop_last()) + seq![0u8] + parts.last()
    }
}

/// The byte strings held by a list of vectors.
pub open spec fn views(v: Seq<Vec<u8>>) -> Seq<Seq<u8>> {
    v.map_values(|x: Vec<u8>| x@)
}

/// The payload of the string table at `off` of `b`: the bytes after its
/// length prefix, up to the length that the prefix gives.
pub open spec fn string_payload(b: Seq<u8>, off: int) -> Seq<u8> {
    b.subrange(off + 4, off + le32(b, off))
}

/// Whether a string table at `off` fits in `b`: its prefix, and the length
/// that the prefix gives, which counts the prefix itself.
pub open spec fn string_table_fits(b: Seq<u8>, off: int) -> bool {
    &&& off + 4 <= b.len()
    &&& 4 <= le32(b, off)
    &&& off + le32(b, off) <= b.len()
}

/// `t` is the string table of `b` at offset `off`.
pub open spec fn string_table_spec(b: Seq<u8>, off: int, t: StringTable) -> bool {
    &&& t.length == le32(b, off)
    &&& views(t.strings@) == split_nul(string_payload(b, off))
}

proof fn lemma_split_nonempty(s: Seq<u8>)
    ensures
        split_nul(s).len() >= 1,
    decreases s.len(),
{
    if s.len() > 0 {
        lemma_split_nonempty(s.drop_last());
    }
}

/// Joining the pieces of `s` split on NUL gives `s` back.
pub proof fn lemma_join_split(s: Seq<u8>)
    ensures
        join_nul(split_nul(s)) == s,
    decreases s.len(),
{
    if s.len() > 0 {
        let prev = split_nul(s.drop_last());
        lemma_join_split(s.drop_last());
        lemma_split_nonempty(s.drop_last());
        if s.last() == 0 {
            assert(prev.push(Seq::empty()).drop_last() =~= prev);
            assert(s =~= s.drop_last() + seq![0u8] + Seq::<u8>::empty());
        } else {
            let x = prev.update(prev.len() - 1, prev.last().push(s.last()));
            if prev.len() == 1 {
                assert(x[0] =~= s);
            } else {
                assert(x.drop_last() =~= prev.drop_last());
                assert(join_nul(x) =~= join_nul(prev) + seq![s.last()]);
                assert(s =~= s.drop_last() + seq![s.last()]);
            }
        }
    }
}

/// `bytes` split on NUL bytes.
pub fn split_on_nul(bytes: &[u8]) -> (r: Vec<Vec<u8>>)
    ensures
        views(r@) == split_nul(bytes@),
{
    let mut parts: Vec<Vec<u8>> = Vec::new();
    let mut cur: Vec<u8> = Vec::new();
    let mut i: usize = 0;
    assert(views(parts@).push(cur@) =~= split_nul(bytes@.subrange(0, 0)));
    while i < bytes.len()
        invariant
            i <= bytes@.len(),
            views(parts@).push(cur@) == split_nul(bytes@.subrange(0, i as int)),
        decreases bytes@.len() - i,
    {
        let ghost prev = views(parts@).push(cur@);
        let c = bytes[i];
        assert(bytes@.subrange(0, i + 1).drop_last() =~= bytes@.subrange(0, i as int));
        if c == 0 {
            parts.push(cur);
            cur = Vec::new();
            assert(views(parts@).push(cur@) =~= prev.push(Seq::empty()));
        } else {
            cur.push(c);
            assert(views(parts@).push(cur@) =~= prev.update(prev.len() - 1, prev.last().push(c)));
        }
        i += 1;
    }
    parts.push(cur);
    assert(bytes@.subrange(0, bytes@.len() as int) =~= bytes@);
    parts
}

/// Reads the string table that follows the symbol records: a 4-byte length
/// that counts itself, then NUL-separated strings. `MalformedHeader` when the
/// symbol records, the prefix or the length that it gives leave the buffer, or
/// the length is below 4.
pub fn extract_string_table(bytes: &[u8], coff_header: COFFHeader) -> (r: Result<StringTable, DecodeError>)
    ensures
        r is Ok <==> symbols_fit(coff_header, bytes@.len() as int) && string_table_fits(
            bytes@,
            string_table_offset(coff_header),
        ),
        r is Err ==> r == Err::<StringTable, DecodeError>(DecodeError::MalformedHeader),
        r matches Ok(t) ==> string_table_spec(bytes@, string_table_offset(coff_header), t),
{
    let n = bytes.len();
    let ptr = coff_header.symbol_table_pointer;
    let count = coff_header.symbol_count;
    if ptr > n || count > (n - ptr) / SYMBOL_LEN {
        proof {
            if ptr <= n {
                assert(ptr + 18 * count > n) by (nonlinear_arith)
                    requires
                        count > (n - ptr) / 18,
                        ptr <= n,
                ;
            }
        }
        return Err(DecodeError::MalformedHeader);
    }
    assert(ptr + 18 * count <= n) by (nonlinear_arith)
        requires
            count <= (n - ptr) / 18,
            ptr <= n,
    ;
    let off = ptr + SYMBOL_LEN * count;
    if n - off < 4 {
        return Err(DecodeError::MalformedHeader);
    }
    let length = read_u32(bytes, off) as usize;
    if length < 4 || length > n - off {
        return Err(DecodeError::MalformedHeader);
    }
    let strings = split_on_nul(slice_of(bytes, off + 4, off + length));
    Ok(StringTable { length, strings })
}

impl StringTable {
    /// The payload bytes after the length prefix: the strings joined with NUL.
    pub fn payload(&self) -> (r: Vec<u8>)
        ensures
            r@ == join_nul(views(self.strings@)),
    {
        let mut r: Vec<u8> = Vec::new();
        let mut i: usize = 0;
        while i < self.strings.len()
            invariant
                i <= self.strings@.len(),
                r@ == join_nul(views(self.strings@).subrange(0, i as int)),
            decreases self.strings@.len() - i,
        {
            let ghost p = views(self.strings@).subrange(0, i + 1);
            assert(p.drop_last() =~= views(self.strings@).subrange(0, i as int));
            if i > 0 {
                r.push(0u8);
            }
            let s = &self.strings[i];
            let mut j: usize = 0;
            let ghost r0 = r@;
            while j < s.len()
                invariant
                    j <= s@.len(),
                    r@ == r0 + s@.subrange(0, j as int),
                decreases s@.len() - j,
            {
                r.push(s[j]);
                j += 1;
                assert(r@ =~= r0 + s@.subrange(0, j as int));
            }
            assert(s@.subrange(0, s@.len() as int) =~= s@);
            if i == 0 {
                assert(r@ =~= p[0]);
            } else {
                assert(r@ =~= join_nul(p.drop_last()) + seq![0u8] + p.last());
            }
            i += 1;
        }
        assert(views(self.strings@).subrange(0, self.strings@.len() as int) =~= views(self.strings@));
        r
    }
}

/// The string table's bytes are its length prefix followed by its strings
/// joined with NUL: splitting the payload on NUL and joining it again, behind
/// the original prefix, gives the table's bytes exactly.
pub proof fn lemma_string_table_round_trip(b: Seq<u8>, off: int, t: StringTable)
    requires
        0 <= off,
        string_table_fits(b, off),
        string_table_spec(b, off, t),
    ensures
        b.subrange(off, off + 4) + join_nul(views(t.strings@)) == b.subrange(off, off + t.length),
{
    lemma_join_split(string_payload(b, off));
    assert(b.subrange(off, off + 4) + string_payload(b, off) =~= b.subrange(off, off + t.length));
}

/// Offset of the section table: after the COFF header and the optional header.
pub open spec fn section_table_offset(pe_offset: int, h: COFFHeader) -> int {
    pe_offset + h.optional_header_size + 24
}

/// Whether the descriptors that `h` announces fit in a buffer of `n` bytes.
pub open spec fn sections_fit(pe_offset: int, h: COFFHeader, n: int) -> bool {
    section_table_offset(pe_offset, h) + SECTION_LEN * h.section_count <= n
}

/// Whether the raw data of the descriptor at `o` of `b` lies inside `b`. A
/// section without raw data always does.
pub open spec fn raw_fits(b: Seq<u8>, o: int) -> bool {
    le32(b, o + 16) == 0 || le32(b, o + 20) + le32(b, o + 16) <= b.len()
}

/// The name of the descriptor at `o` of `b`, without its NUL padding.
pub open spec fn raw_name(b: Seq<u8>, o: int) -> Seq<u8> {
    trim_nul(b.subrange(o, o + 8))
}

/// `s` holds the fields of the descriptor of `b` at offset `o`, the name
/// aside, with its raw data when that lies inside `b` and no bytes otherwise.
pub open spec fn section_fields_spec(b: Seq<u8>, o: int, s: Section) -> bool {
    &&& s.virtual_size == le32(b, o + 8)
    &&& s.virtual_address == le32(b, o + 12)
    &&& s.raw_data_size == le32(b, o + 16)
    &&& s.ptr_to_raw_data == le32(b, o + 20)
    &&& s.ptr_to_relocations == le32(b, o + 24)
    &&& s.ptr_to_linenumbers == le32(b, o + 28)
    &&& s.number_of_relocations == le16(b, o + 32)
    &&& s.number_of_linenumbers == le16(b, o + 34)
    &&& s.characteristics == le32(b, o + 36)
    &&& s.raw_data@ == if s.raw_data_size != 0 && raw_fits(b, o) {
        b.subrange(s.ptr_to_raw_data as int, s.ptr_to_raw_data + s.raw_data_size)
    } else {
        Seq::empty()
    }
}

/// `s` holds the descriptor of `b` at offset `o`.
pub open spec fn section_spec(b: Seq<u8>, o: int, s: Section) -> bool {
    &&& s.name@ == raw_name(b, o)
    &&& section_fields_spec(b, o, s)
}

/// The indices below `k` of the descriptors at `t` whose raw data leaves `b`.
pub open spec fn outside_indices(b: Seq<u8>, t: int, k: int) -> Seq<usize>
    decreases k,
{
    if k <= 0 {
        Seq::empty()
    } else if raw_fits(b, t + SECTION_LEN * (k - 1)) {
        outside_indices(b, t, k - 1)
    } else {
        outside_indices(b, t, k - 1).push((k - 1) as usize)
    }
}

/// `st` is the section table of `b` for the headers `pe_offset` and `h`.
pub open spec fn section_table_spec(b: Seq<u8>, pe_offset: int, h: COFFHeader, st: SectionTable) -> bool {
    &&& st.sections@.len() == h.section_count
    &&& forall|i: int|
        0 <= i < st.sections@.len() ==> section_spec(
            b,
            section_table_offset(pe_offset, h) + SECTION_LEN * i,
            #[trigger] st.sections@[i],
        )
    &&& st.malformed@ == outside_indices(
        b,
        section_table_offset(pe_offset, h),
        h.section_count as int,
    )
}

/// Reads the descriptor at `o`, with its raw data.
fn read_section<'a>(bytes: &'a [u8], o: usize) -> (r: Section<'a>)
    requires
        o + SECTION_LEN <= bytes@.len(),
    ensures
        section_spec(bytes@, o as int, r),
{
    let n = bytes.len();
    let raw_data_size = read_u32(bytes, o + 16) as usize;
    let ptr_to_raw_data = read_u32(bytes, o + 20) as usize;
    let raw_data = if raw_data_size != 0 && ptr_to_raw_data <= n && raw_data_size <= n - ptr_to_raw_data {
        slice_of(bytes, ptr_to_raw_data, ptr_to_raw_data + raw_data_size)
    } else {
        slice_of(bytes, 0, 0)
    };
    assert(bytes@.subrange(0, 0) =~= Seq::<u8>::empty());
    Section {
        name: trimmed(bytes, o, o + 8),
        virtual_size: read_u32(bytes, o + 8),
        virtual_address: read_u32(bytes, o + 12),
        raw_data_size,
        ptr_to_raw_data,
        ptr_to_relocations: read_u32(bytes, o + 24) as usize,
        ptr_to_linenumbers: read_u32(bytes, o + 28) as usize,
        number_of_relocations: read_u16(bytes, o + 32),
        number_of_linenumbers: read_u16(bytes, o + 34),
        characteristics: read_u32(bytes, o + 36),
        raw_data,
    }
}

/// Reads the `section_count` descriptors of 40 bytes after the optional
/// header, each with its raw data. `MalformedHeader` when the descriptors do
/// not fit in the buffer. A section whose raw data leaves the buffer keeps no
/// bytes and its index is listed in `malformed`; the other sections are read
/// all the same. A section without raw data has no bytes and is no fault.
pub fn extract_section_table<'a>(bytes: &'a [u8], pe_offset: usize, file_coff_header: COFFHeader<'a>) -> (r:
    Result<SectionTable<'a>, DecodeError>)
    ensures
        r is Ok <==> sections_fit(pe_offset as int, file_coff_header, bytes@.len() as int),
        r is Err ==> r == Err::<SectionTable<'a>, DecodeError>(DecodeError::MalformedHeader),
        r matches Ok(st) ==> section_table_spec(bytes@, pe_offset as int, file_coff_header, st),
        r matches Ok(st) ==> st.sections@.len() == file_coff_header.section_count,
        r matches Ok(st) ==> forall|i: int|
            0 <= i < st.sections@.len() && (#[trigger] st.sections@[i]).raw_data_size == 0
                ==> st.sections@[i].raw_data@.len() == 0,
{
    let n = bytes.len();
    let h = file_coff_header;
    let count = h.section_count;
    if pe_offset > n || h.optional_header_size > n - pe_offset || n - pe_offset - h.optional_header_size < 24 {
        return Err(DecodeError::MalformedHeader);
    }
    let t = pe_offset + h.optional_header_size + 24;
    if count > (n - t) / SECTION_LEN {
        assert(t + 40 * count > n) by (nonlinear_arith)
            requires
                count > (n - t) / 40,
                t <= n,
        ;
        return Err(DecodeError::MalformedHeader);
    }
    assert(t + 40 * count <= n) by (nonlinear_arith)
        requires
            count <= (n - t) / 40,
            t <= n,
    ;
    let mut sections: Vec<Section<'a>> = Vec::new();
    let mut malformed: Vec<usize> = Vec::new();
    let mut i: usize = 0;
    let mut o: usize = t;
    while i < count
        invariant
            n == bytes@.len(),
            t == section_table_offset(pe_offset as int, h),
            count == h.section_count,
            t + 40 * count <= n,
            i <= count,
            o == t + 40 * i,
            sections@.len() == i,
            forall|j: int| 0 <= j < i ==> section_spec(bytes@, t + SECTION_LEN * j, #[trigger] sections@[j]),
            malformed@ == outside_indices(bytes@, t as int, i as int),
        decreases count - i,
    {
        assert(o + 40 <= n) by (nonlinear_arith)
            requires
                o == t + 40 * i,
                i < count,
                t + 40 * count <= n,
        ;
        let s = read_section(bytes, o);
        if s.raw_data_size != 0 && (s.ptr_to_raw_data > n || s.raw_data_size > n - s.ptr_to_raw_data) {
            malformed.push(i);
        }
        sections.push(s);
        i += 1;
        o += SECTION_LEN;
    }
    let st = SectionTable { sections, malformed };
    assert forall|i: int|
        0 <= i < st.sections@.len() && (#[trigger] st.sections@[i]).raw_data_size == 0
            implies st.sections@[i].raw_data@.len() == 0 by {
        assert(section_spec(bytes@, t + SECTION_LEN * i, st.sections@[i]));
    }
    Ok(st)
}

} // verus!
