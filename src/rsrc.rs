//! The resource directory walk of a `.rsrc` section.
use vstd::prelude::*;
use crate::bytes::{le16, le32, read_u16, read_u32, slice_of};
use crate::pe_structure::{RessourceAdress, RessourceAdresses, RessourceDataEntry, RessourceDir};

verus! {

/// How many directory levels a walk descends before it gives a subtree up.
pub const RSRC_MAX_DEPTH: usize = 32;

/// Bit 31 of an entry's offset field: set for a subdirectory.
pub const SUBDIR_FLAG: u32 = 0x8000_0000;

/// Model of one resource found by a walk.
pub struct ResLeaf {
    pub address: int,
    pub size: int,
    pub codepage: Seq<char>,
}

/// What a walk yields: the resources and the offsets of the unreadable parts.
pub type WalkOut = (Seq<ResLeaf>, Seq<usize>);

/// The name of a code page.
pub open spec fn codepage_label(cp: u16) -> Seq<char> {
    if cp == 0 {
        "Unicode"@
    } else if cp == 437 {
        "IBM437"@
    } else if cp == 850 {
        "IBM850"@
    } else if cp == 932 {
        "Shift_JIS"@
    } else if cp == 936 {
        "GB2312"@
    } else if cp == 949 {
        "EUC-KR"@
    } else if cp == 950 {
        "Big5"@
    } else if cp == 1200 {
        "UTF-16LE"@
    } else if cp == 1250 {
        "Windows-1250"@
    } else if cp == 1251 {
        "Windows-1251"@
    } else if cp == 1252 {
        "Windows-1252"@
    } else if cp == 65001 {
        "UTF-8"@
    } else {
        "Unknown"@
    }
}

/// The name of a code page, `"Unknown"` for one outside the table.
pub fn match_codepage(cp: u16) -> (r: &'static str)
    ensures
        r@ == codepage_label(cp),
{
    if cp == 0 {
        "Unicode"
    } else if cp == 437 {
        "IBM437"
    } else if cp == 850 {
        "IBM850"
    } else if cp == 932 {
        "Shift_JIS"
    } else if cp == 936 {
        "GB2312"
    } else if cp == 949 {
        "EUC-KR"
    } else if cp == 950 {
        "Big5"
    } else if cp == 1200 {
        "UTF-16LE"
    } else if cp == 1250 {
        "Windows-1250"
    } else if cp == 1251 {
        "Windows-1251"
    } else if cp == 1252 {
        "Windows-1252"
    } else if cp == 65001 {
        "UTF-8"
    } else {
        "Unknown"
    }
}

/// The resource described by the 16-byte data entry at offset `f` of the
/// section bytes `s`, if the entry lies inside `s` and its RVA translates to a
/// file address: `data_rva - virtual_address + ptr_raw_data`.
pub open spec fn leaf_at(s: Seq<u8>, f: int, va: int, ptr: int) -> Option<ResLeaf> {
    if f + 16 <= s.len() && va <= le32(s, f) && le32(s, f) - va + ptr <= usize::MAX {
        Some(
            ResLeaf {
                address: le32(s, f) - va + ptr,
                size: le32(s, f + 4),
                codepage: codepage_label(le16(s, f + 8) as u16),
            },
        )
    } else {
        None
    }
}

/// Number of entries, name entries and ID entries together, of the
/// directory at `off`.
pub open spec fn entry_count(s: Seq<u8>, off: int) -> int {
    le16(s, off + 12) + le16(s, off + 14)
}

/// The walk of the directory at `off`, `depth` levels from the limit. A
/// directory past the limit, or whose header and entries do not fit in `s`,
/// is one fault at `off`.
pub open spec fn walk_dir(s: Seq<u8>, off: int, depth: nat, va: int, ptr: int) -> WalkOut
    decreases depth, 2int, 0int,
{
    if depth == 0 || off + 16 > s.len() || off + 16 + 8 * entry_count(s, off) > s.len() {
        (Seq::empty(), seq![off as usize])
    } else {
        walk_entries(s, off + 16, entry_count(s, off) as nat, depth, va, ptr)
    }
}

/// The walk of the first `n` entries of the entry array at `base`, in order.
pub open spec fn walk_entries(s: Seq<u8>, base: int, n: nat, depth: nat, va: int, ptr: int) -> WalkOut
    decreases depth, 1int, n,
{
    if n == 0 {
        (Seq::empty(), Seq::empty())
    } else {
        let p = walk_entries(s, base, (n - 1) as nat, depth, va, ptr);
        let e = walk_entry(s, base + 8 * (n - 1), depth, va, ptr);
        (p.0 + e.0, p.1 + e.1)
    }
}

/// The walk of the entry at `e`: a subdirectory is walked one level down; a
/// data entry is one resource, or one fault at its offset.
pub open spec fn walk_entry(s: Seq<u8>, e: int, depth: nat, va: int, ptr: int) -> WalkOut
    decreases depth, 0int, 0int,
{
    let field = le32(s, e + 4);
    if field >= SUBDIR_FLAG {
        if depth == 0 {
            (Seq::empty(), seq![e as usize])
        } else {
            walk_dir(s, field - SUBDIR_FLAG, (depth - 1) as nat, va, ptr)
        }
    } else {
        match leaf_at(s, field, va, ptr) {
            Some(l) => (seq![l], Seq::empty()),
            None => (Seq::empty(), seq![field as usize]),
        }
    }
}

/// Model of a collected resource address.
pub open spec fn adress_view(a: RessourceAdress) -> ResLeaf {
    ResLeaf { address: a.address as int, size: a.size as int, codepage: a.codepage@ }
}

/// The models of a list of collected resource addresses.
pub open spec fn adresses_view(v: Seq<RessourceAdress>) -> Seq<ResLeaf> {
    v.map_values(|a: RessourceAdress| adress_view(a))
}

/// `after` is `before` with the walk `w` appended.
pub open spec fn appended(before: RessourceAdresses, after: RessourceAdresses, w: WalkOut) -> bool {
    &&& adresses_view(after.adresses@) == adresses_view(before.adresses@) + w.0
    &&& after.faults@ == before.faults@ + w.1
}

/// Whether a 4-byte little-endian offset field has its subdirectory bit set.
pub fn is_a_subdirectory(value: &[u8]) -> (r: bool)
    requires
        value@.len() == 4,
    ensures
        r == (le32(value@, 0) >= SUBDIR_FLAG),
{
    let b = value[3];
    let r = b & 0b1000_0000u8 != 0;
    assert(r == (b >= 128)) by (bit_vector)
        requires
            r == (b & 0b1000_0000u8 != 0),
    ;
    r
}

/// A copy of a 4-byte little-endian offset field with its subdirectory bit
/// cleared.
pub fn msb_to_0(value: &[u8]) -> (r: Vec<u8>)
    requires
        value@.len() == 4,
    ensures
        r@.len() == 4,
        le32(r@, 0) == le32(value@, 0) % (SUBDIR_FLAG as int),
        le32(value@, 0) >= SUBDIR_FLAG ==> le32(r@, 0) == le32(value@, 0) - SUBDIR_FLAG,
{
    let mut result = vstd::slice::slice_to_vec(value);
    let b = result[3];
    let c = b & 0x7F;
    assert(c == b % 128) by (bit_vector)
        requires
            c == b & 0x7F,
    ;
    result.set(3, c);
    result
}

/// Reads the 16-byte directory header at `off`.
pub fn read_rsrc_dir(bytes: &[u8], off: usize) -> (d: RessourceDir<'_>)
    requires
        off + 16 <= bytes@.len(),
    ensures
        d.characteristics@ == bytes@.subrange(off as int, off + 4),
        d.time_date_stamp@ == bytes@.subrange(off + 4, off + 8),
        d.major_version@ == bytes@.subrange(off + 8, off + 10),
        d.minor_version@ == bytes@.subrange(off + 10, off + 12),
        d.name_entries_number == le16(bytes@, off + 12),
        d.id_entries_number == le16(bytes@, off + 14),
{
    let _n = bytes.len();
    RessourceDir {
        characteristics: slice_of(bytes, off, off + 4),
        time_date_stamp: slice_of(bytes, off + 4, off + 8),
        major_version: slice_of(bytes, off + 8, off + 10),
        minor_version: slice_of(bytes, off + 10, off + 12),
        name_entries_number: read_u16(bytes, off + 12) as usize,
        id_entries_number: read_u16(bytes, off + 14) as usize,
    }
}

/// Reads the 16-byte data entry at `f`.
pub fn read_data_entry(bytes: &[u8], f: usize) -> (d: RessourceDataEntry<'_>)
    requires
        f + 16 <= bytes@.len(),
    ensures
        d.data_rva == le32(bytes@, f as int),
        d.size == le32(bytes@, f + 4),
        d.codepage@ == bytes@.subrange(f + 8, f + 12),
        d.reserved@ == bytes@.subrange(f + 12, f + 16),
{
    let _n = bytes.len();
    RessourceDataEntry {
        data_rva: read_u32(bytes, f) as usize,
        size: read_u32(bytes, f + 4) as usize,
        codepage: slice_of(bytes, f + 8, f + 12),
        reserved: slice_of(bytes, f + 12, f + 16),
    }
}

/// Appends to `out` the walk of the directory at `offset` of the section
/// bytes `bytes`, descending at most `depth` levels.
fn walk(
    out: &mut RessourceAdresses,
    offset: usize,
    bytes: &[u8],
    depth: usize,
    ptr_raw_data: usize,
    virtual_address: usize,
)
    ensures
        appended(
            *old(out),
            *final(out),
            walk_dir(bytes@, offset as int, depth as nat, virtual_address as int, ptr_raw_data as int),
        ),
    decreases depth,
{
    let ghost s = bytes@;
    let ghost va = virtual_address as int;
    let ghost ptr = ptr_raw_data as int;
    let n = bytes.len();
    if depth == 0 || offset > n || n - offset < 16 {
        out.faults.push(offset);
        proof {
            assert(adresses_view(out.adresses@) =~= adresses_view(old(out).adresses@) + Seq::empty());
            assert(out.faults@ =~= old(out).faults@ + seq![offset]);
        }
        return;
    }
    let dir = read_rsrc_dir(bytes, offset);
    let count = dir.name_entries_number + dir.id_entries_number;
    if count > (n - offset - 16) / 8 {
        assert(offset + 16 + 8 * count > n) by (nonlinear_arith)
            requires
                count > (n - offset - 16) / 8,
                offset + 16 <= n,
        ;
        out.faults.push(offset);
        proof {
            assert(adresses_view(out.adresses@) =~= adresses_view(old(out).adresses@) + Seq::empty());
            assert(out.faults@ =~= old(out).faults@ + seq![offset]);
        }
        return;
    }
    assert(offset + 16 + 8 * count <= n) by (nonlinear_arith)
        requires
            count <= (n - offset - 16) / 8,
            offset + 16 <= n,
    ;
    let base = offset + 16;
    let mut i: usize = 0;
    proof {
        assert(adresses_view(out.adresses@) =~= adresses_view(old(out).adresses@) + Seq::empty());
        assert(out.faults@ =~= old(out).faults@ + Seq::empty());
    }
    while i < count
        invariant
            s == bytes@,
            n == s.len(),
            va == virtual_address as int,
            ptr == ptr_raw_data as int,
            0 < depth,
            count == entry_count(s, offset as int),
            base == offset + 16,
            base + 8 * count <= n,
            i <= count,
            appended(*old(out), *out, walk_entries(s, base as int, i as nat, depth as nat, va, ptr)),
        decreases count - i,
    {
        let ghost before = *out;
        let e = base + 8 * i;
        let field = slice_of(bytes, e + 4, e + 8);
        assert(le32(field@, 0) == le32(s, e + 4));
        if is_a_subdirectory(field) {
            let cleared = msb_to_0(field);
            let child = read_u32(cleared.as_slice(), 0) as usize;
            walk(out, child, bytes, depth - 1, ptr_raw_data, virtual_address);
        } else {
            let f = read_u32(field, 0) as usize;
            if f > n || n - f < 16 {
                out.faults.push(f);
                proof {
                    assert(adresses_view(out.adresses@) =~= adresses_view(before.adresses@) + Seq::empty());
                }
            } else {
                let entry = read_data_entry(bytes, f);
                let rva = entry.data_rva;
                if rva < virtual_address || rva - virtual_address > usize::MAX - ptr_raw_data {
                    out.faults.push(f);
                    proof {
                        assert(adresses_view(out.adresses@) =~= adresses_view(before.adresses@) + Seq::empty());
                    }
                } else {
                    let cp = read_u16(entry.codepage, 0);
                    assert(le16(entry.codepage@, 0) == le16(s, f + 8));
                    let data = RessourceAdress {
                        size: entry.size,
                        address: rva - virtual_address + ptr_raw_data,
                        codepage: match_codepage(cp),
                    };
                    out.adresses.push(data);
                    proof {
                        assert(adresses_view(out.adresses@) =~= adresses_view(before.adresses@) + seq![adress_view(data)]);
                        assert(out.faults@ =~= before.faults@ + Seq::empty());
                    }
                }
            }
        }
        proof {
            let w0 = walk_entries(s, base as int, i as nat, depth as nat, va, ptr);
            let we = walk_entry(s, e as int, depth as nat, va, ptr);
            assert(walk_entries(s, base as int, (i + 1) as nat, depth as nat, va, ptr) == (w0.0 + we.0, w0.1 + we.1));
            assert(adresses_view(out.adresses@) =~= adresses_view(old(out).adresses@) + (w0.0 + we.0));
            assert(out.faults@ =~= old(out).faults@ + (w0.1 + we.1));
        }
        i += 1;
    }
}

/// Collects, into `rsrc_adresses`, every resource of the directory tree whose
/// root directory lies at `offset` of the `.rsrc` section bytes `bytes`, in
/// walk order: each directory's entries in turn, a subdirectory walked where
/// its entry stands. Each resource's file address is its RVA translated by
/// `data_rva - virtual_address + ptr_raw_data`. A directory deeper than
/// `RSRC_MAX_DEPTH` levels, a directory or data entry outside the section, and
/// an RVA that does not translate are recorded in `faults` instead, and the
/// walk goes on with the next entry. `virtual_size` takes no part in the walk.
pub fn find_rsrc_data_adresses(
    rsrc_adresses: &mut RessourceAdresses,
    offset: usize,
    bytes: &[u8],
    virtual_size: usize,
    ptr_raw_data: usize,
    virtual_address: usize,
)
    ensures
        appended(
            *old(rsrc_adresses),
            *final(rsrc_adresses),
            walk_dir(bytes@, offset as int, RSRC_MAX_DEPTH as nat, virtual_address as int, ptr_raw_data as int),
        ),
{
    walk(rsrc_adresses, offset, bytes, RSRC_MAX_DEPTH, ptr_raw_data, virtual_address);
}

} // verus!
