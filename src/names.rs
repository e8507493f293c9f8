//! Resolution of section names of the indirect form `/<decimal offset>`
//! through the string table.
use vstd::prelude::*;
use crate::error::DecodeError;
use crate::pe_structure::{Section, SectionTable, StringTable};
use crate::tables::{join_nul, views};

verus! {

/// The ASCII code of `/`, which opens an indirect section name.
pub const SLASH: u8 = 47;

/// Whether `c` is an ASCII decimal digit.
pub open spec fn is_digit(c: u8) -> bool {
    48 <= c <= 57
}

/// Whether `s` is a non-empty run of decimal digits.
pub open spec fn all_digits(s: Seq<u8>) -> bool {
    s.len() > 0 && forall|i: int| 0 <= i < s.len() ==> is_digit(#[trigger] s[i])
}

/// The value of the decimal digits `s`.
pub open spec fn decimal(s: Seq<u8>) -> int
    decreases s.len(),
{
    if s.len() == 0 {
        0
    } else {
        decimal(s.drop_last()) * 10 + (s.last() - 48)
    }
}

/// The bytes of `p` from offset `n` up to the first NUL after it, or to the end.
pub open spec fn string_from(p: Seq<u8>, n: int) -> Seq<u8>
    decreases p.len() - n,
{
    if n < 0 || n >= p.len() || p[n] == 0 {
        Seq::empty()
    } else {
        seq![p[n]] + string_from(p, n + 1)
    }
}

/// Whether a section name is of the indirect form, opening with `/`.
pub open spec fn is_indirect(name: Seq<u8>) -> bool {
    name.len() > 0 && name[0] == SLASH
}

/// What an indirect name stands for in the string-table payload `p`: the
/// string at the byte offset that its digits give, when they are digits and
/// the offset lies inside `p`.
pub open spec fn resolve_spec(name: Seq<u8>, p: Seq<u8>) -> Option<Seq<u8>> {
    let digits = name.subrange(1, name.len() as int);
    if all_digits(digits) && decimal(digits) < p.len() {
        Some(string_from(p, decimal(digits)))
    } else {
        None
    }
}

proof fn lemma_decimal_prefix(s: Seq<u8>, k: int)
    requires
        0 <= k <= s.len(),
        forall|i: int| 0 <= i < s.len() ==> is_digit(#[trigger] s[i]),
    ensures
        decimal(s.subrange(0, k)) <= decimal(s),
    decreases s.len(),
{
    if k < s.len() {
        assert(s.drop_last().subrange(0, k) =~= s.subrange(0, k));
        lemma_decimal_prefix(s.drop_last(), k);
        lemma_decimal_nonneg(s.drop_last());
    } else {
        assert(s.subrange(0, k) =~= s);
    }
}

proof fn lemma_decimal_nonneg(s: Seq<u8>)
    requires
        forall|i: int| 0 <= i < s.len() ==> is_digit(#[trigger] s[i]),
    ensures
        decimal(s) >= 0,
    decreases s.len(),
{
    if s.len() > 0 {
        lemma_decimal_nonneg(s.drop_last());
    }
}

/// The string at byte offset `n` of the string-table payload `payload`.
pub fn string_at(payload: &[u8], n: usize) -> (r: Vec<u8>)
    requires
        n <= payload@.len(),
    ensures
        r@ == string_from(payload@, n as int),
{
    let mut r: Vec<u8> = Vec::new();
    let mut j = n;
    while j < payload.len() && payload[j] != 0
        invariant
            n <= j <= payload@.len(),
            string_from(payload@, n as int) == r@ + string_from(payload@, j as int),
        decreases payload@.len() - j,
    {
        r.push(payload[j]);
        j += 1;
        assert(string_from(payload@, n as int) =~= r@ + string_from(payload@, j as int));
    }
    assert(r@ + string_from(payload@, j as int) =~= r@);
    r
}

/// Resolves one section name against the string-table payload `payload`. A
/// name that does not open with `/` is direct: `Ok(None)`. An indirect name
/// whose digits give an offset inside the payload stands for the string there:
/// `Ok(Some(..))`. An indirect name with a non-numeric suffix or an offset out
/// of range is `MalformedHeader`.
pub fn resolve_section_name(name: &[u8], payload: &[u8]) -> (r: Result<Option<Vec<u8>>, DecodeError>)
    ensures
        !is_indirect(name@) ==> r is Ok && r->Ok_0 is None,
        is_indirect(name@) ==> match resolve_spec(name@, payload@) {
            Some(s) => r is Ok && r->Ok_0 is Some && r->Ok_0->Some_0@ == s,
            None => r == Err::<Option<Vec<u8>>, DecodeError>(DecodeError::MalformedHeader),
        },
{
    if name.len() == 0 || name[0] != SLASH {
        return Ok(None);
    }
    let ghost digits = name@.subrange(1, name@.len() as int);
    let plen = payload.len();
    if name.len() == 1 || plen == 0 {
        proof {
            if forall|k: int| 0 <= k < digits.len() ==> is_digit(#[trigger] digits[k]) {
                lemma_decimal_nonneg(digits);
            }
        }
        return Err(DecodeError::MalformedHeader);
    }
    let mut v: usize = 0;
    let mut i: usize = 1;
    while i < name.len()
        invariant
            1 <= i <= name@.len(),
            is_indirect(name@),
            digits == name@.subrange(1, name@.len() as int),
            plen == payload@.len(),
            forall|k: int| 1 <= k < i ==> is_digit(#[trigger] name@[k]),
            v == decimal(name@.subrange(1, i as int)),
            v < plen,
        decreases name@.len() - i,
    {
        let c = name[i];
        if c < 48 || c > 57 {
            assert(!is_digit(digits[i - 1]));
            return Err(DecodeError::MalformedHeader);
        }
        let d = (c - 48) as usize;
        let ghost pre = name@.subrange(1, i + 1);
        assert(pre.drop_last() =~= name@.subrange(1, i as int));
        assert(pre =~= digits.subrange(0, i as int));
        if v > plen / 10 || d > plen || v * 10 > plen - d || v * 10 + d == plen {
            assert(decimal(pre) >= plen) by (nonlinear_arith)
                requires
                    decimal(pre) == v * 10 + d,
                    v > plen / 10 || d > plen || v * 10 > plen - d || v * 10 + d == plen,
                    d >= 0,
            ;
            proof {
                if forall|k: int| 0 <= k < digits.len() ==> is_digit(#[trigger] digits[k]) {
                    lemma_decimal_prefix(digits, i as int);
                }
            }
            return Err(DecodeError::MalformedHeader);
        }
        v = v * 10 + d;
        i += 1;
    }
    assert(name@.subrange(1, i as int) =~= digits);
    Ok(Some(string_at(payload, v)))
}

/// The name that `name` resolves to against the payload `p`: the string
/// that it stands for, or `name` itself when it is direct or unresolvable.
pub open spec fn resolved_name(name: Seq<u8>, p: Seq<u8>) -> Seq<u8> {
    if is_indirect(name) && resolve_spec(name, p) is Some {
        resolve_spec(name, p)->Some_0
    } else {
        name
    }
}

/// `after` is `before` with its name resolved against `p`.
pub open spec fn renamed(before: Section, after: Section, p: Seq<u8>) -> bool {
    &&& after.name@ == resolved_name(before.name@, p)
    &&& after.virtual_size == before.virtual_size
    &&& after.virtual_address == before.virtual_address
    &&& after.raw_data_size == before.raw_data_size
    &&& after.ptr_to_raw_data == before.ptr_to_raw_data
    &&& after.ptr_to_relocations == before.ptr_to_relocations
    &&& after.ptr_to_linenumbers == before.ptr_to_linenumbers
    &&& after.number_of_relocations == before.number_of_relocations
    &&& after.number_of_linenumbers == before.number_of_linenumbers
    &&& after.characteristics == before.characteristics
    &&& after.raw_data == before.raw_data
}

/// The indices below `k` of the names that are indirect and do not resolve
/// against `p`.
pub open spec fn unresolved_indices(names: Seq<Seq<u8>>, p: Seq<u8>, k: int) -> Seq<usize>
    decreases k,
{
    if k <= 0 {
        Seq::empty()
    } else if is_indirect(names[k - 1]) && resolve_spec(names[k - 1], p) is None {
        unresolved_indices(names, p, k - 1).push((k - 1) as usize)
    } else {
        unresolved_indices(names, p, k - 1)
    }
}

/// The names of a list of sections.
pub open spec fn section_names(secs: Seq<Section>) -> Seq<Seq<u8>> {
    secs.map_values(|s: Section| s.name@)
}

/// Rewrites each indirect section name `/<n>` into the string at byte offset
/// `n` of the string table's payload. A name that cannot be resolved stays as
/// it is and its section's index is returned, in increasing order; all other
/// fields of every section, and the list of sections, stay as they are.
pub fn replace_section_names(string_table: &StringTable, section_table: &mut SectionTable) -> (r: Vec<usize>)
    ensures
        final(section_table).sections@.len() == old(section_table).sections@.len(),
        final(section_table).malformed@ == old(section_table).malformed@,
        forall|i: int|
            0 <= i < final(section_table).sections@.len() ==> renamed(
                #[trigger] old(section_table).sections@[i],
                final(section_table).sections@[i],
                join_nul(views(string_table.strings@)),
            ),
        r@ == unresolved_indices(
            section_names(old(section_table).sections@),
            join_nul(views(string_table.strings@)),
            old(section_table).sections@.len() as int,
        ),
{
    let payload = string_table.payload();
    let ghost p = payload@;
    let mut faults: Vec<usize> = Vec::new();
    let ghost olds = section_table.sections@;
    let mut rest: Vec<Section> = Vec::new();
    std::mem::swap(&mut section_table.sections, &mut rest);
    let mut out: Vec<Section> = Vec::new();
    let n = rest.len();
    let mut i: usize = 0;
    while i < n
        invariant
            p == payload@,
            n == olds.len(),
            i <= n,
            rest@ == olds.subrange(i as int, n as int),
            out@.len() == i,
            forall|j: int| 0 <= j < i ==> renamed(#[trigger] olds[j], out@[j], p),
            faults@ == unresolved_indices(section_names(olds), p, i as int),
        decreases n - i,
    {
        let mut s = rest.remove(0);
        assert(s == olds[i as int]);
        assert(section_names(olds)[i as int] == s.name@);
        match resolve_section_name(s.name.as_slice(), payload.as_slice()) {
            Ok(Some(resolved)) => {
                s.name = resolved;
            },
            Ok(None) => {},
            Err(_) => {
                faults.push(i);
            },
        }
        out.push(s);
        i += 1;
        assert(rest@ =~= olds.subrange(i as int, n as int));
    }
    section_table.sections = out;
    faults
}

} // verus!
