//! Little-endian field reads and small byte-sequence helpers.
use vstd::prelude::*;
use vstd::slice::slice_subrange;

verus! {

/// The unsigned 16-bit little-endian value stored at `s[i..i + 2]`.
pub open spec fn le16(s: Seq<u8>, i: int) -> int {
    s[i] as int + s[i + 1] as int * 256
}

/// The unsigned 32-bit little-endian value stored at `s[i..i + 4]`.
pub open spec fn le32(s: Seq<u8>, i: int) -> int {
    le16(s, i) + le16(s, i + 2) * 65536
}

/// `s` in reverse order.
pub open spec fn reversed<T>(s: Seq<T>) -> Seq<T> {
    Seq::new(s.len(), |i: int| s[s.len() - 1 - i])
}

/// Reads the little-endian `u16` at byte offset `i`.
pub fn read_u16(b: &[u8], i: usize) -> (r: u16)
    requires
        i + 2 <= b@.len(),
    ensures
        r as int == le16(b@, i as int),
{
    let _n = b.len();
    let lo = b[i] as u16;
    let hi = b[i + 1] as u16;
    assert(hi * 256 <= 65280) by (nonlinear_arith)
        requires
            hi <= 255,
    ;
    lo + hi * 256
}

/// Reads the little-endian `u32` at byte offset `i`.
pub fn read_u32(b: &[u8], i: usize) -> (r: u32)
    requires
        i + 4 <= b@.len(),
    ensures
        r as int == le32(b@, i as int),
{
    let _n = b.len();
    let lo = read_u16(b, i) as u32;
    let hi = read_u16(b, i + 2) as u32;
    assert(hi * 65536 <= 4294901760) by (nonlinear_arith)
        requires
            hi <= 65535,
    ;
    lo + hi * 65536
}

/// A copy of `slice` with its elements in reverse order.
pub fn reverse_bytes<T: Copy>(slice: &[T]) -> (r: Vec<T>)
    ensures
        r@ == reversed(slice@),
{
    let mut r: Vec<T> = Vec::new();
    let n = slice.len();
    let mut i: usize = 0;
    while i < n
        invariant
            n == slice@.len(),
            i <= n,
            r@ == reversed(slice@).subrange(0, i as int),
        decreases n - i,
    {
        r.push(slice[n - 1 - i]);
        i += 1;
        assert(r@ =~= reversed(slice@).subrange(0, i as int));
    }
    assert(r@ =~= reversed(slice@));
    r
}

/// The bytes of `b` in `start..end`, as a borrowed view.
pub fn slice_of<'a>(b: &'a [u8], start: usize, end: usize) -> (r: &'a [u8])
    requires
        start <= end <= b@.len(),
    ensures
        r@ == b@.subrange(start as int, end as int),
{
    slice_subrange(b, start, end)
}

/// Whether `a` and `b` hold the same bytes.
pub fn bytes_eq(a: &[u8], b: &[u8]) -> (r: bool)
    ensures
        r == (a@ == b@),
{
    if a.len() != b.len() {
        return false;
    }
    let mut i: usize = 0;
    while i < a.len()
        invariant
            a@.len() == b@.len(),
            i <= a@.len(),
            forall|j: int| 0 <= j < i ==> a@[j] == b@[j],
        decreases a@.len() - i,
    {
        if a[i] != b[i] {
            return false;
        }
        i += 1;
    }
    assert(a@ =~= b@);
    true
}

} // verus!
