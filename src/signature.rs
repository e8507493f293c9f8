//! Container-format sniffing by magic bytes.
use vstd::prelude::*;
use vstd::string::StringExecFns;

verus! {

/// Width of the windows in which the buffer is scanned for a magic sequence.
pub const WINDOW: usize = 1024;

/// A container format recognised by its leading magic bytes.
#[derive(Debug, Clone, Copy, PartialEq, Eq, Structural)]
pub enum FileFormat {
    DosMz,
    Elf,
    MachO32,
    MachO64,
    MachO32Reversed,
    MachO64Reversed,
    JavaClassOrFat,
    Unknown,
}

/// Number of entries in the signature table.
pub const SIGNATURE_COUNT: usize = 7;

/// The signature table, in the order in which entries are tried.
pub open spec fn table_entry(i: int) -> FileFormat {
    if i == 0 {
        FileFormat::DosMz
    } else if i == 1 {
        FileFormat::Elf
    } else if i == 2 {
        FileFormat::MachO32
    } else if i == 3 {
        FileFormat::MachO64
    } else if i == 4 {
        FileFormat::MachO32Reversed
    } else if i == 5 {
        FileFormat::MachO64Reversed
    } else {
        FileFormat::JavaClassOrFat
    }
}

/// The magic bytes that identify each format.
pub open spec fn magic_of(f: FileFormat) -> Seq<u8> {
    match f {
        FileFormat::DosMz => seq![0x4Du8, 0x5A],
        FileFormat::Elf => seq![0x7Fu8, 0x45, 0x4C, 0x46],
        FileFormat::MachO32 => seq![0xFEu8, 0xED, 0xFA, 0xCE],
        FileFormat::MachO64 => seq![0xFEu8, 0xED, 0xFA, 0xCF],
        FileFormat::MachO32Reversed => seq![0xCEu8, 0xFA, 0xED, 0xFE],
        FileFormat::MachO64Reversed => seq![0xCFu8, 0xFA, 0xED, 0xFE],
        FileFormat::JavaClassOrFat => seq![0xCAu8, 0xFE, 0xBA, 0xBE],
        FileFormat::Unknown => Seq::empty(),
    }
}

/// The human-readable tag of each format.
pub open spec fn format_name(f: FileFormat) -> Seq<char> {
    match f {
        FileFormat::DosMz => "DOS MZ executable"@,
        FileFormat::Elf => "Executable and Linkable Format (ELF)"@,
        FileFormat::MachO32 => "Mach-O binary (32-bit)"@,
        FileFormat::MachO64 => "Mach-O binary (64-bit)"@,
        FileFormat::MachO32Reversed => "Mach-O binary (reverse byte ordering scheme, 32-bit)"@,
        FileFormat::MachO64Reversed => "Mach-O binary (reverse byte ordering scheme, 64-bit)"@,
        FileFormat::JavaClassOrFat => "Java class file, Mach-O Fat Binary"@,
        FileFormat::Unknown => "unknown"@,
    }
}

impl FileFormat {
    /// The tag naming this format.
    pub fn name(&self) -> (r: &'static str)
        ensures
            r@ == format_name(*self),
    {
        match self {
            FileFormat::DosMz => "DOS MZ executable",
            FileFormat::Elf => "Executable and Linkable Format (ELF)",
            FileFormat::MachO32 => "Mach-O binary (32-bit)",
            FileFormat::MachO64 => "Mach-O binary (64-bit)",
            FileFormat::MachO32Reversed => "Mach-O binary (reverse byte ordering scheme, 32-bit)",
            FileFormat::MachO64Reversed => "Mach-O binary (reverse byte ordering scheme, 64-bit)",
            FileFormat::JavaClassOrFat => "Java class file, Mach-O Fat Binary",
            FileFormat::Unknown => "unknown",
        }
    }
}

/// True when the magic bytes of `f` stand at offset `start` of `s`.
pub open spec fn matches_at(s: Seq<u8>, start: int, f: FileFormat) -> bool {
    &&& start + magic_of(f).len() <= s.len()
    &&& s.subrange(start, start + magic_of(f).len()) == magic_of(f)
}

/// The format found by the first `k` table entries in the window starting at
/// `start`: the last of them whose magic bytes match wins.
pub open spec fn last_match(s: Seq<u8>, start: int, k: int) -> FileFormat
    decreases k,
{
    if k <= 0 {
        FileFormat::Unknown
    } else if matches_at(s, start, table_entry(k - 1)) {
        table_entry(k - 1)
    } else {
        last_match(s, start, k - 1)
    }
}

/// The format recognised in the window starting at `start`.
pub open spec fn window_format(s: Seq<u8>, start: int) -> FileFormat {
    last_match(s, start, SIGNATURE_COUNT as int)
}

/// The format recognised over the windows that start before `end`, `end`
/// being a multiple of the window width: a later window overrides an earlier.
pub open spec fn sniff_before(s: Seq<u8>, end: int) -> FileFormat
    decreases end,
{
    if end < WINDOW {
        FileFormat::Unknown
    } else {
        let m = window_format(s, end - WINDOW);
        if m != FileFormat::Unknown {
            m
        } else {
            sniff_before(s, end - WINDOW)
        }
    }
}

/// The end of the last window over a buffer of `n` bytes.
pub open spec fn windows_end(n: int) -> int {
    ((n + WINDOW - 1) / WINDOW as int) * WINDOW
}

/// The format of a whole buffer.
pub open spec fn sniff_spec(s: Seq<u8>) -> FileFormat {
    sniff_before(s, windows_end(s.len() as int))
}

/// The magic bytes of `f`.
pub fn magic(f: FileFormat) -> (r: Vec<u8>)
    ensures
        r@ == magic_of(f),
{
    let r = match f {
        FileFormat::DosMz => vec![0x4Du8, 0x5A],
        FileFormat::Elf => vec![0x7Fu8, 0x45, 0x4C, 0x46],
        FileFormat::MachO32 => vec![0xFEu8, 0xED, 0xFA, 0xCE],
        FileFormat::MachO64 => vec![0xFEu8, 0xED, 0xFA, 0xCF],
        FileFormat::MachO32Reversed => vec![0xCEu8, 0xFA, 0xED, 0xFE],
        FileFormat::MachO64Reversed => vec![0xCFu8, 0xFA, 0xED, 0xFE],
        FileFormat::JavaClassOrFat => vec![0xCAu8, 0xFE, 0xBA, 0xBE],
        FileFormat::Unknown => Vec::new(),
    };
    assert(r@ =~= magic_of(f));
    r
}

/// The `i`-th entry of the signature table.
pub fn signature_entry(i: usize) -> (r: FileFormat)
    requires
        i < SIGNATURE_COUNT,
    ensures
        r == table_entry(i as int),
{
    if i == 0 {
        FileFormat::DosMz
    } else if i == 1 {
        FileFormat::Elf
    } else if i == 2 {
        FileFormat::MachO32
    } else if i == 3 {
        FileFormat::MachO64
    } else if i == 4 {
        FileFormat::MachO32Reversed
    } else if i == 5 {
        FileFormat::MachO64Reversed
    } else {
        FileFormat::JavaClassOrFat
    }
}

/// Whether the magic bytes of `f` stand at offset `start` of `bytes`.
pub fn magic_at(bytes: &[u8], start: usize, f: FileFormat) -> (r: bool)
    requires
        start <= bytes@.len(),
    ensures
        r == matches_at(bytes@, start as int, f),
{
    let m = magic(f);
    let n = bytes.len();
    if m.len() > n - start {
        return false;
    }
    let mut i: usize = 0;
    while i < m.len()
        invariant
            n == bytes@.len(),
            m@ == magic_of(f),
            start + m@.len() <= n,
            i <= m@.len(),
            forall|j: int| 0 <= j < i ==> bytes@[start + j] == m@[j],
        decreases m@.len() - i,
    {
        if bytes[start + i] != m[i] {
            assert(bytes@.subrange(start as int, start + m@.len())[i as int] != m@[i as int]);
            return false;
        }
        i += 1;
    }
    assert(bytes@.subrange(start as int, start + m@.len()) =~= m@);
    true
}

/// The format recognised in the window starting at `start`.
pub fn sniff_window(bytes: &[u8], start: usize) -> (r: FileFormat)
    requires
        start <= bytes@.len(),
    ensures
        r == window_format(bytes@, start as int),
{
    let mut found = FileFormat::Unknown;
    let mut i: usize = 0;
    while i < SIGNATURE_COUNT
        invariant
            start <= bytes@.len(),
            i <= SIGNATURE_COUNT,
            found == last_match(bytes@, start as int, i as int),
        decreases SIGNATURE_COUNT - i,
    {
        let entry = signature_entry(i);
        if magic_at(bytes, start, entry) {
            found = entry;
        }
        i += 1;
    }
    found
}

/// Identifies the container format of a whole buffer. The buffer is scanned
/// in windows of `WINDOW` bytes; within a window the last table entry whose
/// magic bytes open the window wins, and a later window overrides an earlier.
/// A buffer in which no window opens with a known magic is `Unknown`.
pub fn sniff(bytes: &[u8]) -> (r: FileFormat)
    ensures
        r == sniff_spec(bytes@),
{
    let n = bytes.len();
    let mut found = FileFormat::Unknown;
    let mut off: usize = 0;
    let ghost mut w: int = 0;
    while off < n
        invariant
            n == bytes@.len(),
            off == w * WINDOW,
            0 <= w,
            off == 0 || off - WINDOW < n,
            found == sniff_before(bytes@, off as int),
        decreases n - off,
    {
        let m = sniff_window(bytes, off);
        if m != FileFormat::Unknown {
            found = m;
        }
        let step: usize = if n - off < WINDOW { n - off } else { WINDOW };
        if step < WINDOW {
            // The last, shorter window: the scan ends here.
            assert(sniff_before(bytes@, off + WINDOW) == found);
            proof {
                lemma_windows_end(n as int, w + 1);
            }
            return found;
        }
        off = off + step;
        proof {
            w = w + 1;
        }
    }
    proof {
        lemma_windows_end(n as int, w);
    }
    found
}

/// A multiple of the window width that covers `n` bytes with less than one
/// window to spare is the end of the last window.
proof fn lemma_windows_end(n: int, w: int)
    requires
        0 <= n,
        0 <= w,
        n <= w * WINDOW,
        w * WINDOW < n + WINDOW,
    ensures
        windows_end(n) == w * WINDOW,
{
    assert((n + WINDOW - 1) / (WINDOW as int) == w) by (nonlinear_arith)
        requires
            0 <= n,
            0 <= w,
            n <= w * 1024,
            w * 1024 < n + 1024,
    ;
}

/// The tag of the container format of a whole buffer, `"unknown"` when no
/// known magic opens any window.
pub fn get_sign(bytes: &[u8]) -> (r: String)
    ensures
        r@ == format_name(sniff_spec(bytes@)),
{
    let f = sniff(bytes);
    String::from_str(f.name())
}

} // verus!
