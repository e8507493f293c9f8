//! The ways in which decoding can fail.
use vstd::prelude::*;

verus! {

/// Why a decoding stage produced no value.
#[derive(Debug, Clone, Copy, PartialEq, Eq, Structural)]
pub enum DecodeError {
    /// The buffer carries no recognised signature; decoding stops at the tag.
    UnsupportedFormat,
    /// A fixed-offset or length-prefixed read would leave the buffer, or a
    /// field is inconsistent with the others.
    MalformedHeader,
    /// The buffer is too short even for the DOS header.
    IrrecoverableInput,
}

} // verus!
