//! Byte strings read as text.
use vstd::prelude::*;
use crate::pe_structure::{Section, Symbol};

verus! {

/// The text that a byte string decodes to as UTF-8, each invalid sequence
/// replaced by U+FFFD.
pub uninterp spec fn utf8_lossy(b: Seq<u8>) -> Seq<char>;

/// Relies on `String::from_utf8_lossy`: the text depends on the bytes alone,
/// and bytes that are all ASCII decode to one character each.
#[verifier::external_body]
fn from_utf8_lossy(b: &[u8]) -> (r: String)
    ensures
        r@ == utf8_lossy(b@),
        (forall|i: int| 0 <= i < b@.len() ==> #[trigger] b@[i] < 128) ==> r@ == b@.map_values(
            |c: u8| c as char,
        ),
{
    String::from_utf8_lossy(b).into_owned()
}

/// `bytes` decoded as UTF-8, each invalid sequence replaced by U+FFFD.
pub fn lossy_text(bytes: &[u8]) -> (r: String)
    ensures
        r@ == utf8_lossy(bytes@),
        (forall|i: int| 0 <= i < bytes@.len() ==> #[trigger] bytes@[i] < 128) ==> r@
            == bytes@.map_values(|c: u8| c as char),
{
    from_utf8_lossy(bytes)
}

impl<'a> Section<'a> {
    /// The section's name as text.
    pub fn name_text(&self) -> (r: String)
        ensures
            r@ == utf8_lossy(self.name@),
    {
        lossy_text(self.name.as_slice())
    }
}

impl<'a> Symbol<'a> {
    /// The symbol's name as text.
    pub fn name_text(&self) -> (r: String)
        ensures
            r@ == utf8_lossy(self.name@),
    {
        lossy_text(self.name.as_slice())
    }
}

} // verus!
