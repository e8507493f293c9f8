//! The fixed fields of a Java class file.
use vstd::prelude::*;

verus! {

/// The fixed fields of a Java class file; the variable-length tables between
/// them are not decoded.
#[derive(Debug)]
pub struct ClassFile<'a> {
    pub magic: &'a [u8],
    pub minor_version: &'a [u8],
    pub major_version: &'a [u8],
    pub pool_count: &'a [u8],
    pub access_flags: &'a [u8],
    pub this_class: &'a [u8],
    pub super_class: &'a [u8],
    pub interfaces_count: &'a [u8],
    pub fields_count: &'a [u8],
    pub method_count: &'a [u8],
    pub attributes_count: &'a [u8],
}

} // verus!
