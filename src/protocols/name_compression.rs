use vstd::prelude::*;
use crate::name::Name;

verus! {

/// Compression of the names in an encoded message into pointers to earlier
/// occurrences. Not supported: every name is written in full, so this
/// always answers `None`.
pub fn compress_name(message: &Vec<u8>) -> (r: Option<Vec<u8>>)
    ensures
        r is None,
{
    None
}

/// Reading a possibly compressed name at `offset` of an encoded message. Not
/// supported: messages are not decoded, so this always answers `None`.
pub fn decompress_name(message: &Vec<u8>, offset: usize) -> (r: Option<Name>)
    ensures
        r is None,
{
    None
}

} // verus!
