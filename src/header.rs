//! The contract that every layer's decoder meets.

use vstd::prelude::*;
use crate::error::DecodeError;

verus! {

/// The big-endian 16-bit value of the byte pair `hi`, `lo`.
pub open spec fn be_u16(hi: u8, lo: u8) -> u16 {
    (hi * 256 + lo) as u16
}

/// Reads the big-endian 16-bit value at `data[i]`, `data[i + 1]`.
pub(crate) fn read_be_u16(data: &Vec<u8>, i: usize) -> (r: u16)
    requires
        i + 1 < data.len(),
    ensures
        r == be_u16(data@[i as int], data@[i + 1]),
{
    (data[i] as u16) * 256 + data[i + 1] as u16
}

/// A protocol header that is decoded from the front of a buffer.
///
/// `decode` takes the buffer and hands back the header, or why it could not
/// be decoded, together with what follows the header. On success exactly
/// `header_len` bytes are taken off the front; on failure the buffer comes
/// back unchanged.
pub trait Header: Sized {
    /// Whether `data` starts with a header of this layer that decodes.
    spec fn accepts(data: Seq<u8>) -> bool;

    /// How many bytes a successful decode of `data` consumes.
    spec fn header_len(data: Seq<u8>) -> nat;

    fn decode(data: Vec<u8>) -> (r: (Result<Self, DecodeError>, Vec<u8>))
        ensures
            r.0 is Ok <==> Self::accepts(data@),
            r.0 is Err ==> r.1@ == data@,
            r.0 is Ok ==> Self::header_len(data@) <= data@.len() && r.1@ == data@.subrange(
                Self::header_len(data@) as int,
                data@.len() as int,
            ),
            r.0 is Ok ==> Self::header_len(data@) + r.1@.len() == data@.len(),
    ;
}

} // verus!
