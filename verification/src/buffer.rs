//! Byte buffers of the `bytes` crate, as the library holds downloaded media.

use vstd::prelude::*;

verus! {

#[verifier::external_type_specification]
#[verifier::external_body]
pub struct ExBuffer(bytes::Bytes);

/// The bytes that a buffer holds, in order.
pub uninterp spec fn bytes_view(buffer: bytes::Bytes) -> Seq<u8>;

/// `Bytes::len`: the number of bytes that the buffer holds.
#[verifier::external_body]
pub(crate) fn buffer_len(buffer: &bytes::Bytes) -> (len: usize)
    ensures
        len == bytes_view(*buffer).len(),
{
    buffer.len()
}

/// `Bytes::slice` with an inclusive range: a buffer of the bytes from index
/// `start` to index `end`, both included. `Bytes::slice` panics on a range
/// that does not lie inside the buffer, so the contract asks for one that
/// does.
#[verifier::external_body]
pub(crate) fn buffer_slice(buffer: &bytes::Bytes, start: usize, end: usize) -> (part: bytes::Bytes)
    requires
        start <= end < bytes_view(*buffer).len(),
    ensures
        bytes_view(part) == bytes_view(*buffer).subrange(start as int, end + 1),
{
    buffer.slice(start..=end)
}

/// `to_vec` on the bytes of the buffer: a vector of the same bytes.
#[verifier::external_body]
pub(crate) fn buffer_to_vec(buffer: &bytes::Bytes) -> (bytes: Vec<u8>)
    ensures
        bytes@ == bytes_view(*buffer),
{
    buffer.to_vec()
}

} // verus!
