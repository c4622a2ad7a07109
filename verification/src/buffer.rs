//! The growable byte buffer of the `bytes` crate, in which packets are put
//! together.

use vstd::prelude::*;

verus! {

#[verifier::external_type_specification]
#[verifier::external_body]
pub struct ExBytesMut(bytes::BytesMut);

/// The bytes that a buffer holds, first to last.
pub uninterp spec fn buffer_bytes(buf: bytes::BytesMut) -> Seq<u8>;

/// The four bytes of a word, most significant first.
pub open spec fn be_bytes(n: u32) -> Seq<u8> {
    seq![(n >> 24) as u8, (n >> 16) as u8, (n >> 8) as u8, n as u8]
}

/// No buffer grows beyond this many bytes.
pub open spec fn max_buffer_len() -> int {
    isize::MAX as int
}

/// Calls `BytesMut::from` on a slice: the new buffer holds a copy of the
/// slice.
#[verifier::external_body]
pub(crate) fn buffer_from(src: &[u8]) -> (buf: bytes::BytesMut)
    ensures
        buffer_bytes(buf) == src@,
{
    bytes::BytesMut::from(src)
}

/// Calls `BufMut::put_u32` on a `BytesMut`: the word is appended in
/// big-endian byte order. The call panics where the buffer cannot grow by
/// four bytes, so such buffers are left out.
#[verifier::external_body]
pub(crate) fn buffer_put_u32(buf: &mut bytes::BytesMut, n: u32)
    requires
        buffer_bytes(*old(buf)).len() + 4 <= max_buffer_len(),
    ensures
        buffer_bytes(*final(buf)) == buffer_bytes(*old(buf)) + be_bytes(n),
{
    bytes::BufMut::put_u32(buf, n)
}

/// Calls `BufMut::put_slice` on a `BytesMut`: the bytes of the slice are
/// appended. The call panics where the buffer cannot grow by the length of
/// the slice, so such buffers are left out.
#[verifier::external_body]
pub(crate) fn buffer_put_slice(buf: &mut bytes::BytesMut, src: &[u8])
    requires
        buffer_bytes(*old(buf)).len() + src@.len() <= max_buffer_len(),
    ensures
        buffer_bytes(*final(buf)) == buffer_bytes(*old(buf)) + src@,
{
    bytes::BufMut::put_slice(buf, src)
}

/// Calls `to_vec` on the bytes of a `BytesMut`: the vector holds a copy of
/// what the buffer holds.
#[verifier::external_body]
pub(crate) fn buffer_to_vec(buf: &bytes::BytesMut) -> (bytes: Vec<u8>)
    ensures
        bytes@ == buffer_bytes(*buf),
{
    buf.to_vec()
}

} // verus!
