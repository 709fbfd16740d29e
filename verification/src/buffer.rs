//! The growable byte buffer in which an outgoing frame is assembled.
//!
//! The buffer is `bytes::BytesMut`. Verus does not look inside it: what is said
//! here of its operations is taken from the source of the `bytes` crate and is
//! believed, not proved.

use bytes::BufMut;
use bytes::BytesMut;
use vstd::prelude::*;

verus! {

/// `bytes::BytesMut`, a unique, growable view of a run of bytes in memory.
#[verifier::external_type_specification]
#[verifier::external_body]
pub struct ExBytesMut(bytes::BytesMut);

/// The bytes that a buffer holds, from the first written to the last.
pub uninterp spec fn buffer_bytes(buffer: BytesMut) -> Seq<u8>;

/// `BytesMut::with_capacity`: a new buffer that holds no bytes, whatever room
/// was asked for. The allocation behind it is a `Vec`, which cannot be asked
/// for more than `isize::MAX` bytes.
#[verifier::external_body]
pub(crate) fn buffer_with_capacity(capacity: usize) -> (buffer: BytesMut)
    requires
        capacity <= isize::MAX,
    ensures
        buffer_bytes(buffer) == Seq::<u8>::empty(),
{
    BytesMut::with_capacity(capacity)
}

/// `BufMut::put_u16` on a `BytesMut`: appends the two bytes of `n`, the high
/// byte first, growing the buffer where it must.
#[verifier::external_body]
pub(crate) fn buffer_put_u16(buffer: &mut BytesMut, n: u16)
    requires
        buffer_bytes(*old(buffer)).len() + 2 <= isize::MAX,
    ensures
        buffer_bytes(*final(buffer)) == buffer_bytes(*old(buffer)) + seq![
            (n / 256) as u8,
            (n % 256) as u8,
        ],
{
    buffer.put_u16(n)
}

/// `Extend::extend` on a `BytesMut`, fed from a slice: appends the bytes of the
/// slice in their order, growing the buffer where it must.
#[verifier::external_body]
pub(crate) fn buffer_extend(buffer: &mut BytesMut, bytes: &[u8])
    requires
        buffer_bytes(*old(buffer)).len() + bytes@.len() <= isize::MAX,
    ensures
        buffer_bytes(*final(buffer)) == buffer_bytes(*old(buffer)) + bytes@,
{
    buffer.extend(bytes)
}

/// `BytesMut::freeze`: the buffer made immutable, holding the same bytes in
/// the same order. They are handed back as a vector.
#[verifier::external_body]
pub(crate) fn buffer_freeze(buffer: BytesMut) -> (bytes: Vec<u8>)
    ensures
        bytes@ == buffer_bytes(buffer),
{
    buffer.freeze().to_vec()
}

} // verus!
