use vstd::prelude::*;

use bytes::BufMut;

verus! {

#[verifier::external_type_specification]
#[verifier::external_body]
pub struct ExBytes(bytes::Bytes);

#[verifier::external_type_specification]
#[verifier::external_body]
pub struct ExBytesMut(bytes::BytesMut);

/// The byte sequence a frozen payload holds.
pub uninterp spec fn bytes_contents(b: bytes::Bytes) -> Seq<u8>;

/// The byte sequence a growable buffer holds.
pub uninterp spec fn buffer_contents(b: bytes::BytesMut) -> Seq<u8>;

/// Relies on bytes::BytesMut::with_capacity: the new buffer holds no data,
/// whatever room it reserved.
#[verifier::external_body]
pub(crate) fn fresh_buffer(capacity: usize) -> (b: bytes::BytesMut)
    ensures
        buffer_contents(b) == Seq::<u8>::empty(),
{
    bytes::BytesMut::with_capacity(capacity)
}

/// Relies on bytes::BufMut::put_u8 on BytesMut: appends the one byte at the
/// end, growing the buffer as needed.
#[verifier::external_body]
pub(crate) fn append_byte(b: &mut bytes::BytesMut, v: u8)
    ensures
        buffer_contents(*final(b)) == buffer_contents(*old(b)).push(v),
{
    b.put_u8(v);
}

/// Relies on bytes::BytesMut::freeze: the frozen payload holds exactly the
/// bytes the buffer held.
#[verifier::external_body]
pub(crate) fn freeze_buffer(b: bytes::BytesMut) -> (r: bytes::Bytes)
    ensures
        bytes_contents(r) == buffer_contents(b),
{
    b.freeze()
}

/// Relies on rand::random: one byte from the thread-local generator. The
/// value is random, so nothing is promised of it.
#[verifier::external_body]
pub(crate) fn random_byte() -> u8 {
    rand::random::<u8>()
}

} // verus!
