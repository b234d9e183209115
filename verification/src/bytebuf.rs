//! Trusted boundary around the growable byte buffer of the `bytes` crate.
//!
//! Every encoded frame is assembled in, and every received frame is read
//! from, a `bytes::BytesMut`. The buffer's contents are modelled by the
//! uninterpreted sequence [`bm_bytes`]; each wrapper below states, over that
//! model, what the one `bytes` operation in its body does.

use vstd::prelude::*;

use crate::spec_u16_be;

verus! {

#[verifier::external_type_specification]
#[verifier::external_body]
pub struct ExBytesMut(bytes::BytesMut);

/// The bytes held by a buffer, in order.
pub uninterp spec fn bm_bytes(b: bytes::BytesMut) -> Seq<u8>;

/// Relies on bytes::BytesMut::new: a fresh buffer holds no bytes.
#[verifier::external_body]
pub(crate) fn bm_new() -> (r: bytes::BytesMut)
    ensures
        bm_bytes(r) == Seq::<u8>::empty(),
{
    bytes::BytesMut::new()
}

/// Relies on bytes::BytesMut::len: the number of bytes held.
#[verifier::external_body]
pub(crate) fn bm_len(b: &bytes::BytesMut) -> (r: usize)
    ensures
        r == bm_bytes(*b).len(),
{
    b.len()
}

/// Relies on the Deref of bytes::BytesMut to a byte slice: indexing reads
/// the byte at that position.
#[verifier::external_body]
pub(crate) fn bm_get(b: &bytes::BytesMut, i: usize) -> (r: u8)
    requires
        i < bm_bytes(*b).len(),
    ensures
        r == bm_bytes(*b)[i as int],
{
    b[i]
}

/// Relies on bytes::BufMut::put_u8 for BytesMut: appends the byte. The
/// length bound keeps the call inside the capacity the crate documents.
#[verifier::external_body]
pub(crate) fn bm_put_u8(b: &mut bytes::BytesMut, v: u8)
    requires
        bm_bytes(*old(b)).len() < 0x7fff_ffff,
    ensures
        bm_bytes(*final(b)) == bm_bytes(*old(b)).push(v),
{
    bytes::BufMut::put_u8(b, v)
}

/// Relies on bytes::BufMut::put_u16 for BytesMut: appends the value's two
/// big-endian bytes, high byte first.
#[verifier::external_body]
pub(crate) fn bm_put_u16(b: &mut bytes::BytesMut, v: u16)
    requires
        bm_bytes(*old(b)).len() < 0x7fff_ffff,
    ensures
        bm_bytes(*final(b)) == bm_bytes(*old(b)) + spec_u16_be(v),
{
    bytes::BufMut::put_u16(b, v)
}

/// Relies on bytes::BytesMut::extend_from_slice: appends the slice's bytes.
#[verifier::external_body]
pub(crate) fn bm_put_slice(b: &mut bytes::BytesMut, s: &[u8])
    requires
        bm_bytes(*old(b)).len() + s@.len() < 0x7fff_ffff,
    ensures
        bm_bytes(*final(b)) == bm_bytes(*old(b)) + s@,
{
    b.extend_from_slice(s)
}

/// Relies on bytes::BytesMut::extend_from_slice and the Deref of BytesMut
/// to a byte slice: appends the source buffer's bytes.
#[verifier::external_body]
pub(crate) fn bm_append(b: &mut bytes::BytesMut, src: &bytes::BytesMut)
    requires
        bm_bytes(*old(b)).len() + bm_bytes(*src).len() < 0x7fff_ffff,
    ensures
        bm_bytes(*final(b)) == bm_bytes(*old(b)) + bm_bytes(*src),
{
    b.extend_from_slice(src)
}

} // verus!
