//! Field codec helpers: fixed-width big-endian reads and length-prefixed
//! strings, the primitives every section of a frame is built from.

use vstd::prelude::*;
use vstd::string::StringSliceAdditionalSpecFns;
use vstd::utf8::{decode_utf8, encode_utf8, valid_utf8};

use crate::bytebuf::{bm_bytes, bm_get, bm_new, bm_put_slice, bm_put_u8};
use crate::spec_be_u16;

verus! {

/// Reads the big-endian 16-bit integer at the given offset.
pub fn read_u16_be(src: &bytes::BytesMut, offset: usize) -> (r: u16)
    requires
        offset + 2 <= bm_bytes(*src).len(),
        offset + 2 <= usize::MAX,
    ensures
        r == spec_be_u16(bm_bytes(*src)[offset as int], bm_bytes(*src)[offset + 1]),
{
    let hi = bm_get(src, offset);
    let lo = bm_get(src, offset + 1);
    (hi as u16) * 256 + (lo as u16)
}

/// Encodes a string as a 1-byte length followed by its raw bytes. The
/// caller checks beforehand that the string fits in 255 bytes.
pub fn sample_id_field_length(sample_id: &str) -> (r: bytes::BytesMut)
    requires
        sample_id.spec_bytes().len() <= 255,
    ensures
        bm_bytes(r) == seq![sample_id.spec_bytes().len() as u8] + sample_id.spec_bytes(),
{
    let mut dst = bm_new();
    let len = sample_id.len();
    bm_put_u8(&mut dst, len as u8);
    bm_put_slice(&mut dst, sample_id.as_bytes());
    proof {
        assert(bm_bytes(dst) =~= seq![sample_id.spec_bytes().len() as u8]
            + sample_id.spec_bytes());
    }
    dst
}

/// Relies on String::from_utf8: returns the string holding exactly the
/// given bytes when they are valid UTF-8, and nothing otherwise.
#[verifier::external_body]
pub(crate) fn string_from_utf8(v: Vec<u8>) -> (r: Option<String>)
    ensures
        match r {
            Some(s) => valid_utf8(v@) && encode_utf8(s@) == v@ && s@ == decode_utf8(v@),
            None => !valid_utf8(v@),
        },
{
    match String::from_utf8(v) {
        Ok(s) => Some(s),
        Err(_) => None,
    }
}

/// Copies `count` bytes of the buffer starting at `offset` into a vector.
pub fn bytes_range_to_vec(src: &bytes::BytesMut, offset: usize, count: usize) -> (r: Vec<u8>)
    requires
        offset + count <= bm_bytes(*src).len(),
        offset + count <= usize::MAX,
    ensures
        r@ == bm_bytes(*src).subrange(offset as int, offset + count),
{
    let mut out: Vec<u8> = Vec::new();
    let mut i: usize = 0;
    while i < count
        invariant
            i <= count,
            offset + count <= bm_bytes(*src).len(),
            offset + count <= usize::MAX,
            out@ == bm_bytes(*src).subrange(offset as int, offset + i),
        decreases count - i,
    {
        let b = bm_get(src, offset + i);
        out.push(b);
        proof {
            assert(bm_bytes(*src).subrange(offset as int, offset + i + 1) =~= bm_bytes(
                *src,
            ).subrange(offset as int, offset + i).push(bm_bytes(*src)[offset + i]));
        }
        i = i + 1;
    }
    proof {
        assert(out@ =~= bm_bytes(*src).subrange(offset as int, offset + count));
    }
    out
}

} // verus!
