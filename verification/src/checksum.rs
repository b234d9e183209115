//! The 16-bit additive checksum that protects a frame's header and payload.
//!
//! The wire contract fixes the algorithm once: the checksum of a byte
//! sequence is the sum of its bytes reduced modulo 2^16. Because a single
//! changed byte moves the sum by less than 2^16 and by more than zero, the
//! checksum detects every single-byte (so in particular every single-bit)
//! corruption; see [`lemma_checksum_detects_single_byte_change`].

use vstd::arithmetic::div_mod::{
    lemma_add_mod_noop, lemma_mod_equivalence, lemma_mod_multiples_basic, lemma_small_mod,
};
use vstd::prelude::*;

use crate::bytebuf::{bm_bytes, bm_get};

verus! {

/// Sum of the bytes of a sequence, unreduced.
pub open spec fn byte_sum(s: Seq<u8>) -> int
    decreases s.len(),
{
    if s.len() == 0 {
        0
    } else {
        byte_sum(s.drop_last()) + s.last()
    }
}

/// The checksum of a byte sequence: its byte sum modulo 2^16.
pub open spec fn checksum_of(s: Seq<u8>) -> u16 {
    (byte_sum(s) % 0x10000) as u16
}

/// The byte sum never goes negative and grows by at most 255 per byte.
pub proof fn lemma_byte_sum_bounds(s: Seq<u8>)
    ensures
        0 <= byte_sum(s) <= 255 * s.len(),
    decreases s.len(),
{
    if s.len() > 0 {
        lemma_byte_sum_bounds(s.drop_last());
    }
}

/// Appending one byte adds that byte to the sum.
pub proof fn lemma_byte_sum_push(s: Seq<u8>, b: u8)
    ensures
        byte_sum(s.push(b)) == byte_sum(s) + b,
{
    assert(s.push(b).drop_last() =~= s);
}

/// Two sequences that agree everywhere but at one position have byte sums
/// that differ by exactly the difference of the bytes there.
pub proof fn lemma_byte_sum_single_change(s1: Seq<u8>, s2: Seq<u8>, i: int)
    requires
        s1.len() == s2.len(),
        0 <= i < s1.len(),
        forall|j: int| 0 <= j < s1.len() && j != i ==> s1[j] == s2[j],
    ensures
        byte_sum(s1) - byte_sum(s2) == s1[i] - s2[i],
    decreases s1.len(),
{
    if i == s1.len() - 1 {
        assert(s1.drop_last() =~= s2.drop_last());
    } else {
        lemma_byte_sum_single_change(s1.drop_last(), s2.drop_last(), i);
    }
}

/// Flipping any single byte of the protected region changes the checksum:
/// the sum moves by a nonzero amount whose magnitude is under 2^16, so its
/// residue cannot stay the same.
pub proof fn lemma_checksum_detects_single_byte_change(s1: Seq<u8>, s2: Seq<u8>, i: int)
    requires
        s1.len() == s2.len(),
        0 <= i < s1.len(),
        s1[i] != s2[i],
        forall|j: int| 0 <= j < s1.len() && j != i ==> s1[j] == s2[j],
    ensures
        checksum_of(s1) != checksum_of(s2),
{
    lemma_byte_sum_single_change(s1, s2, i);
    let a = byte_sum(s1);
    let b = byte_sum(s2);
    let d = a - b;
    assert(-255 <= d <= 255 && d != 0);
    if checksum_of(s1) == checksum_of(s2) {
        lemma_byte_sum_bounds(s1);
        lemma_byte_sum_bounds(s2);
        assert(a % 0x10000 == b % 0x10000);
        lemma_mod_equivalence(a, b, 0x10000);
        assert(d % 0x10000 == 0);
        if d > 0 {
            lemma_small_mod(d as nat, 0x10000);
        } else {
            lemma_mod_multiples_basic(1, 0x10000);
            lemma_add_mod_noop(0x10000, d, 0x10000);
            lemma_small_mod((0x10000 + d) as nat, 0x10000);
            assert((0x10000 + d) % 0x10000 == 0x10000 + d);
        }
        assert(false);
    }
}

/// Computes the checksum over the first `end` bytes of the buffer.
pub fn compute_checksum(src: &bytes::BytesMut, end: usize) -> (r: u16)
    requires
        end <= bm_bytes(*src).len(),
    ensures
        r == checksum_of(bm_bytes(*src).take(end as int)),
{
    let mut sum: u16 = 0;
    let mut i: usize = 0;
    proof {
        assert(bm_bytes(*src).take(0) =~= Seq::<u8>::empty());
    }
    while i < end
        invariant
            i <= end,
            end <= bm_bytes(*src).len(),
            sum == checksum_of(bm_bytes(*src).take(i as int)),
        decreases end - i,
    {
        let b = bm_get(src, i);
        proof {
            let s = bm_bytes(*src);
            assert(s.take(i + 1) =~= s.take(i as int).push(s[i as int]));
            lemma_byte_sum_push(s.take(i as int), s[i as int]);
            lemma_byte_sum_bounds(s.take(i as int));
            lemma_mod_bound_auto(byte_sum(s.take(i as int)));
            lemma_add_mod_noop(byte_sum(s.take(i as int)), b as int, 0x10000);
            lemma_small_mod(sum as nat, 0x10000);
        }
        sum = (((sum as u32) + (b as u32)) % 0x10000) as u16;
        i = i + 1;
    }
    sum
}

/// The byte-sum residue of any sequence lies below 2^16.
proof fn lemma_mod_bound_auto(x: int)
    requires
        x >= 0,
    ensures
        0 <= x % 0x10000 < 0x10000,
{
}

} // verus!
