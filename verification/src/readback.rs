//! Numbers read back from device memory, as bits of single-precision numbers.

use crate::bytes::{decode_le32, le32_all, le32_list, lemma_le32_list_round_trip};
use vstd::prelude::*;

verus! {

/// A 16-bit brain float is the upper half of a single-precision number.
pub open spec fn widened(bits: u16) -> u32 {
    (bits * 65536) as u32
}

pub fn bf16_to_f32(bits: u16) -> (r: u32)
    ensures
        r == widened(bits),
{
    bits as u32 * 65536
}

/// The 16-bit number at position `i` of a byte list, low byte first.
pub open spec fn half_at(b: Seq<u8>, i: int) -> u16 {
    (b[2 * i] + b[2 * i + 1] * 256) as u16
}

/// The 16-bit floats of a byte list, widened; an odd byte at the end is left
/// out.
pub open spec fn bf16_values(b: Seq<u8>) -> Seq<u32> {
    Seq::new((b.len() / 2) as nat, |i: int| widened(half_at(b, i)))
}

/// The single-precision numbers of a byte list; up to three bytes at the end
/// are left out.
pub open spec fn f32_values(b: Seq<u8>) -> Seq<u32> {
    le32_list(b, (b.len() / 4) as nat)
}

pub fn readback_bf16(b: &[u8]) -> (r: Vec<u32>)
    ensures
        r@ == bf16_values(b@),
{
    let n: usize = b.len() / 2;
    let mut out: Vec<u32> = Vec::new();
    let mut i: usize = 0;
    while i < n
        invariant
            i <= n,
            n == b@.len() / 2,
            b@.len() <= usize::MAX,
            out@ == bf16_values(b@).take(i as int),
        decreases n - i,
    {
        let half: u16 = b[2 * i] as u16 + b[2 * i + 1] as u16 * 256;
        out.push(bf16_to_f32(half));
        i = i + 1;
        proof {
            assert(out@ =~= bf16_values(b@).take(i as int));
        }
    }
    proof {
        assert(bf16_values(b@).take(n as int) =~= bf16_values(b@));
    }
    out
}

pub fn readback_f32(b: &[u8]) -> (r: Vec<u32>)
    ensures
        r@ == f32_values(b@),
{
    decode_le32(b, b.len() / 4)
}

/// Reading back what was written gives the same numbers.
pub proof fn lemma_readback_f32(xs: Seq<u32>)
    ensures
        f32_values(le32_all(xs)) == xs,
{
    lemma_le32_list_round_trip(xs);
    crate::bytes::lemma_le32_all_len(xs);
}

/// Widening keeps numbers apart.
pub proof fn lemma_widened_distinct(a: u16, b: u16)
    requires
        widened(a) == widened(b),
    ensures
        a == b,
{
}

} // verus!
