//! Little-endian encoding of integers.

use vstd::prelude::*;

verus! {

/// The four bytes of `x`, low byte first.
pub open spec fn le32(x: u32) -> Seq<u8> {
    seq![
        (x % 256) as u8,
        (x / 256 % 256) as u8,
        (x / 65536 % 256) as u8,
        (x / 16777216) as u8,
    ]
}

/// The eight bytes of `x`, low byte first.
pub open spec fn le64(x: u64) -> Seq<u8> {
    le32((x % 0x1_0000_0000) as u32) + le32((x / 0x1_0000_0000) as u32)
}

/// The bytes of a list of 32-bit numbers.
pub open spec fn le32_all(xs: Seq<u32>) -> Seq<u8>
    decreases xs.len(),
{
    if xs.len() == 0 {
        Seq::empty()
    } else {
        le32_all(xs.drop_last()) + le32(xs.last())
    }
}

/// The bytes of a list of 64-bit numbers.
pub open spec fn le64_all(xs: Seq<u64>) -> Seq<u8>
    decreases xs.len(),
{
    if xs.len() == 0 {
        Seq::empty()
    } else {
        le64_all(xs.drop_last()) + le64(xs.last())
    }
}

/// The number in four bytes, low byte first.
pub open spec fn from_le32(b: Seq<u8>) -> u32 {
    (b[0] + b[1] * 256 + b[2] * 65536 + b[3] * 16777216) as u32
}

/// Reading gives back what was written.
pub proof fn lemma_le32_round_trip(x: u32)
    ensures
        from_le32(le32(x)) == x,
{
}

pub proof fn lemma_le32_all_len(xs: Seq<u32>)
    ensures
        le32_all(xs).len() == xs.len() * 4,
    decreases xs.len(),
{
    if xs.len() > 0 {
        lemma_le32_all_len(xs.drop_last());
    }
}

pub proof fn lemma_le64_all_len(xs: Seq<u64>)
    ensures
        le64_all(xs).len() == xs.len() * 8,
    decreases xs.len(),
{
    if xs.len() > 0 {
        lemma_le64_all_len(xs.drop_last());
    }
}

/// The bytes at `4 * i` are those of entry `i`.
pub proof fn lemma_le32_all_entry(xs: Seq<u32>, i: int)
    requires
        0 <= i < xs.len(),
    ensures
        le32_all(xs).len() == xs.len() * 4,
        le32_all(xs).subrange(4 * i, 4 * i + 4) == le32(xs[i]),
    decreases xs.len(),
{
    lemma_le32_all_len(xs);
    lemma_le32_all_len(xs.drop_last());
    if i == xs.len() - 1 {
        assert(le32_all(xs).subrange(4 * i, 4 * i + 4) =~= le32(xs[i]));
    } else {
        lemma_le32_all_entry(xs.drop_last(), i);
        assert(le32_all(xs).subrange(4 * i, 4 * i + 4) =~= le32_all(xs.drop_last()).subrange(
            4 * i,
            4 * i + 4,
        ));
    }
}

/// The bytes at `8 * i` are those of entry `i`.
pub proof fn lemma_le64_all_entry(xs: Seq<u64>, i: int)
    requires
        0 <= i < xs.len(),
    ensures
        le64_all(xs).len() == xs.len() * 8,
        le64_all(xs).subrange(8 * i, 8 * i + 8) == le64(xs[i]),
    decreases xs.len(),
{
    lemma_le64_all_len(xs);
    lemma_le64_all_len(xs.drop_last());
    if i == xs.len() - 1 {
        assert(le64_all(xs).subrange(8 * i, 8 * i + 8) =~= le64(xs[i]));
    } else {
        lemma_le64_all_entry(xs.drop_last(), i);
        assert(le64_all(xs).subrange(8 * i, 8 * i + 8) =~= le64_all(xs.drop_last()).subrange(
            8 * i,
            8 * i + 8,
        ));
    }
}

/// `x` rounded up to a multiple of `a`.
pub open spec fn align_up(x: int, a: int) -> int {
    (x + a - 1) / a * a
}

/// Rounding up gives the next multiple of 4 or 8 and keeps a multiple.
pub proof fn lemma_align_up(x: int)
    requires
        x >= 0,
    ensures
        x <= align_up(x, 8) < x + 8,
        x <= align_up(x, 4) < x + 4,
        align_up(x, 8) % 8 == 0,
        align_up(x, 4) % 4 == 0,
        x % 4 == 0 ==> align_up(x, 4) == x,
        x % 8 == 0 ==> align_up(x, 8) == x,
{
}

pub fn push_le32(out: &mut Vec<u8>, x: u32)
    ensures
        final(out)@ == old(out)@ + le32(x),
{
    out.push((x % 256) as u8);
    out.push((x / 256 % 256) as u8);
    out.push((x / 65536 % 256) as u8);
    out.push((x / 16777216) as u8);
}

pub fn push_le64(out: &mut Vec<u8>, x: u64)
    ensures
        final(out)@ == old(out)@ + le64(x),
{
    push_le32(out, (x % 0x1_0000_0000) as u32);
    push_le32(out, (x / 0x1_0000_0000) as u32);
    proof {
        assert(final(out)@ =~= old(out)@ + le64(x));
    }
}

/// The bytes of one 32-bit number.
pub fn le32_bytes(x: u32) -> (r: Vec<u8>)
    ensures
        r@ == le32(x),
{
    let mut out: Vec<u8> = Vec::new();
    push_le32(&mut out, x);
    proof {
        assert(out@ =~= le32(x));
    }
    out
}

/// The bytes of one 64-bit number.
pub fn le64_bytes(x: u64) -> (r: Vec<u8>)
    ensures
        r@ == le64(x),
{
    let mut out: Vec<u8> = Vec::new();
    push_le64(&mut out, x);
    proof {
        assert(out@ =~= le64(x));
    }
    out
}

/// `s` with zero bytes after it, up to `len` bytes in all.
pub open spec fn zero_padded(s: Seq<u8>, len: int) -> Seq<u8> {
    if s.len() >= len {
        s
    } else {
        s + Seq::new((len - s.len()) as nat, |i: int| 0u8)
    }
}

pub fn pad_zeros(out: &mut Vec<u8>, len: usize)
    ensures
        final(out)@ == zero_padded(old(out)@, len as int),
{
    while out.len() < len
        invariant
            old(out)@.len() <= out@.len(),
            out@.len() <= len || out@.len() == old(out)@.len(),
            out@ == zero_padded(old(out)@, out@.len() as int),
        decreases len - out.len(),
    {
        out.push(0);
        proof {
            assert(out@ =~= zero_padded(old(out)@, out@.len() as int));
        }
    }
}

/// The bytes of a list of 32-bit numbers.
pub fn encode_le32(xs: &[u32]) -> (r: Vec<u8>)
    ensures
        r@ == le32_all(xs@),
{
    let mut out: Vec<u8> = Vec::new();
    let mut i: usize = 0;
    while i < xs.len()
        invariant
            i <= xs.len(),
            out@ == le32_all(xs@.take(i as int)),
        decreases xs.len() - i,
    {
        proof {
            assert(xs@.take(i + 1).drop_last() =~= xs@.take(i as int));
        }
        push_le32(&mut out, xs[i]);
        i = i + 1;
    }
    proof {
        assert(xs@.take(xs.len() as int) =~= xs@);
    }
    out
}

/// The bytes of a list of 64-bit numbers.
pub fn encode_le64(xs: &[u64]) -> (r: Vec<u8>)
    ensures
        r@ == le64_all(xs@),
{
    let mut out: Vec<u8> = Vec::new();
    let mut i: usize = 0;
    while i < xs.len()
        invariant
            i <= xs.len(),
            out@ == le64_all(xs@.take(i as int)),
        decreases xs.len() - i,
    {
        proof {
            assert(xs@.take(i + 1).drop_last() =~= xs@.take(i as int));
        }
        push_le64(&mut out, xs[i]);
        i = i + 1;
    }
    proof {
        assert(xs@.take(xs.len() as int) =~= xs@);
    }
    out
}

/// The number in the four bytes from `at` on.
pub fn read_le32(b: &[u8], at: usize) -> (r: u32)
    requires
        at + 4 <= b.len(),
    ensures
        r == from_le32(b@.subrange(at as int, at + 4)),
{
    let r: u32 = b[at] as u32 + b[at + 1] as u32 * 256 + b[at + 2] as u32 * 65536 + b[at + 3] as u32
        * 16777216;
    r
}

/// The first `n` numbers of a byte list.
pub open spec fn le32_list(b: Seq<u8>, n: nat) -> Seq<u32> {
    Seq::new(n, |i: int| from_le32(b.subrange(4 * i, 4 * i + 4)))
}

pub fn decode_le32(b: &[u8], n: usize) -> (r: Vec<u32>)
    requires
        n * 4 <= b.len(),
    ensures
        r@ == le32_list(b@, n as nat),
{
    let mut out: Vec<u32> = Vec::new();
    let mut i: usize = 0;
    while i < n
        invariant
            i <= n,
            n * 4 <= b.len(),
            out@ == le32_list(b@, i as nat),
        decreases n - i,
    {
        out.push(read_le32(b, i * 4));
        i = i + 1;
        proof {
            assert(out@ =~= le32_list(b@, i as nat));
        }
    }
    out
}

/// A list of numbers read back from its own bytes.
pub proof fn lemma_le32_list_round_trip(xs: Seq<u32>)
    ensures
        le32_list(le32_all(xs), xs.len()) == xs,
{
    assert forall|i: int| 0 <= i < xs.len() implies le32_list(le32_all(xs), xs.len())[i]
        == xs[i] by {
        lemma_le32_all_entry(xs, i);
        lemma_le32_round_trip(xs[i]);
    }
    assert(le32_list(le32_all(xs), xs.len()) =~= xs);
}

} // verus!
