//! Packing of a 4x4 transform's sixteen 32-bit words into eight 64-bit
//! words, two per word (low half first), so that a transform can be stored
//! and loaded through 64-bit atomics. The words are the bit patterns of the
//! matrix entries in column-major order.
use vstd::prelude::*;

verus! {

/// Two 32-bit words in one 64-bit word, `lo` in the low half.
pub open spec fn packed(lo: u32, hi: u32) -> u64 {
    (lo as u64) | ((hi as u64) << 32u64)
}

/// Pack `lo` and `hi` into one word.
pub fn pack_words(lo: u32, hi: u32) -> (r: u64)
    ensures
        r == packed(lo, hi),
{
    (lo as u64) | ((hi as u64) << 32u64)
}

/// The two 32-bit words of a packed word, low half first.
pub fn unpack_words(v: u64) -> (r: (u32, u32))
    ensures
        r.0 == (v & 0xffff_ffffu64) as u32,
        r.1 == (v >> 32u64) as u32,
{
    ((v & 0xffff_ffffu64) as u32, (v >> 32u64) as u32)
}

/// Unpacking a packed word gives back both halves.
pub proof fn lemma_unpack_pack(lo: u32, hi: u32)
    ensures
        (packed(lo, hi) & 0xffff_ffffu64) as u32 == lo,
        (packed(lo, hi) >> 32u64) as u32 == hi,
{
    let l = lo as u64;
    let h = hi as u64;
    assert(((l | (h << 32u64)) & 0xffff_ffffu64) == l) by (bit_vector)
        requires l <= 0xffff_ffffu64, h <= 0xffff_ffffu64;
    assert(((l | (h << 32u64)) >> 32u64) == h) by (bit_vector)
        requires l <= 0xffff_ffffu64, h <= 0xffff_ffffu64;
}

/// Sixteen matrix words packed into eight, entries `2i` and `2i + 1` into
/// word `i`.
pub fn pack_transform(cols: &[u32; 16]) -> (r: [u64; 8])
    ensures
        forall|i: int| 0 <= i < 8 ==> #[trigger] r@[i] == packed(cols@[2 * i], cols@[2 * i + 1]),
{
    let mut out: [u64; 8] = [0u64; 8];
    let mut i: usize = 0;
    while i < 8
        invariant
            i <= 8,
            forall|j: int| 0 <= j < i ==> #[trigger] out@[j] == packed(cols@[2 * j], cols@[2 * j + 1]),
        decreases 8 - i,
    {
        out.set(i, pack_words(cols[2 * i], cols[2 * i + 1]));
        i = i + 1;
    }
    out
}

/// Eight packed words unpacked into the sixteen matrix words.
pub fn unpack_transform(words: &[u64; 8]) -> (r: [u32; 16])
    ensures
        forall|i: int| 0 <= i < 8 ==> #[trigger] r@[2 * i] == (words@[i] & 0xffff_ffffu64) as u32
            && r@[2 * i + 1] == (words@[i] >> 32u64) as u32,
{
    let mut out: [u32; 16] = [0u32; 16];
    let mut i: usize = 0;
    while i < 8
        invariant
            i <= 8,
            forall|j: int| 0 <= j < i ==> #[trigger] out@[2 * j] == (words@[j] & 0xffff_ffffu64) as u32
                && out@[2 * j + 1] == (words@[j] >> 32u64) as u32,
        decreases 8 - i,
    {
        let (lo, hi) = unpack_words(words[i]);
        out.set(2 * i, lo);
        out.set(2 * i + 1, hi);
        i = i + 1;
    }
    out
}

/// Loading what was stored gives back the same sixteen words.
pub proof fn lemma_transform_round_trip(cols: [u32; 16], words: [u64; 8], back: [u32; 16])
    requires
        forall|i: int| 0 <= i < 8 ==> #[trigger] words@[i] == packed(cols@[2 * i], cols@[2 * i + 1]),
        forall|i: int| 0 <= i < 8 ==> #[trigger] back@[2 * i] == (words@[i] & 0xffff_ffffu64) as u32
            && back@[2 * i + 1] == (words@[i] >> 32u64) as u32,
    ensures
        back@ == cols@,
{
    assert forall|k: int| 0 <= k < 16 implies back@[k] == cols@[k] by {
        let i = k / 2;
        assert(0 <= i < 8);
        assert(words@[i] == packed(cols@[2 * i], cols@[2 * i + 1]));
        lemma_unpack_pack(cols@[2 * i], cols@[2 * i + 1]);
        assert(back@[2 * i] == cols@[2 * i]);
        assert(back@[2 * i + 1] == cols@[2 * i + 1]);
        assert(k == 2 * i || k == 2 * i + 1);
    }
    assert(back@ =~= cols@);
}

} // verus!
