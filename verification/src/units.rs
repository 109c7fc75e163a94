//! Fixed-point units shared by the renderers.
//!
//! A length, a magnitude or a percentage with a fractional part is an integer
//! count of `1 / UNIT`: the value `3 * UNIT / 2` stands for one and a half.

use vstd::prelude::*;

verus! {

/// The integer that stands for one whole.
pub const UNIT: u64 = 65536;

/// The sum of `s[lo], ..., s[hi - 1]`, counting only the indices that `s` has.
pub open spec fn band_total(s: Seq<u8>, lo: int, hi: int) -> int
    decreases hi - lo,
{
    if hi <= lo {
        0
    } else if 0 <= hi - 1 < s.len() {
        band_total(s, lo, hi - 1) + s[hi - 1] as int
    } else {
        band_total(s, lo, hi - 1)
    }
}

/// A band of `hi - lo` bins sums to at most `255 * (hi - lo)`.
pub proof fn lemma_band_total_bounds(s: Seq<u8>, lo: int, hi: int)
    requires
        lo <= hi,
    ensures
        0 <= band_total(s, lo, hi) <= 255 * (hi - lo),
    decreases hi - lo,
{
    if lo < hi {
        lemma_band_total_bounds(s, lo, hi - 1);
    }
}

/// Sums the bins `lo..hi` of a snapshot, skipping indices past its end.
pub(crate) fn sum_band(audio_data: &[u8], lo: usize, hi: usize) -> (total: u64)
    requires
        lo <= hi,
        hi - lo <= 65536,
    ensures
        total == band_total(audio_data@, lo as int, hi as int),
{
    let mut total: u64 = 0;
    let mut i: usize = lo;
    while i < hi
        invariant
            lo <= i <= hi,
            hi - lo <= 65536,
            total == band_total(audio_data@, lo as int, i as int),
            total <= 255 * (i - lo),
        decreases hi - i,
    {
        if i < audio_data.len() {
            total = total + audio_data[i] as u64;
        }
        i = i + 1;
    }
    total
}

} // verus!
