//! A structural test for GBK double-byte text.
//!
//! The buffer is cut into consecutive pairs of bytes, starting at index 0; a
//! trailing single byte is ignored. A pair looks like GBK when both of its
//! bytes lie in `0xA1..=0xFE`. The buffer is likely GBK when strictly more
//! than 30% of its pairs look like GBK.

use vstd::prelude::*;

verus! {

/// Lowest byte of the GBK double-byte range.
pub const GBK_BYTE_MIN: u8 = 0xA1;

/// Highest byte of the GBK double-byte range.
pub const GBK_BYTE_MAX: u8 = 0xFE;

/// A byte that may stand in either position of a GBK double-byte character.
pub open spec fn is_gbk_byte(b: u8) -> bool {
    GBK_BYTE_MIN <= b <= GBK_BYTE_MAX
}

/// The number of whole pairs in `data`.
pub open spec fn pair_count(data: Seq<u8>) -> nat {
    data.len() / 2
}

/// Whether pair number `k` of `data`, the bytes at `2k` and `2k + 1`, looks
/// like a GBK character.
pub open spec fn gbk_pair_at(data: Seq<u8>, k: int) -> bool
    recommends
        0 <= k < pair_count(data),
{
    is_gbk_byte(data[2 * k]) && is_gbk_byte(data[2 * k + 1])
}

/// How many of the first `k` pairs of `data` look like GBK characters.
pub open spec fn gbk_pairs_among(data: Seq<u8>, k: nat) -> nat
    recommends
        k <= pair_count(data),
    decreases k,
{
    if k == 0 {
        0
    } else {
        gbk_pairs_among(data, (k - 1) as nat) + if gbk_pair_at(data, k - 1) {
            1nat
        } else {
            0nat
        }
    }
}

/// How many pairs of `data` look like GBK characters.
pub open spec fn gbk_pair_count(data: Seq<u8>) -> nat {
    gbk_pairs_among(data, pair_count(data))
}

/// Strictly more than three in ten pairs of `data` look like GBK characters.
pub open spec fn likely_gbk(data: Seq<u8>) -> bool {
    10 * gbk_pair_count(data) > 3 * pair_count(data)
}

/// Where no byte of `data` is in the GBK range, none of the first `k` pairs
/// looks like a GBK character.
proof fn lemma_no_gbk_bytes_no_pairs(data: Seq<u8>, k: nat)
    requires
        k <= pair_count(data),
        forall|i: int| 0 <= i < data.len() ==> !is_gbk_byte(#[trigger] data[i]),
    ensures
        gbk_pairs_among(data, k) == 0,
    decreases k,
{
    if k > 0 {
        lemma_no_gbk_bytes_no_pairs(data, (k - 1) as nat);
        assert(!is_gbk_byte(data[2 * (k - 1)]));
    }
}

/// A buffer with fewer than two bytes, the empty one among them, is never
/// likely GBK: it has no pair.
pub proof fn law_short_buffer_not_gbk(data: Seq<u8>)
    requires
        data.len() < 2,
    ensures
        !likely_gbk(data),
{
}

/// Pure ASCII is never likely GBK: every byte lies below the GBK range.
pub proof fn law_ascii_not_gbk(data: Seq<u8>)
    requires
        forall|i: int| 0 <= i < data.len() ==> #[trigger] data[i] <= 0x7F,
    ensures
        !likely_gbk(data),
{
    lemma_no_gbk_bytes_no_pairs(data, pair_count(data));
}

/// The threshold is strict: with `g` GBK-like pairs out of `t`, the buffer is
/// likely GBK when `g / t` exceeds 30%, and is not when `g / t` is 30% exactly
/// or less.
pub proof fn law_gbk_threshold_strict(data: Seq<u8>)
    ensures
        10 * gbk_pair_count(data) > 3 * pair_count(data) ==> likely_gbk(data),
        10 * gbk_pair_count(data) == 3 * pair_count(data) ==> !likely_gbk(data),
        10 * gbk_pair_count(data) < 3 * pair_count(data) ==> !likely_gbk(data),
{
}

/// Whether `b` lies in the GBK double-byte range.
fn in_gbk_range(b: u8) -> (res: bool)
    ensures
        res == is_gbk_byte(b),
{
    GBK_BYTE_MIN <= b && b <= GBK_BYTE_MAX
}

/// Decides [`likely_gbk`]: whether strictly more than 30% of the consecutive
/// byte pairs of `data` lie in `0xA1..=0xFE` on both bytes.
pub fn is_likely_gbk(data: &[u8]) -> (res: bool)
    ensures
        res == likely_gbk(data@),
{
    if data.len() == 0 {
        return false;
    }
    let mut gbk_like_pairs: usize = 0;
    let mut total_pairs: usize = 0;
    let mut i: usize = 0;
    while i < data.len() - 1
        invariant
            data.len() > 0,
            i == 2 * total_pairs,
            total_pairs <= pair_count(data@),
            gbk_like_pairs == gbk_pairs_among(data@, total_pairs as nat),
            gbk_like_pairs <= total_pairs,
        decreases data.len() - i,
    {
        let first = data[i];
        let second = data[i + 1];
        if in_gbk_range(first) && in_gbk_range(second) {
            gbk_like_pairs += 1;
        }
        total_pairs += 1;
        i += 2;
    }
    assert(total_pairs == pair_count(data@));
    if total_pairs == 0 {
        return false;
    }
    exceeds_three_tenths(gbk_like_pairs, total_pairs)
}

/// Whether `part / whole` is strictly greater than 3/10, computed without
/// rounding.
pub fn exceeds_three_tenths(part: usize, whole: usize) -> (res: bool)
    ensures
        res == (10 * part > 3 * whole),
{
    let scaled_part: u128 = 10u128 * (part as u128);
    let scaled_whole: u128 = 3u128 * (whole as u128);
    scaled_part > scaled_whole
}

} // verus!
