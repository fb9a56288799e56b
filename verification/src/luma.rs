//! Reducing a captured video frame to a raw light reading.
//!
//! A YUYV frame is a sequence of 2-byte pairs whose first byte is luma; the
//! raw reading is the sum of those luma bytes. The accumulator is wide
//! enough that no realistic frame can overflow it.

use vstd::prelude::*;

verus! {

/// Longest accepted frame, in bytes. Keeps the luma sum well inside `u64`
/// while allowing frames far beyond any real capture resolution.
pub const MAX_FRAME_LEN: usize = 0x4000_0000;

/// Sum of the luma bytes of the first `k` pairs of a frame.
pub open spec fn luma_prefix_sum(s: Seq<u8>, k: nat) -> int
    decreases k,
{
    if k == 0 {
        0
    } else {
        luma_prefix_sum(s, (k - 1) as nat) + s[2 * (k - 1)]
    }
}

/// Sum of the luma bytes of a whole frame: the first byte of each complete
/// 2-byte pair.
pub open spec fn luma_sum(s: Seq<u8>) -> int {
    luma_prefix_sum(s, s.len() / 2)
}

/// Reduces a frame to its raw light reading: the sum of the luma byte of
/// each complete 2-byte pair. A trailing odd byte contributes nothing.
pub fn frame_sum(frame: &[u8]) -> (sum: u64)
    requires
        frame@.len() <= MAX_FRAME_LEN,
    ensures
        sum == luma_sum(frame@),
        sum <= 255 * (frame@.len() / 2),
{
    let n = frame.len();
    let pairs = n / 2;
    let mut sum: u64 = 0;
    let mut k: usize = 0;
    while k < pairs
        invariant
            pairs == frame@.len() / 2,
            frame@.len() <= MAX_FRAME_LEN,
            k <= pairs,
            sum == luma_prefix_sum(frame@, k as nat),
            sum <= 255 * k,
        decreases pairs - k,
    {
        sum = sum + frame[2 * k] as u64;
        k = k + 1;
    }
    sum
}

} // verus!
