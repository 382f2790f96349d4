//! Word-level bit-vector facts behind the lane-wise contracts.
//!
//! Every lemma here is proved by the bit-vector solver over the raw 64-bit
//! words; the rest of the crate reads them back through [`crate::lane_of`].

use vstd::prelude::*;

use crate::{lane_of, MASK, PAD_MASK};

verus! {

/// A lane is a 7-bit value, whatever the word holds.
pub proof fn lemma_lane_bound(w: u64)
    by (bit_vector)
    ensures
        forall|i: u64| i < 8 ==> #[trigger] lane_of(w, i) < 128,
{
}

/// Replicating a 7-bit value into each byte fills every lane with it and
/// leaves every padding bit zero.
pub proof fn lemma_splat_word(v: u64)
    by (bit_vector)
    requires
        v <= 0x7F,
    ensures
        (v | (v << 8u64) | (v << 16u64) | (v << 24u64)
            | (v << 32u64) | (v << 40u64) | (v << 48u64) | (v << 56u64)) & PAD_MASK == 0,
        forall|i: u64| i < 8 ==> #[trigger] lane_of(
            v | (v << 8u64) | (v << 16u64) | (v << 24u64)
                | (v << 32u64) | (v << 40u64) | (v << 48u64) | (v << 56u64), i) == v,
{
}

/// Bitwise AND never crosses a byte boundary: it acts lane by lane, and
/// keeps the padding bits clear.
pub proof fn lemma_and_word(x: u64, y: u64)
    by (bit_vector)
    requires
        x & PAD_MASK == 0,
        y & PAD_MASK == 0,
    ensures
        (x & y) & PAD_MASK == 0,
        forall|i: u64| i < 8 ==> #[trigger] lane_of(x & y, i) == (lane_of(x, i) & lane_of(y, i)),
{
}

/// Bitwise OR never crosses a byte boundary: it acts lane by lane, and
/// keeps the padding bits clear.
pub proof fn lemma_or_word(x: u64, y: u64)
    by (bit_vector)
    requires
        x & PAD_MASK == 0,
        y & PAD_MASK == 0,
    ensures
        (x | y) & PAD_MASK == 0,
        forall|i: u64| i < 8 ==> #[trigger] lane_of(x | y, i) == (lane_of(x, i) | lane_of(y, i)),
{
}

/// Bitwise XOR never crosses a byte boundary: it acts lane by lane, and
/// keeps the padding bits clear.
pub proof fn lemma_xor_word(x: u64, y: u64)
    by (bit_vector)
    requires
        x & PAD_MASK == 0,
        y & PAD_MASK == 0,
    ensures
        (x ^ y) & PAD_MASK == 0,
        forall|i: u64| i < 8 ==> #[trigger] lane_of(x ^ y, i) == (lane_of(x, i) ^ lane_of(y, i)),
{
}

/// Complementing the word and re-masking takes every lane to its 7-bit
/// complement `127 - lane`, whatever the padding bits of the input were.
pub proof fn lemma_not_word(x: u64)
    by (bit_vector)
    ensures
        (!x & MASK) & PAD_MASK == 0,
        forall|i: u64| i < 8 ==> #[trigger] lane_of(!x & MASK, i) == 127 - lane_of(x, i),
{
}

/// Adding two words whose padding bits are clear never carries out of a
/// byte: the raw 64-bit sum fits, each byte-wise sum stays below 256, and
/// re-masking leaves exactly the lane-wise sums modulo 128.
pub proof fn lemma_add_word(x: u64, y: u64)
    by (bit_vector)
    requires
        x & PAD_MASK == 0,
        y & PAD_MASK == 0,
    ensures
        x + y <= 0xFFFF_FFFF_FFFF_FFFFu64,
        (((x + y) as u64) & MASK) & PAD_MASK == 0,
        forall|i: u64| i < 8 ==> #[trigger] lane_of(((x + y) as u64) & MASK, i)
            == (lane_of(x, i) + lane_of(y, i)) % 128,
{
}

/// The words that replicate 0 and 1 into every byte.
pub proof fn lemma_splat_consts()
    by (bit_vector)
    ensures
        (0u64 | (0u64 << 8u64) | (0u64 << 16u64) | (0u64 << 24u64)
            | (0u64 << 32u64) | (0u64 << 40u64) | (0u64 << 48u64) | (0u64 << 56u64)) == 0u64,
        (1u64 | (1u64 << 8u64) | (1u64 << 16u64) | (1u64 << 24u64)
            | (1u64 << 32u64) | (1u64 << 40u64) | (1u64 << 48u64) | (1u64 << 56u64))
            == 0x0101_0101_0101_0101u64,
{
}

/// Two words with all padding bits clear and equal lanes are equal.
pub proof fn lemma_eq_word(x: u64, y: u64)
    by (bit_vector)
    requires
        x & PAD_MASK == 0,
        y & PAD_MASK == 0,
        lane_of(x, 0) == lane_of(y, 0),
        lane_of(x, 1) == lane_of(y, 1),
        lane_of(x, 2) == lane_of(y, 2),
        lane_of(x, 3) == lane_of(y, 3),
        lane_of(x, 4) == lane_of(y, 4),
        lane_of(x, 5) == lane_of(y, 5),
        lane_of(x, 6) == lane_of(y, 6),
        lane_of(x, 7) == lane_of(y, 7),
    ensures
        x == y,
{
}

} // verus!
