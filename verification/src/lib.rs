//! Packed 7-bit lane arithmetic: eight independent 7-bit unsigned integers
//! stored side by side in one 64-bit word, with lane-wise bitwise and
//! modulo-128 arithmetic operations computed by plain scalar 64-bit
//! instructions (SIMD within a register).
//!
//! Lane `i` (0 through 7) occupies bits `8*i .. 8*i + 7` of the word; bit
//! `8*i + 7` is a padding bit that is zero in every well-formed value. The
//! padding bit absorbs the carry out of a lane during addition, so a single
//! 64-bit add followed by a re-mask adds all eight lanes at once without any
//! cross-lane contamination.

use vstd::prelude::*;

mod word;
pub mod laws;

use crate::word::{
    lemma_splat_word, lemma_and_word, lemma_or_word, lemma_xor_word, lemma_not_word,
    lemma_add_word,
};
use crate::laws::{lemma_neg_lanes, lemma_sub_lanes};

verus! {

/// Mask selecting the seven value bits of every lane: bits `{0..6}` of each byte.
pub const MASK: u64 = 0x7F7F_7F7F_7F7F_7F7F;

/// Mask selecting the padding bit (bit 7) of every byte.
pub const PAD_MASK: u64 = 0x8080_8080_8080_8080;

/// The 7-bit value held in lane `i` of the word `w`: bits `8*i .. 8*i + 7`.
pub open spec fn lane_of(w: u64, i: u64) -> u8 {
    ((w >> ((8 * i) as u64)) & 0x7F) as u8
}

/// Eight 7-bit unsigned integers packed into one 64-bit word.
///
/// Equality, ordering and hashing are those of the underlying 64-bit
/// pattern; for well-formed values equality is lane-wise equality.
#[allow(non_camel_case_types)]
#[derive(Copy, Clone, PartialEq, Eq, Structural, PartialOrd, Ord, Hash, Debug)]
pub struct u7x8(pub u64);

impl u7x8 {
    /// A value is well-formed when every padding bit is zero.
    pub open spec fn well_formed(self) -> bool {
        self.0 & PAD_MASK == 0
    }

    /// The 7-bit value of lane `i`, the padding bit masked off.
    pub open spec fn lane(self, i: u64) -> u8
        recommends
            i < 8,
    {
        lane_of(self.0, i)
    }

    /// The value with every lane equal to `value`, as a word: `value`
    /// replicated into each of the eight bytes.
    pub open spec fn splat_spec(value: u8) -> u7x8 {
        u7x8((value as u64)
            | ((value as u64) << 8u64)
            | ((value as u64) << 16u64)
            | ((value as u64) << 24u64)
            | ((value as u64) << 32u64)
            | ((value as u64) << 40u64)
            | ((value as u64) << 48u64)
            | ((value as u64) << 56u64))
    }

    /// Lane-wise AND, as a word: one 64-bit AND.
    pub open spec fn and_spec(self, rhs: u7x8) -> u7x8 {
        u7x8(self.0 & rhs.0)
    }

    /// Lane-wise OR, as a word: one 64-bit OR.
    pub open spec fn or_spec(self, rhs: u7x8) -> u7x8 {
        u7x8(self.0 | rhs.0)
    }

    /// Lane-wise XOR, as a word: one 64-bit XOR.
    pub open spec fn xor_spec(self, rhs: u7x8) -> u7x8 {
        u7x8(self.0 ^ rhs.0)
    }

    /// Lane-wise 7-bit complement, as a word: complement the whole word,
    /// then clear the padding bits again.
    pub open spec fn not_spec(self) -> u7x8 {
        u7x8(!self.0 & MASK)
    }

    /// Lane-wise addition modulo 128, as a word: one raw 64-bit add, whose
    /// per-lane carries land in the padding bits, then a re-mask that
    /// discards them.
    pub open spec fn add_spec(self, rhs: u7x8) -> u7x8 {
        u7x8(((self.0 + rhs.0) as u64) & MASK)
    }

    /// Lane-wise negation modulo 128: the 7-bit complement plus one in
    /// every lane.
    pub open spec fn neg_spec(self) -> u7x8 {
        self.not_spec().add_spec(Self::splat_spec(1))
    }

    /// Lane-wise subtraction modulo 128: addition of the negation.
    pub open spec fn sub_spec(self, rhs: u7x8) -> u7x8 {
        self.add_spec(rhs.neg_spec())
    }

    /// Constructs the instance whose eight lanes all equal `value`.
    ///
    /// Passing a value above 127 is a caller bug, not a data error, so it is
    /// ruled out by precondition rather than reported as a recoverable result.
    pub fn splat(value: u8) -> (r: Self)
        requires
            value <= 0x7F,
        ensures
            r == Self::splat_spec(value),
            r.well_formed(),
            forall|i: u64| i < 8 ==> #[trigger] r.lane(i) == value,
    {
        proof {
            lemma_splat_word(value as u64);
        }
        let v = value as u64;
        u7x8(v | (v << 8u64) | (v << 16u64) | (v << 24u64)
            | (v << 32u64) | (v << 40u64) | (v << 48u64) | (v << 56u64))
    }

    /// Lane-wise bitwise AND of two well-formed values.
    pub fn bitand(self, rhs: Self) -> (r: Self)
        requires
            self.well_formed(),
            rhs.well_formed(),
        ensures
            r == self.and_spec(rhs),
            r.well_formed(),
            forall|i: u64| i < 8 ==> #[trigger] r.lane(i) == (self.lane(i) & rhs.lane(i)),
    {
        proof {
            lemma_and_word(self.0, rhs.0);
        }
        u7x8(self.0 & rhs.0)
    }

    /// Lane-wise bitwise OR of two well-formed values.
    pub fn bitor(self, rhs: Self) -> (r: Self)
        requires
            self.well_formed(),
            rhs.well_formed(),
        ensures
            r == self.or_spec(rhs),
            r.well_formed(),
            forall|i: u64| i < 8 ==> #[trigger] r.lane(i) == (self.lane(i) | rhs.lane(i)),
    {
        proof {
            lemma_or_word(self.0, rhs.0);
        }
        u7x8(self.0 | rhs.0)
    }

    /// Lane-wise bitwise XOR of two well-formed values.
    pub fn bitxor(self, rhs: Self) -> (r: Self)
        requires
            self.well_formed(),
            rhs.well_formed(),
        ensures
            r == self.xor_spec(rhs),
            r.well_formed(),
            forall|i: u64| i < 8 ==> #[trigger] r.lane(i) == (self.lane(i) ^ rhs.lane(i)),
    {
        proof {
            lemma_xor_word(self.0, rhs.0);
        }
        u7x8(self.0 ^ rhs.0)
    }

    /// Lane-wise 7-bit complement: each lane becomes `127 - lane`.
    ///
    /// The re-mask after the full 64-bit complement is mandatory: the
    /// complement alone would set every padding bit.
    pub fn not(self) -> (r: Self)
        requires
            self.well_formed(),
        ensures
            r == self.not_spec(),
            r.well_formed(),
            forall|i: u64| i < 8 ==> #[trigger] r.lane(i) == 127 - self.lane(i),
    {
        proof {
            lemma_not_word(self.0);
        }
        u7x8(!self.0 & MASK)
    }

    /// Lane-wise addition modulo 128, with no carry ever crossing a lane
    /// boundary: each byte-wise sum is at most `127 + 127 = 254`, so the
    /// overflow of a lane stops in its padding bit, which the mask clears.
    pub fn add(self, rhs: Self) -> (r: Self)
        requires
            self.well_formed(),
            rhs.well_formed(),
        ensures
            r == self.add_spec(rhs),
            r.well_formed(),
            forall|i: u64| i < 8 ==> #[trigger] r.lane(i) == (self.lane(i) + rhs.lane(i)) % 128,
    {
        proof {
            lemma_add_word(self.0, rhs.0);
        }
        u7x8((self.0 + rhs.0) & MASK)
    }

    /// Lane-wise negation modulo 128: each lane becomes the unique value
    /// that sums with it to 0 modulo 128, computed as the 7-bit complement
    /// plus one.
    pub fn neg(self) -> (r: Self)
        requires
            self.well_formed(),
        ensures
            r == self.neg_spec(),
            r.well_formed(),
            forall|i: u64| i < 8 ==> #[trigger] r.lane(i) == (128 - self.lane(i)) % 128,
            forall|i: u64| i < 8 ==> (self.lane(i) + #[trigger] r.lane(i)) % 128 == 0,
    {
        let r = self.not().add(Self::splat(1));
        proof {
            lemma_neg_lanes(self);
            assert(r == self.neg_spec());
        }
        r
    }

    /// Lane-wise subtraction modulo 128, computed as addition of the
    /// negation. No intermediate carry crosses a lane: the running
    /// byte-wise sum is at most `127 + 127 + 1 = 255`, still within one
    /// byte.
    pub fn sub(self, rhs: Self) -> (r: Self)
        requires
            self.well_formed(),
            rhs.well_formed(),
        ensures
            r == self.sub_spec(rhs),
            r.well_formed(),
            forall|i: u64| i < 8 ==> #[trigger] r.lane(i) == (self.lane(i) - rhs.lane(i)) % 128,
    {
        let r = self.add(rhs.neg());
        proof {
            lemma_sub_lanes(self, rhs);
            assert(r == self.sub_spec(rhs));
        }
        r
    }

    /// In-place lane-wise AND: `*self` becomes `*self & rhs`.
    pub fn bitand_assign(&mut self, rhs: Self)
        requires
            old(self).well_formed(),
            rhs.well_formed(),
        ensures
            *final(self) == old(self).and_spec(rhs),
            final(self).well_formed(),
    {
        *self = (*self).bitand(rhs);
    }

    /// In-place lane-wise OR: `*self` becomes `*self | rhs`.
    pub fn bitor_assign(&mut self, rhs: Self)
        requires
            old(self).well_formed(),
            rhs.well_formed(),
        ensures
            *final(self) == old(self).or_spec(rhs),
            final(self).well_formed(),
    {
        *self = (*self).bitor(rhs);
    }

    /// In-place lane-wise XOR: `*self` becomes `*self ^ rhs`.
    pub fn bitxor_assign(&mut self, rhs: Self)
        requires
            old(self).well_formed(),
            rhs.well_formed(),
        ensures
            *final(self) == old(self).xor_spec(rhs),
            final(self).well_formed(),
    {
        *self = (*self).bitxor(rhs);
    }

    /// In-place lane-wise addition modulo 128.
    pub fn add_assign(&mut self, rhs: Self)
        requires
            old(self).well_formed(),
            rhs.well_formed(),
        ensures
            *final(self) == old(self).add_spec(rhs),
            final(self).well_formed(),
    {
        *self = (*self).add(rhs);
    }

    /// In-place lane-wise subtraction modulo 128.
    pub fn sub_assign(&mut self, rhs: Self)
        requires
            old(self).well_formed(),
            rhs.well_formed(),
        ensures
            *final(self) == old(self).sub_spec(rhs),
            final(self).well_formed(),
    {
        *self = (*self).sub(rhs);
    }
}

impl Default for u7x8 {
    /// The default value is the all-zero instance, `splat(0)`.
    fn default() -> (r: Self)
        ensures
            r == (u7x8(0u64)),
            r == u7x8::splat_spec(0),
            r.well_formed(),
    {
        proof {
            assert(0u64 & 0x8080_8080_8080_8080u64 == 0u64) by (bit_vector);
            assert(0u64 | (0u64 << 8u64) | (0u64 << 16u64) | (0u64 << 24u64)
                | (0u64 << 32u64) | (0u64 << 40u64) | (0u64 << 48u64) | (0u64 << 56u64)
                == 0u64) by (bit_vector);
        }
        u7x8(0)
    }
}

} // verus!
