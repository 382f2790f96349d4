//! Algebraic laws of the packed-lane operations, stated over the spec-level
//! operations and proved once and for all.

use vstd::prelude::*;

use crate::u7x8;
use crate::{MASK, PAD_MASK};
use crate::lane_of;
use crate::word::{
    lemma_lane_bound, lemma_splat_word, lemma_splat_consts, lemma_eq_word, lemma_and_word,
    lemma_or_word, lemma_xor_word, lemma_not_word, lemma_add_word,
};
use vstd::arithmetic::div_mod::{lemma_small_mod, lemma_mod_add_multiples_vanish};

verus! {

/// A well-formed value is determined by its eight lanes: two well-formed
/// values whose lanes agree are the same value.
pub proof fn lemma_lanes_determine(a: u7x8, b: u7x8)
    requires
        a.well_formed(),
        b.well_formed(),
        forall|i: u64| i < 8 ==> #[trigger] a.lane(i) == b.lane(i),
    ensures
        a == b,
{
    assert(a.lane(0) == b.lane(0));
    assert(a.lane(1) == b.lane(1));
    assert(a.lane(2) == b.lane(2));
    assert(a.lane(3) == b.lane(3));
    assert(a.lane(4) == b.lane(4));
    assert(a.lane(5) == b.lane(5));
    assert(a.lane(6) == b.lane(6));
    assert(a.lane(7) == b.lane(7));
    lemma_eq_word(a.0, b.0);
}

/// The lane-wise reading of negation: every lane of `-a` is the value that
/// sums with the matching lane of `a` to 0 modulo 128.
pub proof fn lemma_neg_lanes(a: u7x8)
    requires
        a.well_formed(),
    ensures
        a.neg_spec().well_formed(),
        forall|i: u64| i < 8 ==> #[trigger] a.neg_spec().lane(i) == (128 - a.lane(i)) % 128,
        forall|i: u64| i < 8 ==> (a.lane(i) + #[trigger] a.neg_spec().lane(i)) % 128 == 0,
{
    lemma_lane_bound(a.0);
    lemma_not_word(a.0);
    lemma_splat_word(1u64);
    lemma_add_word(!a.0 & MASK, u7x8::splat_spec(1).0);
    assert forall|i: u64| i < 8 implies #[trigger] a.neg_spec().lane(i) == (128 - a.lane(i))
        % 128 by {
        assert(lane_of(u7x8::splat_spec(1).0, i) == 1);
        assert(lane_of(!a.0 & MASK, i) == 127 - a.lane(i));
    }
    assert forall|i: u64| i < 8 implies (a.lane(i) + #[trigger] a.neg_spec().lane(i)) % 128
        == 0 by {
        let l = a.lane(i) as int;
        if l != 0 {
            lemma_small_mod((128 - l) as nat, 128 as nat);
        }
    }
}

/// The lane-wise reading of subtraction: every lane of `a - b` is the
/// lane-wise difference modulo 128.
pub proof fn lemma_sub_lanes(a: u7x8, b: u7x8)
    requires
        a.well_formed(),
        b.well_formed(),
    ensures
        a.sub_spec(b).well_formed(),
        forall|i: u64| i < 8 ==> #[trigger] a.sub_spec(b).lane(i) == (a.lane(i) - b.lane(i))
            % 128,
{
    lemma_lane_bound(a.0);
    lemma_lane_bound(b.0);
    lemma_neg_lanes(b);
    lemma_add_word(a.0, b.neg_spec().0);
    assert forall|i: u64| i < 8 implies #[trigger] a.sub_spec(b).lane(i) == (a.lane(i) - b.lane(
        i,
    )) % 128 by {
        let la = a.lane(i) as int;
        let lb = b.lane(i) as int;
        assert(b.neg_spec().lane(i) == (128 - lb) % 128);
        assert(a.sub_spec(b).lane(i) == (la + (128 - lb) % 128) % 128);
        if lb == 0 {
            lemma_small_mod(la as nat, 128 as nat);
        } else {
            lemma_small_mod((128 - lb) as nat, 128 as nat);
            lemma_mod_add_multiples_vanish(la - lb, 128);
        }
    }
}

/// Closure under well-formedness: every operation maps well-formed operands
/// to a well-formed result — no padding bit is ever left set.
pub proof fn lemma_well_formed_closure(a: u7x8, b: u7x8)
    requires
        a.well_formed(),
        b.well_formed(),
    ensures
        a.and_spec(b).well_formed(),
        a.or_spec(b).well_formed(),
        a.xor_spec(b).well_formed(),
        a.add_spec(b).well_formed(),
        a.sub_spec(b).well_formed(),
        a.not_spec().well_formed(),
        a.neg_spec().well_formed(),
{
    lemma_and_word(a.0, b.0);
    lemma_or_word(a.0, b.0);
    lemma_xor_word(a.0, b.0);
    lemma_add_word(a.0, b.0);
    lemma_not_word(a.0);
    lemma_neg_lanes(a);
    lemma_sub_lanes(a, b);
}

/// Additive identity and inverse: `a + splat(0) == a` and
/// `a + (-a) == splat(0)` for every well-formed `a`.
pub proof fn lemma_additive_identity_and_inverse(a: u7x8)
    requires
        a.well_formed(),
    ensures
        a.add_spec(u7x8::splat_spec(0)) == a,
        a.add_spec(a.neg_spec()) == u7x8::splat_spec(0),
{
    let x = a.0;
    lemma_splat_consts();
    assert(u7x8::splat_spec(0).0 == 0u64);
    assert(u7x8::splat_spec(1).0 == 0x0101_0101_0101_0101u64);
    assert(((x + 0u64) as u64) & MASK == x) by (bit_vector)
        requires
            x & PAD_MASK == 0u64,
    ;
    let n = a.neg_spec().0;
    assert(n == ((((!x & MASK) + 0x0101_0101_0101_0101u64) as u64) & MASK));
    assert(((x + n) as u64) & MASK == 0u64) by (bit_vector)
        requires
            x & PAD_MASK == 0u64,
            n == ((((!x & MASK) + 0x0101_0101_0101_0101u64) as u64) & MASK),
    ;
}

/// Subtraction cancels itself and has `splat(0)` as right identity:
/// `a - a == splat(0)` and `a - splat(0) == a` for every well-formed `a`.
pub proof fn lemma_sub_cancel(a: u7x8)
    requires
        a.well_formed(),
    ensures
        a.sub_spec(a) == u7x8::splat_spec(0),
        a.sub_spec(u7x8::splat_spec(0)) == a,
{
    lemma_additive_identity_and_inverse(a);
    lemma_splat_consts();
    assert(u7x8::splat_spec(0).0 == 0u64);
    assert(u7x8::splat_spec(1).0 == 0x0101_0101_0101_0101u64);
    assert(((((!0u64 & MASK) + 0x0101_0101_0101_0101u64) as u64) & MASK) == 0u64)
        by (bit_vector);
    assert(u7x8::splat_spec(0).neg_spec() == u7x8::splat_spec(0));
}

/// Double complement: `NOT (NOT a) == a` for every well-formed `a`.
pub proof fn lemma_double_complement(a: u7x8)
    requires
        a.well_formed(),
    ensures
        a.not_spec().not_spec() == a,
{
    let x = a.0;
    assert(!(!x & MASK) & MASK == x) by (bit_vector)
        requires
            x & PAD_MASK == 0u64,
    ;
}

/// Bitwise identities: AND and OR are idempotent, XOR is self-cancelling,
/// and all three are commutative and associative.
pub proof fn lemma_bitwise_identities(a: u7x8, b: u7x8, c: u7x8)
    requires
        a.well_formed(),
        b.well_formed(),
        c.well_formed(),
    ensures
        a.and_spec(a) == a,
        a.or_spec(a) == a,
        a.xor_spec(a) == u7x8::splat_spec(0),
        a.and_spec(b) == b.and_spec(a),
        a.or_spec(b) == b.or_spec(a),
        a.xor_spec(b) == b.xor_spec(a),
        a.and_spec(b).and_spec(c) == a.and_spec(b.and_spec(c)),
        a.or_spec(b).or_spec(c) == a.or_spec(b.or_spec(c)),
        a.xor_spec(b).xor_spec(c) == a.xor_spec(b.xor_spec(c)),
{
    let x = a.0;
    let y = b.0;
    let z = c.0;
    lemma_splat_consts();
    assert(u7x8::splat_spec(0).0 == 0u64);
    assert(x & x == x) by (bit_vector);
    assert(x | x == x) by (bit_vector);
    assert(x ^ x == 0u64) by (bit_vector);
    assert(x & y == y & x) by (bit_vector);
    assert(x | y == y | x) by (bit_vector);
    assert(x ^ y == y ^ x) by (bit_vector);
    assert((x & y) & z == x & (y & z)) by (bit_vector);
    assert((x | y) | z == x | (y | z)) by (bit_vector);
    assert((x ^ y) ^ z == x ^ (y ^ z)) by (bit_vector);
}

/// Lane isolation: when two well-formed values agree on every lane but `k`,
/// every operation's results agree on every lane but `k` as well — no
/// operation leaks anything across a lane boundary.
pub proof fn lemma_lane_isolation(a1: u7x8, a2: u7x8, b: u7x8, k: u64)
    requires
        a1.well_formed(),
        a2.well_formed(),
        b.well_formed(),
        k < 8,
        forall|i: u64| i < 8 && i != k ==> #[trigger] a1.lane(i) == a2.lane(i),
    ensures
        forall|i: u64| i < 8 && i != k ==> #[trigger] a1.and_spec(b).lane(i) == a2.and_spec(
            b,
        ).lane(i),
        forall|i: u64| i < 8 && i != k ==> #[trigger] b.and_spec(a1).lane(i) == b.and_spec(
            a2,
        ).lane(i),
        forall|i: u64| i < 8 && i != k ==> #[trigger] a1.or_spec(b).lane(i) == a2.or_spec(
            b,
        ).lane(i),
        forall|i: u64| i < 8 && i != k ==> #[trigger] b.or_spec(a1).lane(i) == b.or_spec(
            a2,
        ).lane(i),
        forall|i: u64| i < 8 && i != k ==> #[trigger] a1.xor_spec(b).lane(i) == a2.xor_spec(
            b,
        ).lane(i),
        forall|i: u64| i < 8 && i != k ==> #[trigger] b.xor_spec(a1).lane(i) == b.xor_spec(
            a2,
        ).lane(i),
        forall|i: u64| i < 8 && i != k ==> #[trigger] a1.add_spec(b).lane(i) == a2.add_spec(
            b,
        ).lane(i),
        forall|i: u64| i < 8 && i != k ==> #[trigger] b.add_spec(a1).lane(i) == b.add_spec(
            a2,
        ).lane(i),
        forall|i: u64| i < 8 && i != k ==> #[trigger] a1.sub_spec(b).lane(i) == a2.sub_spec(
            b,
        ).lane(i),
        forall|i: u64| i < 8 && i != k ==> #[trigger] b.sub_spec(a1).lane(i) == b.sub_spec(
            a2,
        ).lane(i),
        forall|i: u64| i < 8 && i != k ==> #[trigger] a1.not_spec().lane(i)
            == a2.not_spec().lane(i),
        forall|i: u64| i < 8 && i != k ==> #[trigger] a1.neg_spec().lane(i)
            == a2.neg_spec().lane(i),
{
    lemma_and_word(a1.0, b.0);
    lemma_and_word(a2.0, b.0);
    lemma_and_word(b.0, a1.0);
    lemma_and_word(b.0, a2.0);
    lemma_or_word(a1.0, b.0);
    lemma_or_word(a2.0, b.0);
    lemma_or_word(b.0, a1.0);
    lemma_or_word(b.0, a2.0);
    lemma_xor_word(a1.0, b.0);
    lemma_xor_word(a2.0, b.0);
    lemma_xor_word(b.0, a1.0);
    lemma_xor_word(b.0, a2.0);
    lemma_add_word(a1.0, b.0);
    lemma_add_word(a2.0, b.0);
    lemma_add_word(b.0, a1.0);
    lemma_add_word(b.0, a2.0);
    lemma_sub_lanes(a1, b);
    lemma_sub_lanes(a2, b);
    lemma_sub_lanes(b, a1);
    lemma_sub_lanes(b, a2);
    lemma_not_word(a1.0);
    lemma_not_word(a2.0);
    lemma_neg_lanes(a1);
    lemma_neg_lanes(a2);
    assert forall|i: u64| i < 8 && i != k implies #[trigger] a1.and_spec(b).lane(i)
        == a2.and_spec(b).lane(i) by {
        assert(a1.lane(i) == a2.lane(i));
    }
    assert forall|i: u64| i < 8 && i != k implies #[trigger] b.and_spec(a1).lane(i)
        == b.and_spec(a2).lane(i) by {
        assert(a1.lane(i) == a2.lane(i));
    }
    assert forall|i: u64| i < 8 && i != k implies #[trigger] a1.or_spec(b).lane(i)
        == a2.or_spec(b).lane(i) by {
        assert(a1.lane(i) == a2.lane(i));
    }
    assert forall|i: u64| i < 8 && i != k implies #[trigger] b.or_spec(a1).lane(i)
        == b.or_spec(a2).lane(i) by {
        assert(a1.lane(i) == a2.lane(i));
    }
    assert forall|i: u64| i < 8 && i != k implies #[trigger] a1.xor_spec(b).lane(i)
        == a2.xor_spec(b).lane(i) by {
        assert(a1.lane(i) == a2.lane(i));
    }
    assert forall|i: u64| i < 8 && i != k implies #[trigger] b.xor_spec(a1).lane(i)
        == b.xor_spec(a2).lane(i) by {
        assert(a1.lane(i) == a2.lane(i));
    }
    assert forall|i: u64| i < 8 && i != k implies #[trigger] a1.add_spec(b).lane(i)
        == a2.add_spec(b).lane(i) by {
        assert(a1.lane(i) == a2.lane(i));
    }
    assert forall|i: u64| i < 8 && i != k implies #[trigger] b.add_spec(a1).lane(i)
        == b.add_spec(a2).lane(i) by {
        assert(a1.lane(i) == a2.lane(i));
    }
    assert forall|i: u64| i < 8 && i != k implies #[trigger] a1.sub_spec(b).lane(i)
        == a2.sub_spec(b).lane(i) by {
        assert(a1.lane(i) == a2.lane(i));
    }
    assert forall|i: u64| i < 8 && i != k implies #[trigger] b.sub_spec(a1).lane(i)
        == b.sub_spec(a2).lane(i) by {
        assert(a1.lane(i) == a2.lane(i));
    }
    assert forall|i: u64| i < 8 && i != k implies #[trigger] a1.not_spec().lane(i)
        == a2.not_spec().lane(i) by {
        assert(a1.lane(i) == a2.lane(i));
    }
    assert forall|i: u64| i < 8 && i != k implies #[trigger] a1.neg_spec().lane(i)
        == a2.neg_spec().lane(i) by {
        assert(a1.lane(i) == a2.lane(i));
    }
}

} // verus!
