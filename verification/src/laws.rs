//! The general properties of the enumeration that are proved once and
//! for all: strict ascent of the successor chain and of the weight-class
//! streams, determinism of the streams, the exact length of every
//! bounded stream, and population-count correctness where the successor
//! chain's structure admits a proof.

use vstd::prelude::*;

use crate::model::ascend_step;
use crate::model::ascended;
use crate::model::chain_ok;
use crate::model::class_elem;
use crate::model::class_size;
use crate::model::fact;
use crate::model::falling_prod;
use crate::model::low_bit;
use crate::model::pop;
use crate::model::seed_of;
use crate::model::step_ok;
use crate::weight::WeightIter;

verus! {

/// The successor formula, spelled out over its intermediates, yields a
/// strictly larger value.
#[verifier::rlimit(100)]
proof fn lemma_step_grows_core(x: u64, c: u64, r: u64, n: u64)
    by (bit_vector)
    requires
        x != 0,
        c == (x & ((!x + 1) as u64)),
        r == ((x + c) as u64),
        r != 0,
        n == ((((r ^ x) >> 2u64) / c) | r),
    ensures
        n > x,
{
}

/// One successor step from a value that is neither 0 nor the top of its
/// weight class yields a strictly larger value.
pub proof fn lemma_step_grows(x: u64)
    requires
        step_ok(x),
    ensures
        ascend_step(x) > x,
{
    let c = low_bit(x);
    let r = (x + c) as u64;
    assert(c != 0) by (bit_vector)
        requires
            x != 0 && c == (x & ((!x + 1) as u64)),
    ;
    lemma_step_grows_core(x, c, r, (((r ^ x) >> 2u64) / c) | r);
}

/// Values along a successor chain strictly increase, as long as every
/// step so far stayed inside the weight class.
pub proof fn lemma_chain_ascends(s: u64, i: nat, j: nat)
    requires
        chain_ok(s, j),
        i < j,
    ensures
        ascended(s, i) < ascended(s, j),
    decreases j,
{
    assert(step_ok(ascended(s, (j - 1) as nat)));
    lemma_step_grows(ascended(s, (j - 1) as nat));
    if i < j - 1 {
        lemma_chain_ascends(s, i, (j - 1) as nat);
    }
}

/// Consecutive values of a weight-class sequence strictly increase, as
/// long as the successor chain has stayed inside the class.
pub proof fn lemma_class_ascends(w: nat, i: nat, j: nat)
    requires
        chain_ok(seed_of(w), j),
        i < j,
    ensures
        class_elem(w, i) < class_elem(w, j),
{
    lemma_chain_ascends(seed_of(w), i, j);
}

/// Two well-formed weight-class cursors of the same strategy, weight and
/// position produce identical streams: re-invoking an enumerator with the
/// same argument repeats the same values in the same order.
pub proof fn lemma_stream_determined(a: WeightIter, b: WeightIter, k: nat)
    requires
        a.wf(),
        b.wf(),
        (a is Zero) <==> (b is Zero),
        (a is Powers) <==> (b is Powers),
        (a is Counted) <==> (b is Counted),
        a.weight() == b.weight(),
        a.index() == b.index(),
        a.ended() == b.ended(),
    ensures
        a.stream_elem(k) == b.stream_elem(k),
{
}

/// Values produced by one weight-class cursor strictly increase: for any
/// two positions of its stream that both hold a value, the earlier value
/// is smaller.  For the counted strategy this holds as long as the
/// successor chain has stayed inside the class; the other strategies
/// carry what is needed in their own state.
pub proof fn lemma_stream_ascends(it: WeightIter, i: nat, j: nat)
    requires
        it.wf(),
        i < j,
        it.stream_elem(i) is Some,
        it.stream_elem(j) is Some,
        it is Counted ==> chain_ok(seed_of(it.weight()), it.index() + j),
    ensures
        it.stream_val(i) < it.stream_val(j),
{
    match it {
        WeightIter::Zero { .. } => {
        },
        WeightIter::Powers { shift } => {
            let a = ((shift + i) as u64);
            let b = ((shift + j) as u64);
            assert(1u64 << a < 1u64 << b) by (bit_vector)
                requires
                    a < b < 64,
            ;
        },
        WeightIter::Counted { asc, .. } => {
            lemma_class_ascends(it.weight(), asc.steps@ + i, asc.steps@ + j);
        },
        WeightIter::Unbounded { asc, .. } => {
            lemma_class_ascends(it.weight(), asc.steps@ + i, asc.steps@ + j);
        },
    }
}

/// A fresh weight-class cursor of any strategy with a precomputed bound
/// produces exactly C(64, w) values before reporting its end.
pub proof fn lemma_bounded_stream_length(it: WeightIter, k: nat)
    requires
        it.wf(),
        !(it is Unbounded),
        it.index() == 0,
    ensures
        it.stream_elem(k) is Some <==> k < class_size(it.weight()),
{
    match it {
        WeightIter::Zero { .. } => {
            assert(falling_prod(0) == 1 && fact(0) == 1);
            assert(falling_prod(0) / fact(0) == 1) by (nonlinear_arith)
                requires
                    falling_prod(0) == 1 && fact(0) == 1,
            ;
        },
        WeightIter::Powers { .. } => {
            assert(falling_prod(1) == ((65 - 1) as nat) * falling_prod(0));
            assert(falling_prod(1) == 64 && fact(1) == 1) by (nonlinear_arith)
                requires
                    falling_prod(1) == ((65 - 1) as nat) * falling_prod(0) && falling_prod(0) == 1
                        && fact(1) == 1,
            ;
            assert(falling_prod(1) / fact(1) == 64) by (nonlinear_arith)
                requires
                    falling_prod(1) == 64 && fact(1) == 1,
            ;
        },
        WeightIter::Counted { .. } => {
        },
        WeightIter::Unbounded { .. } => {
        },
    }
}

/// The seed of every weight class — the smallest 64-bit value with `w`
/// set bits — carries exactly that population count.
#[verifier::rlimit(100)]
pub proof fn lemma_seed_pop(w: nat)
    requires
        w <= 64,
    ensures
        pop(seed_of(w)) == w,
{
    if w == 64 {
        assert(pop(0xFFFF_FFFF_FFFF_FFFFu64) == 64) by (bit_vector);
    } else {
        let wb = w as u64;
        assert(pop(((1u64 << wb) - 1) as u64) == wb) by (bit_vector)
            requires
                wb < 64,
        ;
    }
}

/// Weight correctness where the chain structure makes it provable: every
/// value of the single-value and power-of-two strategies, and the first
/// value of every successor-driven class, carries the class's population
/// count.
#[verifier::rlimit(100)]
pub proof fn lemma_stream_pop(it: WeightIter, k: nat)
    requires
        it.wf(),
        it.stream_elem(k) is Some,
        !(it is Zero) && !(it is Powers) ==> it.index() + k == 0,
    ensures
        pop(it.stream_val(k)) == it.weight(),
{
    match it {
        WeightIter::Zero { .. } => {
            assert(pop(0u64) == 0) by (bit_vector);
        },
        WeightIter::Powers { shift } => {
            let b = ((shift + k) as u64);
            assert(pop(1u64 << b) == 1) by (bit_vector)
                requires
                    b < 64,
            ;
        },
        WeightIter::Counted { .. } => {
            lemma_seed_pop(it.weight());
        },
        WeightIter::Unbounded { .. } => {
            lemma_seed_pop(it.weight());
        },
    }
}

} // verus!
