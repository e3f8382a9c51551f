//! The weight-class enumerator: for a target population count `w`, a lazy
//! cursor over the 64-bit values of that class in ascending order.  The
//! strategy is picked per weight: the single value 0, the 64 powers of
//! two, a counted successor walk bounded by C(64, w), or a successor walk
//! without a precomputed count when the count's numerator cannot be
//! computed in 64 bits — that walk ends itself at the class's top
//! element, where one more successor step would wrap past 2^64.

use vstd::prelude::*;

use crate::ascend::hamming_ascend;
use crate::ascend::Ascender;
use crate::model::ascended;
use crate::model::chain_ok;
use crate::model::class_elem;
use crate::model::class_size;
use crate::model::fact;
use crate::model::fact_fits;
use crate::model::falling_fits;
use crate::model::falling_prod;
use crate::model::seed_of;
use crate::model::step_ok;

verus! {

/// The numerator terms `65 - b ..= 64` never shrink the running product.
proof fn lemma_falling_mono(a: nat, b: nat)
    requires
        a <= b <= 64,
    ensures
        falling_prod(a) <= falling_prod(b),
    decreases b,
{
    if a < b {
        lemma_falling_mono(a, (b - 1) as nat);
        assert(((65 - b) as nat) * falling_prod((b - 1) as nat) >= falling_prod((b - 1) as nat))
            by (nonlinear_arith)
            requires
                1 <= b <= 64,
        ;
    }
}

/// The factorial terms never shrink the running product.
proof fn lemma_fact_mono(a: nat, b: nat)
    requires
        a <= b,
    ensures
        fact(a) <= fact(b),
    decreases b,
{
    if a < b {
        lemma_fact_mono(a, (b - 1) as nat);
        assert(b * fact((b - 1) as nat) >= fact((b - 1) as nat)) by (nonlinear_arith)
            requires
                b >= 1,
        ;
    }
}

/// The falling product of length `a` times the factorial of the
/// remaining `64 - a` factors is the full factorial of 64.
proof fn lemma_falling_fact_total(a: nat)
    requires
        a <= 64,
    ensures
        falling_prod(a) * fact((64 - a) as nat) == fact(64),
    decreases a,
{
    if a == 0 {
        assert(falling_prod(0) == 1);
        assert(1 * fact(64) == fact(64)) by (nonlinear_arith);
    } else {
        lemma_falling_fact_total((a - 1) as nat);
        let x = falling_prod((a - 1) as nat);
        let y = (65 - a) as nat;
        let z = fact((64 - a) as nat);
        assert(falling_prod(a) == y * x);
        assert(fact((65 - a) as nat) == y * z) by {
            if a == 64 {
                assert(fact(1) == 1 && fact(0) == 1);
                assert(1nat * 1nat == 1nat) by (nonlinear_arith);
            } else {
                assert(fact((65 - a) as nat) == ((65 - a) as nat) * fact((64 - a) as nat));
            }
        }
        assert((y * x) * z == x * (y * z)) by (nonlinear_arith);
        assert(x * fact((65 - a) as nat) == fact(64));
    }
}

/// There is exactly one 64-bit value with all 64 bits set.
pub proof fn lemma_class_size_64()
    ensures
        class_size(64) == 1,
{
    lemma_falling_fact_total(64);
    lemma_fact_pos(64);
    assert(fact(0) == 1);
    assert(falling_prod(64) * 1 == falling_prod(64)) by (nonlinear_arith);
    assert(falling_prod(64) / fact(64) == 1) by (nonlinear_arith)
        requires
            falling_prod(64) == fact(64) && fact(64) >= 1,
    ;
}

proof fn lemma_fact_pos(a: nat)
    ensures
        fact(a) >= 1,
    decreases a,
{
    if a > 1 {
        lemma_fact_pos((a - 1) as nat);
        assert(a * fact((a - 1) as nat) >= 1) by (nonlinear_arith)
            requires
                a >= 1 && fact((a - 1) as nat) >= 1,
        ;
    }
}

/// Product of `64 - weight + 1 ..= 64` with overflow detection: `None`
/// exactly when the product does not fit a 64-bit counter.
fn falling_checked(weight: u32) -> (r: Option<u64>)
    requires
        2 <= weight <= 64,
    ensures
        falling_fits(weight as nat) ==> r == Some((falling_prod(weight as nat)) as u64),
        !falling_fits(weight as nat) ==> r is None,
{
    let mut acc: u64 = 1;
    let mut k: u32 = 0;
    while k < weight
        invariant
            k <= weight <= 64,
            acc == falling_prod(k as nat),
        decreases weight - k,
    {
        let term: u64 = 64 - k as u64;
        proof {
            assert(falling_prod((k + 1) as nat) == ((65 - (k + 1)) as nat) * falling_prod(
                k as nat,
            ));
            assert((acc as nat) * (term as nat) == (term as nat) * (acc as nat))
                by (nonlinear_arith);
        }
        match acc.checked_mul(term) {
            Some(p) => {
                acc = p;
                k = k + 1;
            },
            None => {
                proof {
                    lemma_falling_mono((k + 1) as nat, weight as nat);
                }
                return None;
            },
        }
    }
    Some(acc)
}

/// Factorial of `weight` with overflow detection: `None` exactly when it
/// does not fit a 64-bit counter.
fn fact_checked(weight: u32) -> (r: Option<u64>)
    requires
        2 <= weight <= 64,
    ensures
        fact_fits(weight as nat) ==> r == Some((fact(weight as nat)) as u64),
        !fact_fits(weight as nat) ==> r is None,
{
    let mut acc: u64 = 1;
    let mut k: u32 = 1;
    while k < weight
        invariant
            1 <= k <= weight <= 64,
            acc == fact(k as nat),
        decreases weight - k,
    {
        let term: u64 = k as u64 + 1;
        proof {
            assert(fact((k + 1) as nat) == ((k + 1) as nat) * fact(k as nat));
            assert((acc as nat) * (term as nat) == (term as nat) * (acc as nat))
                by (nonlinear_arith);
        }
        match acc.checked_mul(term) {
            Some(p) => {
                acc = p;
                k = k + 1;
            },
            None => {
                proof {
                    lemma_fact_mono((k + 1) as nat, weight as nat);
                }
                return None;
            },
        }
    }
    Some(acc)
}

/// The combination count C(64, weight) by the multiplicative formula,
/// `None` exactly when an intermediate product overflows a 64-bit counter.
fn weight_count(weight: u32) -> (r: Option<u64>)
    requires
        2 <= weight <= 64,
    ensures
        (falling_fits(weight as nat) && fact_fits(weight as nat)) <==> r is Some,
        r is Some ==> class_size(weight as nat) <= u64::MAX && r == Some(
            (class_size(weight as nat)) as u64,
        ),
{
    match falling_checked(weight) {
        None => None,
        Some(n) => match fact_checked(weight) {
            None => None,
            Some(m) => {
                proof {
                    lemma_fact_pos(weight as nat);
                    assert(falling_prod(weight as nat) / fact(weight as nat) <= falling_prod(
                        weight as nat,
                    )) by (nonlinear_arith)
                        requires
                            fact(weight as nat) >= 1,
                    ;
                }
                Some(n / m)
            },
        },
    }
}

/// A lazy cursor over one weight class, tagged by generation strategy.
#[derive(Clone, Copy)]
pub enum WeightIter {
    /// Weight 0: the single value 0.
    Zero { done: bool },
    /// Weight 1: the 64 powers of two, in ascending order.
    Powers { shift: u32 },
    /// Weight 2 and up when the combination count is known (it fits a
    /// 64-bit counter, or the weight is 64, whose class has one member):
    /// exactly `remaining` further successor steps.
    Counted { asc: Ascender, remaining: u64, w: Ghost<nat> },
    /// Weight 2 and up when the count's numerator overflows: a successor
    /// walk with no precomputed count, bounded instead by the class's own
    /// top element — the step after it would wrap past 2^64, which the
    /// cursor detects and turns into its end.
    Unbounded { asc: Ascender, done: bool, w: Ghost<nat> },
}

/// Whether the weight-class enumerator for `w` set bits (with `w` at
/// least 2) uses the counted strategy: either the combination count fits
/// a 64-bit counter, or `w` is 64, whose class holds the single value
/// with every bit set.
pub open spec fn counted_strategy(w: nat) -> bool {
    w == 64 || (falling_fits(w) && fact_fits(w) && class_size(w) > 0)
}

impl WeightIter {
    /// The population count this cursor enumerates.
    pub open spec fn weight(self) -> nat {
        match self {
            WeightIter::Zero { .. } => 0,
            WeightIter::Powers { .. } => 1,
            WeightIter::Counted { w, .. } => w@,
            WeightIter::Unbounded { w, .. } => w@,
        }
    }

    /// How many values have been produced so far.
    pub open spec fn index(self) -> nat {
        match self {
            WeightIter::Zero { done } => if done {
                1
            } else {
                0
            },
            WeightIter::Powers { shift } => shift as nat,
            WeightIter::Counted { asc, .. } => asc.steps@,
            WeightIter::Unbounded { asc, .. } => asc.steps@,
        }
    }

    /// Whether this cursor has reached its end and produces nothing more.
    pub open spec fn ended(self) -> bool {
        match self {
            WeightIter::Zero { done } => done,
            WeightIter::Powers { shift } => shift >= 64,
            WeightIter::Counted { remaining, .. } => remaining == 0,
            WeightIter::Unbounded { done, .. } => done,
        }
    }

    /// Internal consistency: the cursor sits `index()` successor steps
    /// into the chain seeded at its class's smallest member, and a counted
    /// cursor's remaining budget complements its position.
    pub open spec fn wf(self) -> bool {
        match self {
            WeightIter::Zero { done } => true,
            WeightIter::Powers { shift } => shift <= 64,
            WeightIter::Counted { asc, remaining, w } => {
                &&& asc.wf()
                &&& 2 <= w@ <= 64
                &&& asc.origin@ == seed_of(w@)
                &&& asc.steps@ + remaining == class_size(w@)
            },
            WeightIter::Unbounded { asc, done, w } => {
                &&& asc.wf()
                &&& 2 <= w@ <= 64
                &&& asc.origin@ == seed_of(w@)
                &&& (!done ==> chain_ok(seed_of(w@), asc.steps@))
            },
        }
    }

    /// The value this cursor will produce `k` pulls from now, or `None`
    /// if it will have ended by then.
    pub open spec fn stream_elem(self, k: nat) -> Option<u64> {
        match self {
            WeightIter::Zero { done } => if self.index() + k < 1 {
                Some(0u64)
            } else {
                None
            },
            WeightIter::Powers { shift } => if shift + k < 64 {
                Some(1u64 << ((shift + k) as u64))
            } else {
                None
            },
            WeightIter::Counted { asc, remaining, w } => if k < remaining {
                Some(class_elem(w@, asc.steps@ + k))
            } else {
                None
            },
            WeightIter::Unbounded { asc, done, w } => if !done && chain_ok(
                seed_of(w@),
                asc.steps@ + k,
            ) {
                Some(class_elem(w@, asc.steps@ + k))
            } else {
                None
            },
        }
    }

    /// The value `k` pulls from now, defaulting to 0 past the end of the
    /// stream.
    pub open spec fn stream_val(self, k: nat) -> u64 {
        match self.stream_elem(k) {
            Some(v) => v,
            None => 0,
        }
    }

    /// Produce the next value of the class, or `None` once the strategy's
    /// budget is exhausted — a precomputed count, a position bound, or
    /// the class's own top element.
    pub fn next(&mut self) -> (r: Option<u64>)
        requires
            old(self).wf(),
        ensures
            final(self).wf(),
            final(self).weight() == old(self).weight(),
            (*final(self) is Zero) <==> (*old(self) is Zero),
            (*final(self) is Powers) <==> (*old(self) is Powers),
            (*final(self) is Counted) <==> (*old(self) is Counted),
            (*final(self) is Unbounded) <==> (*old(self) is Unbounded),
            r == old(self).stream_elem(0),
            r is Some ==> final(self).index() == old(self).index() + 1,
            r is None ==> *final(self) == *old(self),
            forall|k: nat| final(self).stream_elem(k) == old(self).stream_elem(k + 1),
            (*old(self) is Unbounded && r is Some) ==> (final(self).ended() <==> !step_ok(
                class_elem(old(self).weight(), old(self).index()),
            )),
    {
        match *self {
            WeightIter::Zero { done } => {
                if done {
                    None
                } else {
                    *self = WeightIter::Zero { done: true };
                    Some(0)
                }
            },
            WeightIter::Powers { shift } => {
                if shift < 64 {
                    let v = 1u64 << shift;
                    *self = WeightIter::Powers { shift: shift + 1 };
                    Some(v)
                } else {
                    None
                }
            },
            WeightIter::Counted { asc, remaining, w } => {
                if remaining == 0 {
                    None
                } else {
                    let mut a = asc;
                    let v = a.next();
                    *self = WeightIter::Counted { asc: a, remaining: remaining - 1, w };
                    Some(v)
                }
            },
            WeightIter::Unbounded { asc, done, w } => {
                if done {
                    None
                } else {
                    let mut a = asc;
                    let top = a.at_class_top();
                    let v = a.next();
                    *self = WeightIter::Unbounded { asc: a, done: top, w };
                    proof {
                        let s = seed_of(w@);
                        let n0 = asc.steps@;
                        assert(ascended(s, n0) == asc.acc);
                        if top {
                            assert forall|k: nat| !(#[trigger] chain_ok(s, n0 + k + 1)) by {
                                if chain_ok(s, n0 + k + 1) {
                                    assert(n0 < n0 + k + 1);
                                    assert(step_ok(ascended(s, n0)));
                                }
                            }
                        } else {
                            assert forall|j: nat| j < n0 + 1 implies step_ok(
                                #[trigger] ascended(s, j),
                            ) by {
                                if j == n0 {
                                    assert(ascended(s, n0) == asc.acc);
                                }
                            }
                            assert(chain_ok(s, n0 + 1));
                        }
                    }
                    Some(v)
                }
            },
        }
    }
}

/// Start the weight-class enumerator for `weight` set bits.
///
/// `weight` must be at most 64: no 64-bit value has a larger population
/// count, and the combination formula is degenerate beyond it, so larger
/// arguments are rejected outright as a precondition.
pub fn hamming_weight_iter(weight: u32) -> (r: WeightIter)
    requires
        weight <= 64,
    ensures
        r.wf(),
        r.weight() == weight as nat,
        r.index() == 0,
        !r.ended(),
        (r is Zero) <==> weight == 0,
        (r is Powers) <==> weight == 1,
        (r is Counted) <==> (2 <= weight && counted_strategy(weight as nat)),
        (r is Unbounded) <==> (2 <= weight && !counted_strategy(weight as nat)),
{
    if weight == 0 {
        WeightIter::Zero { done: false }
    } else if weight == 1 {
        WeightIter::Powers { shift: 0 }
    } else {
        let seed: u64 = if weight == 64 {
            u64::MAX
        } else {
            proof {
                assert(1u64 << weight >= 2) by (bit_vector)
                    requires
                        1 <= weight < 64,
                ;
            }
            (1u64 << weight) - 1
        };
        assert(seed == seed_of(weight as nat));
        let asc = hamming_ascend(seed);
        if weight == 64 {
            proof {
                lemma_class_size_64();
            }
            WeightIter::Counted { asc, remaining: 1, w: Ghost(weight as nat) }
        } else {
            match weight_count(weight) {
                Some(c) => {
                    if c > 0 {
                        WeightIter::Counted { asc, remaining: c, w: Ghost(weight as nat) }
                    } else {
                        WeightIter::Unbounded { asc, done: false, w: Ghost(weight as nat) }
                    }
                },
                None => WeightIter::Unbounded { asc, done: false, w: Ghost(weight as nat) },
            }
        }
    }
}

} // verus!
