//! The ascender: a cursor that walks the lazy, strictly ascending sequence
//! of equal-population-count values by a constant-time successor rule.

use vstd::prelude::*;

use crate::model::ascend_step;
use crate::model::ascended;
use crate::model::low_bit;
use crate::model::step_ok;

verus! {

/// `u64::wrapping_add` agrees with truncating the mathematical sum.
proof fn lemma_wrapping_add_is_truncated_sum(x: u64, y: u64)
    ensures
        vstd::wrapping::u64_specs::wrapping_add(x, y) == (x + y) as u64,
{
    if x + y > u64::MAX {
        assert((x + y - 0x1_0000_0000_0000_0000) as u64 == (x + y) as u64) by (bit_vector)
            requires
                x + y > u64::MAX,
        ;
    }
}

/// Cursor over the ascending sequence of values reached by iterating the
/// successor rule from a starting pattern.  The ghost fields record the
/// starting pattern and how many steps have been taken, so that the value
/// held is always `ascended(origin, steps)`.
#[derive(Clone, Copy)]
pub struct Ascender {
    pub acc: u64,
    pub origin: Ghost<u64>,
    pub steps: Ghost<nat>,
}

impl Ascender {
    /// The cursor holds exactly the `steps`-fold successor of its origin.
    pub open spec fn wf(self) -> bool {
        self.acc == ascended(self.origin@, self.steps@)
    }

    /// Produce the value at the cursor and advance it one successor step.
    ///
    /// The step wraps modulo 2^64 by design; when the cursor is 0 (which
    /// never arises while the cursor is inside a weight class) it stays 0
    /// rather than dividing by zero.
    pub fn next(&mut self) -> (r: u64)
        requires
            old(self).wf(),
        ensures
            final(self).wf(),
            r == old(self).acc,
            final(self).origin == old(self).origin,
            final(self).steps@ == old(self).steps@ + 1,
            final(self).acc == ascend_step(old(self).acc),
    {
        let res = self.acc;
        let x = self.acc;
        if x != 0 {
            proof {
                assert(!x < u64::MAX) by (bit_vector)
                    requires
                        x != 0,
                ;
                assert(x & (!x + 1) as u64 != 0) by (bit_vector)
                    requires
                        x != 0,
                ;
            }
            let c = x & (!x + 1);
            assert(c == low_bit(x));
            let r2 = x.wrapping_add(c);
            proof {
                lemma_wrapping_add_is_truncated_sum(x, c);
            }
            self.acc = ((r2 ^ x) >> 2u64) / c | r2;
            assert(self.acc == ascend_step(x));
        } else {
            proof {
                assert(low_bit(0u64) == 0) by (bit_vector);
                assert(ascend_step(0u64) == 0);
            }
        }
        proof {
            self.steps@ = self.steps@ + 1;
            assert(ascended(self.origin@, self.steps@) == ascend_step(ascended(
                self.origin@,
                (self.steps@ - 1) as nat,
            )));
        }
        res
    }

    /// Whether the cursor sits on the largest member of its weight class,
    /// where one more successor step would wrap past 2^64 (also true on
    /// the out-of-class cursor 0).
    pub fn at_class_top(&self) -> (r: bool)
        ensures
            r == !step_ok(self.acc),
    {
        if self.acc == 0 {
            true
        } else {
            let x = self.acc;
            proof {
                assert(!x < u64::MAX) by (bit_vector)
                    requires
                        x != 0,
                ;
            }
            let c = x & (!x + 1);
            let r2 = x.wrapping_add(c);
            proof {
                lemma_wrapping_add_is_truncated_sum(x, c);
            }
            r2 == 0
        }
    }
}

/// Start an ascender at `start`: the first value produced is `start`
/// itself, and each later value is the successor of the one before it.
/// A start of 0 carries no set bits to ascend from and is rejected
/// outright.
pub fn hamming_ascend(start: u64) -> (r: Ascender)
    requires
        start != 0,
    ensures
        r.wf(),
        r.acc == start,
        r.origin@ == start,
        r.steps@ == 0,
{
    Ascender { acc: start, origin: Ghost(start), steps: Ghost(0) }
}

} // verus!
