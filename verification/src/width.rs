//! The bit-width enumerator: all values representable in a given bit
//! width, grouped by ascending population count and ascending within each
//! group.  It concatenates the weight-class sequences for weights
//! `0 ..= width`, stopping each class eagerly at the first value that no
//! longer fits the width (each class is ascending, so nothing later in
//! the class could fit either).

use vstd::prelude::*;

use crate::model::class_elem;
use crate::model::seed_of;
use crate::model::step_ok;
use crate::weight::counted_strategy;
use crate::weight::hamming_weight_iter;
use crate::weight::WeightIter;

verus! {

/// Whether `v` is representable in `bits` bits.
pub open spec fn fits_width(v: u64, bits: u32) -> bool {
    bits == 64 || v < (1u64 << (bits as u64))
}

/// Whether the class cursor will yield one more value that fits the width.
pub open spec fn yields_now(it: WeightIter, bits: u32) -> bool {
    match it.stream_elem(0) {
        Some(v) => fits_width(v, bits),
        None => false,
    }
}

/// Whether a produced value, if any, is representable in `bits` bits.
pub open spec fn opt_fits(r: Option<u64>, bits: u32) -> bool {
    match r {
        Some(v) => fits_width(v, bits),
        None => true,
    }
}

/// Cursor over all values of at most `bits` bits, weight-major and
/// value-minor.  `weight` is the class currently being drained; once it
/// passes `bits` the enumeration is over.
#[derive(Clone, Copy)]
pub struct HammingIter {
    pub bits: u32,
    pub weight: u32,
    pub inner: WeightIter,
}

impl HammingIter {
    /// The current class cursor enumerates the current weight, which
    /// never runs more than one past the width bound.
    pub open spec fn wf(self) -> bool {
        &&& self.bits <= 64
        &&& self.weight <= self.bits + 1
        &&& (self.weight <= self.bits ==> self.inner.wf() && self.inner.weight()
            == self.weight as nat)
    }

    /// Produce the next value of the enumeration, or `None` once every
    /// weight class up to the width bound is exhausted.
    pub fn next(&mut self) -> (r: Option<u64>)
        requires
            old(self).wf(),
        ensures
            final(self).wf(),
            final(self).bits == old(self).bits,
            final(self).weight >= old(self).weight,
            opt_fits(r, old(self).bits),
            old(self).weight > old(self).bits ==> (r is None && *final(self) == *old(self)),
            (old(self).weight <= old(self).bits && yields_now(old(self).inner, old(self).bits))
                ==> (r == old(self).inner.stream_elem(0) && final(self).weight == old(self).weight
                && final(self).inner.index() == old(self).inner.index() + 1),
            (old(self).weight <= old(self).bits && yields_now(old(self).inner, old(self).bits))
                ==> (forall|k: nat|
                final(self).inner.stream_elem(k) == old(self).inner.stream_elem(k + 1)),
            (old(self).weight == old(self).bits && !yields_now(old(self).inner, old(self).bits))
                ==> (r is None && final(self).weight == old(self).bits + 1),
            (old(self).weight < old(self).bits && !yields_now(old(self).inner, old(self).bits))
                ==> (r == Some(seed_of((old(self).weight + 1) as nat)) && final(self).weight == old(
                self,
            ).weight + 1 && final(self).inner.index() == 1),
            (old(self).weight < old(self).bits && !yields_now(old(self).inner, old(self).bits))
                ==> ((final(self).inner is Powers) <==> old(self).weight + 1 == 1),
            (old(self).weight < old(self).bits && !yields_now(old(self).inner, old(self).bits))
                ==> ((final(self).inner is Counted) <==> (2 <= old(self).weight + 1
                && counted_strategy((old(self).weight + 1) as nat))),
            (old(self).weight < old(self).bits && !yields_now(old(self).inner, old(self).bits))
                ==> ((final(self).inner is Unbounded) <==> (2 <= old(self).weight + 1
                && !counted_strategy((old(self).weight + 1) as nat))),
            (old(self).weight < old(self).bits && !yields_now(old(self).inner, old(self).bits)
                && final(self).inner is Unbounded) ==> (final(self).inner.ended() <==> !step_ok(
                class_elem((old(self).weight + 1) as nat, 0),
            )),
    {
        if self.weight > self.bits {
            return None;
        }
        let v_opt = self.inner.next();
        let keep: bool = match v_opt {
            Some(v) => self.bits == 64 || v < (1u64 << self.bits),
            None => false,
        };
        if keep {
            return v_opt;
        }
        let w2 = self.weight + 1;
        self.weight = w2;
        if w2 > self.bits {
            return None;
        }
        let mut fresh = hamming_weight_iter(w2);
        let v2 = fresh.next();
        self.inner = fresh;
        proof {
            assert(1u64 << 0u64 == 1 && 1u64 << 1u64 == 2) by (bit_vector);
            if self.bits < 64 {
                let wq = w2 as u64;
                let bq = self.bits as u64;
                assert((((1u64 << wq) - 1) as u64) < (1u64 << bq)) by (bit_vector)
                    requires
                        wq <= bq < 64,
                ;
            }
        }
        v2
    }
}

/// Start the bit-width enumerator: all values in `[0, 2^bits)` (all of
/// `[0, 2^64)` when `bits` is 64), ordered by ascending population count
/// and ascending value within each count.  `bits` must be at most 64;
/// larger widths are rejected outright as a precondition.
pub fn hamming_iter(bits: u32) -> (r: HammingIter)
    requires
        bits <= 64,
    ensures
        r.wf(),
        r.bits == bits,
        r.weight == 0,
        r.inner is Zero,
        r.inner.index() == 0,
{
    HammingIter { bits, weight: 0, inner: hamming_weight_iter(0) }
}

} // verus!
