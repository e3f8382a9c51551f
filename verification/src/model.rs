//! The mathematical model: population count, the constant-time successor
//! formula on bit patterns, iterated successor chains, the seed (smallest
//! member) of each weight class, and the combination counts that bound the
//! weight-class sequences.

use vstd::prelude::*;

verus! {

/// Number of set bits among the lowest `n` bits of `x`.
pub open spec fn popn(x: u64, n: u64) -> u64
    decreases n,
{
    if n == 0 {
        0
    } else {
        ((x & 1) + popn(x >> 1, (n - 1) as u64)) as u64
    }
}

/// Population count (Hamming weight) of a 64-bit value.
pub open spec fn pop(x: u64) -> u64 {
    popn(x, 64)
}

/// The lowest set bit of `x`, isolated via two's-complement negation;
/// 0 when `x` is 0.
pub open spec fn low_bit(x: u64) -> u64 {
    x & ((!x + 1) as u64)
}

/// One step of the successor rule: the next bit pattern produced by the
/// ascender after `x`.  Arithmetic wraps modulo 2^64.  For an `x` that is
/// neither 0 nor the top element of its weight class, this is the smallest
/// value greater than `x` with the same population count.
pub open spec fn ascend_step(x: u64) -> u64 {
    let c = low_bit(x);
    let r = (x + c) as u64;
    if c == 0 {
        r
    } else {
        (((r ^ x) >> 2) / c) | r
    }
}

/// The value reached after `n` successor steps starting from `s`.
pub open spec fn ascended(s: u64, n: nat) -> u64
    decreases n,
{
    if n == 0 {
        s
    } else {
        ascend_step(ascended(s, (n - 1) as nat))
    }
}

/// A step from `x` stays inside the weight class: `x` is nonzero and
/// adding its lowest set bit does not wrap past 2^64 (which happens
/// exactly when `x` is the largest member of its class).
pub open spec fn step_ok(x: u64) -> bool {
    &&& x != 0
    &&& (x + low_bit(x)) as u64 != 0
}

/// The first `k` successor steps from `s` all stay inside the weight class.
pub open spec fn chain_ok(s: u64, k: nat) -> bool {
    forall|j: nat| j < k ==> step_ok(#[trigger] ascended(s, j))
}

/// The smallest 64-bit value with population count `w` (for `w <= 64`):
/// the `w` lowest bits set.
pub open spec fn seed_of(w: nat) -> u64 {
    if w == 64 {
        u64::MAX
    } else {
        ((1u64 << (w as u64)) - 1) as u64
    }
}

/// The `i`-th value (0-based) of the ascending weight-`w` sequence, as
/// produced by iterating the successor rule from the class seed.
pub open spec fn class_elem(w: nat, i: nat) -> u64 {
    ascended(seed_of(w), i)
}

/// Product of the `w` integers `64 - w + 1 ..= 64` (the falling factorial
/// of 64 of length `w`), the numerator of the combination count.
pub open spec fn falling_prod(w: nat) -> nat
    decreases w,
{
    if w == 0 {
        1
    } else if w > 64 {
        0
    } else {
        ((65 - w) as nat) * falling_prod((w - 1) as nat)
    }
}

/// Factorial of `w`, the denominator of the combination count.
pub open spec fn fact(w: nat) -> nat
    decreases w,
{
    if w <= 1 {
        1
    } else {
        w * fact((w - 1) as nat)
    }
}

/// The number of 64-bit values with population count `w`, as the spec
/// computes it: C(64, w) = (64 - w + 1) * ... * 64 / w!.
pub open spec fn class_size(w: nat) -> nat {
    falling_prod(w) / fact(w)
}

/// Whether the numerator product fits in a 64-bit counter.
pub open spec fn falling_fits(w: nat) -> bool {
    falling_prod(w) <= u64::MAX
}

/// Whether the denominator product fits in a 64-bit counter.
pub open spec fn fact_fits(w: nat) -> bool {
    fact(w) <= u64::MAX
}

} // verus!
