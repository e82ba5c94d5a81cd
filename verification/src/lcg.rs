//! The linear congruential generator that drives every pseudo-random access
//! pattern in the engine: `state' = state * 1103515245 + 12345 (mod 2^64)`.
//! It is deterministic by design, so access patterns are reproducible.

use vstd::prelude::*;
use vstd::arithmetic::div_mod::{lemma_add_mod_noop, lemma_small_mod};

verus! {

pub const LCG_MULTIPLIER: u64 = 1_103_515_245;

pub const LCG_INCREMENT: u64 = 12_345;

/// The next generator state.
pub open spec fn lcg_next_spec(state: int) -> int {
    (state * (LCG_MULTIPLIER as int) + (LCG_INCREMENT as int)) % 0x1_0000_0000_0000_0000
}

/// Advances the generator by one step.
pub fn lcg_next(state: u64) -> (r: u64)
    ensures
        r == lcg_next_spec(state as int),
{
    proof {
        let m: int = 0x1_0000_0000_0000_0000;
        let prod: int = (state as int) * (LCG_MULTIPLIER as int);
        lemma_add_mod_noop(prod, LCG_INCREMENT as int, m);
        lemma_small_mod(LCG_INCREMENT as nat, m as nat);
        assert(prod % m >= 0);
        assert(prod % m < m);
        assert((prod % m + LCG_INCREMENT) % m == (prod + LCG_INCREMENT as int) % m);
        if prod % m + LCG_INCREMENT < m {
            lemma_small_mod((prod % m + LCG_INCREMENT) as nat, m as nat);
        }
    }
    state.wrapping_mul(LCG_MULTIPLIER).wrapping_add(LCG_INCREMENT)
}

} // verus!
