//! When to try again after the connection was lost.

use vstd::arithmetic::power2::{lemma2_to64, lemma_pow2_strictly_increases, lemma_pow2_unfold, pow2};
use vstd::prelude::*;

verus! {

/// The milliseconds to wait before attempt `attempts` to reconnect: one
/// before the first, and twice as many with every further attempt.
pub fn retry_delay_millis(attempts: usize) -> (out: u64)
    requires
        attempts < 64,
    ensures
        out == pow2(attempts as nat),
{
    let mut out: u64 = 1;
    let mut i: usize = 0;
    proof {
        lemma2_to64();
    }
    while i < attempts
        invariant
            i <= attempts < 64,
            out == pow2(i as nat),
        decreases attempts - i,
    {
        proof {
            lemma2_to64();
            lemma_pow2_unfold((i + 1) as nat);
            if i + 1 < 64 {
                lemma_pow2_strictly_increases((i + 1) as nat, 64);
            }
        }
        out = out * 2;
        i = i + 1;
    }
    out
}

} // verus!
