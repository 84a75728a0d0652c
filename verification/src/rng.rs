//! Seeded randomness, supplied by the `rand` crate.
//!
//! The generator is deterministic for a fixed seed within one process, but
//! its stream is not specified here: every contract states only the range
//! of what comes back, so all verified logic holds for every outcome.

use rand::rngs::SmallRng;
use rand::{Rng, SeedableRng};
use vstd::prelude::*;

verus! {

#[verifier::external_type_specification]
#[verifier::external_body]
pub struct ExSmallRng(SmallRng);

/// Relies on rand's `SeedableRng::seed_from_u64` for `SmallRng`: it returns
/// a generator; nothing is promised of its stream.
#[verifier::external_body]
pub fn rng_from_seed(seed: u64) -> SmallRng {
    SmallRng::seed_from_u64(seed)
}

/// Relies on rand's `Rng::gen_range` over an inclusive `i64` range: the
/// result lies in `[lo, hi]`. The call panics on an empty range, so the
/// bounds must be ordered.
#[verifier::external_body]
pub fn rng_between(rng: &mut SmallRng, lo: i64, hi: i64) -> (r: i64)
    requires
        lo <= hi,
    ensures
        lo <= r <= hi,
{
    rng.gen_range(lo..=hi)
}

/// A uniform index below `n`.
pub fn rng_index(rng: &mut SmallRng, n: usize) -> (r: usize)
    requires
        0 < n,
        n <= i64::MAX,
    ensures
        r < n,
{
    let v: i64 = rng_between(rng, 0, (n as i64) - 1);
    v as usize
}

} // verus!
