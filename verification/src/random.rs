//! Random choices used by the battle screens.

use vstd::prelude::*;
use rand::Rng;

verus! {

/// A uniformly drawn index below `n`, from the thread-local generator.
///
/// Trusted: `rand::Rng::gen_range` (rand 0.8) on `0..n` returns a value of the
/// range and panics only on an empty range, which `requires` rules out. Which
/// value comes back depends on chance and is left open.
#[verifier::external_body]
pub(crate) fn random_index(n: usize) -> (r: usize)
    requires
        n > 0,
    ensures
        r < n,
{
    rand::thread_rng().gen_range(0..n)
}

/// A uniformly drawn value of `lo..=hi`, from the thread-local generator.
///
/// Trusted: `rand::Rng::gen_range` (rand 0.8) on `lo..=hi` returns a value of the
/// range and panics only on an empty range, which `requires` rules out. Which
/// value comes back depends on chance and is left open.
#[verifier::external_body]
pub(crate) fn random_in(lo: u32, hi: u32) -> (r: u32)
    requires
        lo <= hi,
    ensures
        lo <= r <= hi,
{
    rand::thread_rng().gen_range(lo..=hi)
}

} // verus!
