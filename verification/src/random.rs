//! Random sampling, injected as an explicit dependency so deterministic
//! substitutes can drive tests.

use vstd::prelude::*;

verus! {

/// A source of uniformly distributed random integers.
pub trait RandomSource {
    /// Draw an integer from the inclusive range `[lo, hi]`.
    fn pick(&mut self, lo: u64, hi: u64) -> (r: u64)
        requires
            lo <= hi,
        ensures
            lo <= r <= hi,
    ;
}

/// The process-wide random generator.
pub struct ThreadRandom;

impl RandomSource for ThreadRandom {
    fn pick(&mut self, lo: u64, hi: u64) -> (r: u64) {
        random_in_range(lo, hi)
    }
}

/// Relies on `rand::random_range`: a uniform draw from the inclusive range,
/// which panics only when the range is empty.
#[verifier::external_body]
fn random_in_range(lo: u64, hi: u64) -> (r: u64)
    requires
        lo <= hi,
    ensures
        lo <= r <= hi,
{
    rand::random_range(lo..=hi)
}

} // verus!
