//! Random draws from the `rand` crate's thread-local generator.
use vstd::prelude::*;

use rand::seq::IteratorRandom;
use rand::Rng;

verus! {

#[verifier::external_type_specification]
#[verifier::external_body]
pub struct ExThreadRng(rand::rngs::ThreadRng);

/// Calls `rand::thread_rng`. Nothing is claimed of the generator.
#[verifier::external_body]
pub fn thread_rng() -> (r: rand::rngs::ThreadRng) {
    rand::thread_rng()
}

/// Calls `IteratorRandom::choose` on the range `0..n`. Claimed, as the
/// source shows for an iterator of exact length: `None` exactly when the
/// range is empty, otherwise some index below `n`. Which index comes out
/// is left to chance.
#[verifier::external_body]
pub fn choose_index(rng: &mut rand::rngs::ThreadRng, n: usize) -> (r: Option<usize>)
    ensures
        r is None <==> n == 0,
        r matches Some(i) ==> i < n,
{
    (0..n).choose(rng)
}

/// Calls `Rng::gen_range` on `0..high`. Claimed: the value lies in the
/// range; `high` must be positive, since an empty range panics.
#[verifier::external_body]
pub fn gen_range_below(rng: &mut rand::rngs::ThreadRng, high: i64) -> (r: i64)
    requires
        0 < high,
    ensures
        0 <= r < high,
{
    rng.gen_range(0..high)
}

/// Calls `Rng::gen_ratio`. Claimed, as its documentation says: a
/// numerator of zero never gives `true`, a numerator equal to the
/// denominator always does. The call panics when the denominator is zero or
/// smaller than the numerator, so those inputs are excluded.
#[verifier::external_body]
pub fn gen_ratio(rng: &mut rand::rngs::ThreadRng, numerator: u32, denominator: u32) -> (r: bool)
    requires
        0 < denominator,
        numerator <= denominator,
    ensures
        numerator == 0 ==> !r,
        numerator == denominator ==> r,
{
    rng.gen_ratio(numerator, denominator)
}

} // verus!
