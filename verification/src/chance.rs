//! What the bot leaves to chance.

use vstd::prelude::*;
use rand::Rng;

verus! {

/// `rand::Rng::gen_range` on `rand::thread_rng()`, asked for a number of the
/// range `0..bound`: whatever comes lies in that range. An empty range is left
/// out, as `gen_range` panics on it.
#[verifier::external_body]
pub(crate) fn random_below(bound: usize) -> (index: usize)
    requires
        bound > 0,
    ensures
        index < bound,
{
    rand::thread_rng().gen_range(0..bound)
}

/// `rand::Rng::gen_ratio` on `rand::thread_rng()`: true with a chance of
/// `numerator` in `denominator`, so never when the numerator is zero and
/// always when the two are equal. A zero denominator and a numerator above
/// the denominator are left out, as `gen_ratio` panics on them.
#[verifier::external_body]
pub(crate) fn random_ratio(numerator: u32, denominator: u32) -> (hit: bool)
    requires
        0 < denominator,
        numerator <= denominator,
    ensures
        numerator == 0 ==> !hit,
        numerator == denominator ==> hit,
{
    rand::thread_rng().gen_ratio(numerator, denominator)
}

} // verus!
