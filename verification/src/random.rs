use vstd::prelude::*;
use rand::Rng;

verus! {

/// A number below `bound`, drawn by chance.
///
/// Calls `rand::thread_rng` and, on the generator it hands out,
/// `rand::Rng::gen_range` with the range from 0 up to, not including,
/// `bound`. `gen_range` panics on an empty range, which `bound > 0`
/// excludes, and returns a number of the range. Which one is not said: two
/// calls may differ. `thread_rng` panics where the operating system cannot
/// seed it.
#[verifier::external_body]
pub(crate) fn random_below(bound: u32) -> (number: u32)
    requires
        bound > 0,
    ensures
        number < bound,
{
    rand::thread_rng().gen_range(0..bound)
}

} // verus!
