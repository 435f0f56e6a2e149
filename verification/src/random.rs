//! Uniform integer draws from the thread-local generator of the `rand` crate.

use rand::Rng;
use vstd::prelude::*;

verus! {

/// The number of equally likely outcomes of a probability roll: a roll is an
/// integer in `0..ROLL_RANGE`, and an event of probability `p` thousandths
/// happens when the roll is below `p`.
pub const ROLL_RANGE: u32 = 1000;

/// Calls `rand::Rng::gen_range` on `rand::thread_rng()` with the half-open
/// range `0..bound`. `gen_range` panics on an empty range, which the
/// precondition excludes, and returns a member of the range. Which member is
/// left open: two calls may differ. The generator is seeded from the
/// operating system when a thread first uses it.
#[verifier::external_body]
pub(crate) fn uniform_below(bound: u32) -> (r: u32)
    requires
        bound > 0,
    ensures
        r < bound,
{
    rand::thread_rng().gen_range(0..bound)
}

/// Calls `rand::Rng::gen_range` on `rand::thread_rng()` with the half-open
/// range `low..high`. `gen_range` panics on an empty range, which the
/// precondition excludes, and returns a member of the range. Which member is
/// left open: two calls may differ. The generator is seeded from the
/// operating system when a thread first uses it.
#[verifier::external_body]
pub(crate) fn uniform_between(low: i64, high: i64) -> (r: i64)
    requires
        low < high,
    ensures
        low <= r < high,
{
    rand::thread_rng().gen_range(low..high)
}

/// Draws a probability roll.
pub fn roll() -> (r: u32)
    ensures
        r < ROLL_RANGE,
{
    uniform_below(ROLL_RANGE)
}

} // verus!
