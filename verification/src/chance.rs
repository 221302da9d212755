//! The secret number's source of chance.

use vstd::prelude::*;
use rand::Rng;

verus! {

/// Calls `rand::Rng::gen_range` on the generator that `rand::thread_rng`
/// returns. Believed, not proved: for `low < high` the call returns a number
/// from `low` up to, but not including, `high`. Which one is left open, so
/// two calls may differ. The call panics for `low >= high`, which the
/// precondition excludes.
#[verifier::external_body]
fn uniform_between(low: u64, high: u64) -> (n: u64)
    requires
        low < high,
    ensures
        low <= n < high,
{
    rand::thread_rng().gen_range(low, high)
}

/// Draws a secret number from 1 to `max`, both included, each with the same
/// chance.
pub fn draw_secret(max: u32) -> (secret: u32)
    requires
        max >= 1,
    ensures
        1 <= secret <= max,
{
    let n: u64 = uniform_between(1, max as u64 + 1);
    n as u32
}

} // verus!
