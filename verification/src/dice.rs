use rand::Rng;
use vstd::prelude::*;

verus! {

/// Calls `rand::Rng::gen_range` with the inclusive range `low..=high` on the
/// thread-local generator (`rand::thread_rng`). Claimed: the value lies in the
/// range (the range is not empty, so the call does not panic). Which value
/// comes out is left open: it is drawn at random. `thread_rng` panics if the
/// operating system cannot seed it; nothing here rules that out.
#[verifier::external_body]
pub(crate) fn random_between(low: u64, high: u64) -> (r: u64)
    requires
        low <= high,
    ensures
        low <= r <= high,
{
    rand::thread_rng().gen_range(low..=high)
}

/// Rolls a die whose faces are the integers `low..=high`.
pub fn roll_die(low: i32, high: i32) -> (r: i32)
    requires
        0 <= low <= high,
    ensures
        low <= r <= high,
{
    random_between(low as u64, high as u64) as i32
}

/// Picks an index below `n` at random.
pub fn pick_index(n: usize) -> (i: usize)
    requires
        n > 0,
    ensures
        i < n,
{
    random_between(0, (n - 1) as u64) as usize
}

} // verus!
