//! The game's one source of chance: which piece comes next.
use vstd::prelude::*;
use rand::Rng;

verus! {

/// A number drawn from `low .. high` by `rand::thread_rng().gen_range(low..high)`
/// (rand 0.8). The contract claims only what the rand documentation and source
/// promise of every outcome: the number lies in the half-open range. Which
/// number comes out depends on the thread's generator and is not stated.
/// `gen_range` panics on an empty range, which `requires` rules out; that
/// `thread_rng` panics when the system cannot seed it is not stated here.
#[verifier::external_body]
pub(crate) fn gen_range(low: u8, high: u8) -> (r: u8)
    requires
        low < high,
    ensures
        low <= r < high,
{
    rand::thread_rng().gen_range(low..high)
}

} // verus!
