//! The random numbers that the game draws, from the `rand` crate.

use rand::rngs::ThreadRng;
use rand::Rng;
use vstd::prelude::*;

verus! {

/// The handle of `rand`'s generator of the current thread. Nothing is known
/// of what it holds.
#[verifier::external_type_specification]
#[verifier::external_body]
pub struct ExThreadRng(ThreadRng);

/// `rand::thread_rng`: the handle of the current thread's generator. Nothing
/// is claimed of it. The generator is seeded from the system on its first
/// use in a thread, and `rand` panics there if the system gives it no seed.
pub assume_specification[ rand::thread_rng ]() -> (rng: ThreadRng);

/// `rand::Rng::gen_range`, for `i16`: a number from `low` up to, and not
/// including, `high`. Which one it is, is not known, and two calls may give
/// two numbers. `gen_range` panics where `low` is not below `high`.
#[verifier::external_body]
pub(crate) fn gen_range(rng: &mut ThreadRng, low: i16, high: i16) -> (value: i16)
    requires
        low < high,
    ensures
        low <= value < high,
{
    rng.gen_range(low, high)
}

} // verus!
