//! The random source that headings are drawn from.
//!
//! Everything here is taken on trust from the `rand` crate: the contracts
//! restate what its documentation and source promise and are not proved.

use vstd::prelude::*;
use rand::Rng;

verus! {

/// `rand::rngs::ThreadRng`, the handle of the running thread's generator.
/// Nothing of its state is visible to the proofs.
#[verifier::external_type_specification]
#[verifier::external_body]
pub struct ExThreadRng(rand::rngs::ThreadRng);

/// `rand::thread_rng` hands out the handle of the running thread's generator,
/// which the operating system seeds. Nothing is claimed of the handle.
pub assume_specification[ rand::thread_rng ]() -> (rng: rand::rngs::ThreadRng);

/// `Rng::gen_range` on the thread's generator, for integers: some value from
/// `low` up to, but not including, `high`. The call panics unless
/// `low < high`, so that is required. Which value is drawn is left open.
#[verifier::external_body]
pub(crate) fn sample_between(rng: &mut rand::rngs::ThreadRng, low: i32, high: i32) -> (n: i32)
    requires
        low < high,
    ensures
        low <= n < high,
{
    rng.gen_range(low, high)
}

} // verus!
