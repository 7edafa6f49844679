//! The source of chance: the thread-local generator of the `rand` crate.

use vstd::prelude::*;
use rand::rngs::ThreadRng;
use rand::Rng;

verus! {

/// `rand::rngs::ThreadRng`, a handle to the generator of the running thread.
/// Nothing is known of its state.
#[verifier::external_type_specification]
#[verifier::external_body]
pub struct ExThreadRng(ThreadRng);

/// `rand::thread_rng`: a handle to the thread's generator, which the system
/// seeds on first use. Nothing is claimed of the handle.
pub assume_specification[ rand::thread_rng ]() -> (rng: ThreadRng)
;

/// `Rng::gen_ratio`: a draw that comes out `true` with the chance
/// `numerator / denominator`. Only the two certain cases are claimed: a
/// chance of one always hits, a chance of zero never does. The call panics
/// on a zero denominator and on a chance above one, which are left out.
#[verifier::external_body]
pub(crate) fn draw_ratio(rng: &mut ThreadRng, numerator: u32, denominator: u32) -> (hit: bool)
    requires
        denominator != 0,
        numerator <= denominator,
    ensures
        numerator == denominator ==> hit,
        numerator == 0 ==> !hit,
{
    rng.gen_ratio(numerator, denominator)
}

} // verus!
