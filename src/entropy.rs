//! Draws from the thread-local generator of `rand`.
use vstd::prelude::*;

verus! {

#[verifier::external_type_specification]
#[verifier::external_body]
pub struct ExThreadRng(rand::rngs::ThreadRng);

/// Relies on rand::thread_rng: a handle on the thread's generator; nothing is
/// known of what it will draw.
pub assume_specification[ rand::thread_rng ]() -> rand::rngs::ThreadRng;

/// Relies on rand::Rng::gen_range over `0..bound`: a value below `bound`,
/// panicking only on an empty range, which `requires` leaves out.
#[verifier::external_body]
pub(crate) fn draw_below(rng: &mut rand::rngs::ThreadRng, bound: u32) -> (r: u32)
    requires
        0 < bound,
    ensures
        r < bound,
{
    rand::Rng::gen_range(rng, 0..bound)
}

/// Relies on rand::Rng::gen for `u128`: any value may come back.
#[verifier::external_body]
pub(crate) fn draw_key(rng: &mut rand::rngs::ThreadRng) -> u128 {
    rand::Rng::gen::<u128>(rng)
}

} // verus!
