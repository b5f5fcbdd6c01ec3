//! Trusted boundary to the `rand` crate: the thread-local generator and the
//! two kinds of draws the generator needs.  Nothing is assumed about which
//! value a draw returns beyond its range.

use rand::Rng;
use vstd::prelude::*;

verus! {

/// `rand`'s thread-local generator, opaque to the verifier.
#[verifier::external_type_specification]
#[verifier::external_body]
pub struct ExThreadRng(rand::rngs::ThreadRng);

/// Relies on `rand::thread_rng`: a handle to the thread-local generator.
#[verifier::external_body]
pub(crate) fn new_thread_rng() -> rand::rngs::ThreadRng {
    rand::thread_rng()
}

/// Relies on `rand::Rng::gen_range`, which returns a value uniformly drawn
/// from the given range and panics only when the range is empty; `0..n` is
/// non-empty here, and every value of it is below `n`.
#[verifier::external_body]
pub(crate) fn draw_index(rng: &mut rand::rngs::ThreadRng, n: usize) -> (r: usize)
    requires
        n >= 1,
    ensures
        r < n,
{
    rng.gen_range(0..n)
}

/// Relies on `rand::Rng::gen_range`, as above: every value drawn from
/// `1..100` lies in `[1, 99]`.
#[verifier::external_body]
pub(crate) fn draw_suffix(rng: &mut rand::rngs::ThreadRng) -> (r: usize)
    ensures
        1 <= r <= 99,
{
    rng.gen_range(1..100)
}

} // verus!
