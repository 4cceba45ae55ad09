//! The random source of the game, from the `rand` crate.

use vstd::prelude::*;
use rand::rngs::ThreadRng;
use rand::seq::SliceRandom;
use rand::Rng;

verus! {

/// The generator of the thread that runs the game; opaque to proofs.
#[verifier::external_type_specification]
#[verifier::external_body]
pub struct ExThreadRng(ThreadRng);

/// Calls `rand::thread_rng`, which hands out a handle to this thread's
/// generator. Nothing is claimed of the generator's state.
#[verifier::external_body]
pub(crate) fn new_thread_rng() -> ThreadRng {
    rand::thread_rng()
}

/// Calls `Rng::gen_range` on the inclusive range `low..=high`. The claim is
/// that the number drawn lies in that range, which `gen_range` documents and
/// which its uniform sampler keeps; which number it is, is chance. The range
/// must not be empty: `gen_range` panics on an empty one.
#[verifier::external_body]
pub(crate) fn gen_range_inclusive(rng: &mut ThreadRng, low: u16, high: u16) -> (r: u16)
    requires
        low <= high,
    ensures
        low <= r <= high,
{
    rng.gen_range(low..=high)
}

/// Calls `SliceRandom::shuffle` on the vector's elements. The claim is that
/// the elements afterwards are those before, each as often: the shuffle
/// only swaps elements (a Fisher-Yates shuffle). The order that comes out
/// is chance and not stated.
#[verifier::external_body]
pub(crate) fn shuffle_vec<T>(v: &mut Vec<T>, rng: &mut ThreadRng)
    ensures
        final(v)@.len() == old(v)@.len(),
        final(v)@.to_multiset() == old(v)@.to_multiset(),
{
    v.shuffle(rng)
}

} // verus!
