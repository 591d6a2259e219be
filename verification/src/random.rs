//! The random choices of the protocol, drawn from the generator that the `rand`
//! crate keeps for the current thread. Nothing here is proved: the contracts say
//! what `rand` documents of every outcome, and nothing of which outcome comes.
use rand::rngs::ThreadRng;
use rand::seq::SliceRandom;
use rand::Rng;
use vstd::prelude::*;

verus! {

/// `rand::rngs::ThreadRng`, the handle to the generator of the calling thread.
/// It is carried from `rand::thread_rng` to the two draws below and never read.
#[verifier::external_type_specification]
#[verifier::external_body]
pub struct ExThreadRng(ThreadRng);

/// `rand::thread_rng` hands out the calling thread's generator, which the
/// system seeds on first use. Nothing is claimed of the handle.
pub assume_specification[ rand::thread_rng ]() -> (rng: ThreadRng)
;

/// `rand::Rng::gen_range` on the half-open range `0..bound`. `rand` documents
/// that the value lies in the range and that an empty range panics, so `bound`
/// must be positive; the claim is only that the index is below `bound`.
#[verifier::external_body]
pub(crate) fn random_index(rng: &mut ThreadRng, bound: usize) -> (index: usize)
    requires
        bound > 0,
    ensures
        index < bound,
{
    rng.gen_range(0..bound)
}

/// `rand::seq::SliceRandom::shuffle` on the slice of `items`. `rand` reorders
/// the slice in place by swapping its elements, so what it holds afterwards is
/// what it held before, each element as often; the claim says nothing of the order.
#[verifier::external_body]
pub(crate) fn shuffle<T>(rng: &mut ThreadRng, items: &mut Vec<T>)
    ensures
        final(items)@.to_multiset() == old(items)@.to_multiset(),
{
    items.shuffle(rng);
}

} // verus!
