//! Calls into `rand`, whose results depend on chance.
use vstd::prelude::*;

verus! {

/// Shuffles the items in place with `SliceRandom::shuffle` over the thread's
/// generator. The shuffle only swaps items, so the same items remain, each as
/// often as before; their order is left to chance and not stated.
#[verifier::external_body]
pub(crate) fn shuffle_indices(items: &mut Vec<usize>)
    ensures
        final(items)@.to_multiset() == old(items)@.to_multiset(),
{
    rand::seq::SliceRandom::shuffle(items.as_mut_slice(), &mut rand::rng());
}

/// Draws an index below `len` with `Rng::random_range(..len)` over the thread's
/// generator, as `IndexedRandom::choose` does; it panics on an empty range,
/// hence the requirement. Which index comes back is left to chance.
#[verifier::external_body]
pub(crate) fn random_index(len: usize) -> (index: usize)
    requires
        len > 0,
    ensures
        index < len,
{
    rand::Rng::random_range(&mut rand::rng(), ..len)
}

} // verus!
