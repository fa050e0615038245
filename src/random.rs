use vstd::prelude::*;
use rand::Rng;
use rand::seq::SliceRandom;
use rand::rngs::StdRng;
use crate::scene::Drawable;

verus! {

/// The random number generator that the scene builder and the renderer draw from.
#[verifier::external_type_specification]
#[verifier::external_body]
pub struct ExStdRng(rand::rngs::StdRng);

/// Relies on rand's `Rng::gen_range`: a value in `[low, high)`. It panics
/// unless `low < high`.
#[verifier::external_body]
pub(crate) fn uniform_in(rng: &mut StdRng, low: i64, high: i64) -> (r: i64)
    requires
        low < high,
    ensures
        low <= r < high,
{
    rng.gen_range(low, high)
}

/// Relies on rand's `SliceRandom::shuffle`: it only swaps items in place, so
/// the result is a permutation of the input.
#[verifier::external_body]
pub(crate) fn shuffle_items(items: &mut Vec<Drawable>, rng: &mut StdRng)
    ensures
        final(items)@.to_multiset() == old(items)@.to_multiset(),
{
    items.shuffle(rng)
}

} // verus!
