//! Random choices, made by the `rand` crate.

use vstd::prelude::*;
use rand::seq::{IndexedRandom, IteratorRandom, SliceRandom};

verus! {

/// `rand::seq::IndexedRandom::choose` with the thread's generator: `None` for
/// an empty slice, else a reference to one of its items.
#[verifier::external_body]
pub(crate) fn choose_random<T>(items: &[T]) -> (r: Option<&T>)
    ensures
        r is None <==> items@.len() == 0,
        r matches Some(x) ==> items@.contains(*x),
{
    items.choose(&mut rand::rng())
}

/// `rand::seq::IteratorRandom::choose` on the items of `items` with the
/// thread's generator: `None` when there is none, else one of them.
#[verifier::external_body]
pub(crate) fn choose_random_from_iter<T>(items: Vec<T>) -> (r: Option<T>)
    ensures
        r is None <==> items@.len() == 0,
        r matches Some(x) ==> items@.contains(x),
{
    items.into_iter().choose(&mut rand::rng())
}

/// `rand::seq::SliceRandom::shuffle` with the thread's generator: the items
/// end in some order, each as often as before.
#[verifier::external_body]
pub(crate) fn shuffle<T>(items: &mut Vec<T>)
    ensures
        final(items)@.to_multiset() == old(items)@.to_multiset(),
{
    items.shuffle(&mut rand::rng());
}

/// `rand::random_range` over `low..high`: some number at least `low` and below `high`.
#[verifier::external_body]
pub(crate) fn random_range(low: u8, high: u8) -> (r: u8)
    requires
        low < high,
    ensures
        low <= r < high,
{
    rand::random_range(low..high)
}

} // verus!
