//! Choices at random.
use rand::seq::IndexedRandom;
use vstd::prelude::*;

verus! {

/// Calls `choose` of `rand::seq::IndexedRandom` with the thread's generator:
/// some item of the slice, or none where it is empty. Nothing is claimed of which
/// item it is.
#[verifier::external_body]
fn random_item<T>(items: &[T]) -> (r: Option<&T>)
    ensures
        r is None <==> items@.len() == 0,
        r matches Some(item) ==> items@.contains(*item),
{
    items.choose(&mut rand::rng())
}

/// Some item, drawn at random.
pub fn pick<T>(items: &Vec<T>) -> (r: Option<&T>)
    ensures
        r is None <==> items@.len() == 0,
        r matches Some(item) ==> items@.contains(*item),
{
    random_item(items.as_slice())
}

} // verus!
