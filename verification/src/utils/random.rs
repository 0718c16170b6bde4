//! Draws from the thread-local random number generator of `rand`.

use vstd::prelude::*;

use rand::seq::SliceRandom;

verus! {

/// A number drawn from `low..=high`.
/// Calls `rand::random_range`, which panics on an empty range (so `low <= high`
/// is required) and otherwise returns a value of the range; which one is
/// chance, so nothing more is promised.
#[verifier::external_body]
pub(crate) fn random_in(low: u32, high: u32) -> (n: u32)
    requires
        low <= high,
    ensures
        low <= n <= high,
{
    rand::random_range(low..=high)
}

/// Puts `values` in a random order.
/// Calls `SliceRandom::shuffle` with `rand::rng()`; a shuffle permutes the
/// slice, so the values and how often each occurs stay the same. Which order
/// comes out is chance.
#[verifier::external_body]
pub(crate) fn shuffle(values: &mut Vec<u32>)
    ensures
        final(values)@.to_multiset() == old(values)@.to_multiset(),
{
    values.as_mut_slice().shuffle(&mut rand::rng());
}

/// `count` random bytes.
/// Calls `rand::fill` on a zeroed buffer of that length; the length stays,
/// the bytes are chance.
#[verifier::external_body]
pub(crate) fn random_bytes(count: usize) -> (bytes: Vec<u8>)
    ensures
        bytes@.len() == count,
{
    let mut bytes = vec![0u8; count];
    rand::fill(bytes.as_mut_slice());
    bytes
}

} // verus!
