//! The calls into the random number generator. Nothing here promises which
//! value comes back, only what holds of every outcome; the callers are
//! verified for every value these can return.

use vstd::prelude::*;
use rand::seq::IndexedRandom;

verus! {

/// Relies on rand's `IndexedRandom::choose`: it returns a uniformly sampled
/// element of the slice, and `None` only when the slice is empty.
#[verifier::external_body]
pub(crate) fn choose_char(alphabet: &Vec<char>) -> (r: char)
    requires
        alphabet@.len() > 0,
    ensures
        alphabet@.contains(r),
{
    *alphabet.choose(&mut rand::rng()).unwrap()
}

/// Relies on rand's `IndexedRandom::choose`: it returns a uniformly sampled
/// element of the slice, and `None` only when the slice is empty.
#[verifier::external_body]
pub(crate) fn choose_word(words: &Vec<String>) -> (r: String)
    requires
        words@.len() > 0,
    ensures
        words@.contains(r),
{
    words.choose(&mut rand::rng()).unwrap().clone()
}

/// Relies on `rand::random_range`: it returns a uniformly sampled value of
/// the given non-empty range; here one decimal digit.
#[verifier::external_body]
pub(crate) fn random_digit() -> (r: u32)
    ensures
        r < 10,
{
    rand::random_range(0..10u32)
}

} // verus!
