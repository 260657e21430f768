//! Password generation: uniform sampling, with replacement, from the
//! sampling alphabet.

use vstd::prelude::*;
use crate::charset::{CharSet, alphabet_chars, build_alphabet, lemma_excluded_not_in_alphabet};
use crate::errors::GenerationError;
use crate::rng::choose_char;
use crate::text::push_char;

verus! {

/// The largest password length a request may ask for.
pub const MAX_LENGTH: u32 = 65536;

/// The password length used when none is requested.
pub const DEFAULT_LENGTH: u32 = 16;

/// Draws `length` characters independently and uniformly, with replacement,
/// from the alphabet built out of `sets` with `excluded` removed.
///
/// Fails with `EmptyAlphabet` when no candidate character survives the
/// exclusion list, and with `LengthTooLarge` when `length` exceeds
/// `MAX_LENGTH`; both are detected before any sampling.
pub fn generate_password(sets: &Vec<CharSet>, excluded: &Vec<char>, length: u32) -> (r: Result<
    String,
    GenerationError,
>)
    ensures
        match r {
            Ok(p) => {
                &&& alphabet_chars(sets@, excluded@).len() > 0
                &&& length <= MAX_LENGTH
                &&& p@.len() == length as nat
                &&& forall|i: int|
                    0 <= i < p@.len() ==> alphabet_chars(sets@, excluded@).contains(#[trigger] p@[i])
                &&& forall|i: int| 0 <= i < p@.len() ==> !excluded@.contains(#[trigger] p@[i])
            },
            Err(e) => {
                ||| (e == GenerationError::EmptyAlphabet && alphabet_chars(
                    sets@,
                    excluded@,
                ).len() == 0)
                ||| (e == GenerationError::LengthTooLarge && alphabet_chars(sets@, excluded@).len()
                    > 0 && length > MAX_LENGTH)
            },
        },
{
    let alpha = build_alphabet(sets, excluded);
    if alpha.len() == 0 {
        return Err(GenerationError::EmptyAlphabet);
    }
    if length > MAX_LENGTH {
        return Err(GenerationError::LengthTooLarge);
    }
    let mut out = String::new();
    let mut k: u32 = 0;
    while k < length
        invariant
            alpha@ == alphabet_chars(sets@, excluded@),
            alpha@.len() > 0,
            k <= length,
            out@.len() == k as nat,
            forall|i: int| 0 <= i < out@.len() ==> alpha@.contains(#[trigger] out@[i]),
        decreases length - k,
    {
        let c = choose_char(&alpha);
        push_char(&mut out, c);
        k += 1;
    }
    proof {
        assert forall|i: int| 0 <= i < out@.len() implies !excluded@.contains(#[trigger] out@[i]) by {
            if excluded@.contains(out@[i]) {
                lemma_excluded_not_in_alphabet(sets@, excluded@, out@[i]);
            }
        }
    }
    Ok(out)
}

} // verus!
