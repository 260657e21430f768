//! Username generation: two uniformly drawn dictionary words, an optional
//! separator, and a uniformly drawn digit suffix.

use vstd::prelude::*;
use vstd::string::StringExecFns;
use crate::errors::GenerationError;
use crate::rng::{choose_word, random_digit};
use crate::text::{all_decimal_digits, digit_to_char, push_char};

verus! {

/// The largest digit count a request may ask for.
pub const MAX_DIGIT_COUNT: u32 = 65536;

/// The digit count used when none is requested.
pub const DEFAULT_DIGIT_COUNT: u32 = 2;

/// The separator as a sequence: one character when present, empty otherwise.
pub open spec fn sep_chars(separator: Option<char>) -> Seq<char> {
    match separator {
        Some(c) => seq![c],
        None => Seq::empty(),
    }
}

/// The shape of a generated username: adjective, separator, object,
/// separator, digits. The separator stands in both places whenever one is
/// given, even when the digit suffix is empty.
pub open spec fn username_chars(
    adjective: Seq<char>,
    object: Seq<char>,
    separator: Option<char>,
    digits: Seq<char>,
) -> Seq<char> {
    adjective + sep_chars(separator) + object + sep_chars(separator) + digits
}

/// Whether `u` is a username that the given word lists, separator and digit
/// count can produce: some adjective of the first list, some object of the
/// second, and exactly `digit_count` decimal digits, in the fixed shape.
pub open spec fn username_matches(
    adjectives: Seq<Seq<char>>,
    objects: Seq<Seq<char>>,
    separator: Option<char>,
    digit_count: nat,
    u: Seq<char>,
) -> bool {
    exists|i: int, j: int, ds: Seq<char>|
        0 <= i < adjectives.len() && 0 <= j < objects.len() && ds.len() == digit_count
            && all_decimal_digits(ds) && u == username_chars(
            adjectives[i],
            objects[j],
            separator,
            ds,
        )
}

/// Draws one word from each list independently and uniformly, joins them
/// with the separator, and appends `digit_count` independently uniform
/// decimal digits.
///
/// Fails with `WordListEmpty` when either list is empty and with
/// `DigitCountTooLarge` when `digit_count` exceeds `MAX_DIGIT_COUNT`; both
/// are detected before any sampling.
pub fn generate_username(
    adjectives: &Vec<String>,
    objects: &Vec<String>,
    digit_count: u32,
    separator: Option<char>,
) -> (r: Result<String, GenerationError>)
    ensures
        match r {
            Ok(u) => {
                &&& adjectives@.len() > 0
                &&& objects@.len() > 0
                &&& digit_count <= MAX_DIGIT_COUNT
                &&& username_matches(
                    adjectives.deep_view(),
                    objects.deep_view(),
                    separator,
                    digit_count as nat,
                    u@,
                )
            },
            Err(e) => {
                ||| (e == GenerationError::WordListEmpty && (adjectives@.len() == 0 || objects@.len()
                    == 0))
                ||| (e == GenerationError::DigitCountTooLarge && adjectives@.len() > 0
                    && objects@.len() > 0 && digit_count > MAX_DIGIT_COUNT)
            },
        },
{
    if adjectives.len() == 0 || objects.len() == 0 {
        return Err(GenerationError::WordListEmpty);
    }
    if digit_count > MAX_DIGIT_COUNT {
        return Err(GenerationError::DigitCountTooLarge);
    }
    let adjective = choose_word(adjectives);
    let object = choose_word(objects);
    let ghost adj_val = adjective;
    let ghost obj_val = object;
    let mut out = adjective;
    if let Some(c) = separator {
        push_char(&mut out, c);
    }
    out.append(object.as_str());
    if let Some(c) = separator {
        push_char(&mut out, c);
    }
    proof {
        assert(out@ =~= adj_val@ + sep_chars(separator) + obj_val@ + sep_chars(separator));
    }
    let ghost base = out@;
    let ghost mut ds: Seq<char> = Seq::empty();
    proof {
        assert(base + ds =~= base);
    }
    let mut k: u32 = 0;
    while k < digit_count
        invariant
            k <= digit_count,
            ds.len() == k as nat,
            all_decimal_digits(ds),
            out@ == base + ds,
        decreases digit_count - k,
    {
        let d = random_digit();
        let c = digit_to_char(d);
        proof {
            assert(base + ds.push(c) =~= (base + ds).push(c));
            assert forall|i: int| 0 <= i < ds.push(c).len() implies crate::text::is_decimal_digit(
                #[trigger] ds.push(c)[i],
            ) by {
                if i < ds.len() {
                    assert(ds.push(c)[i] == ds[i]);
                }
            }
            ds = ds.push(c);
        }
        push_char(&mut out, c);
        k += 1;
    }
    proof {
        let i = choose|i: int| 0 <= i < adjectives@.len() && adjectives@[i] == adj_val;
        let j = choose|j: int| 0 <= j < objects@.len() && objects@[j] == obj_val;
        assert(adjectives.deep_view()[i] == adj_val@);
        assert(objects.deep_view()[j] == obj_val@);
        assert(out@ == username_chars(
            adjectives.deep_view()[i],
            objects.deep_view()[j],
            separator,
            ds,
        ));
    }
    Ok(out)
}

/// With a separator and a digit count of zero, the generated name ends in
/// exactly one trailing separator and carries no digits: the digit suffix is
/// empty and the last character is the separator itself.
pub proof fn lemma_trailing_separator(adjective: Seq<char>, object: Seq<char>, c: char)
    ensures
        username_chars(adjective, object, Some(c), Seq::empty()).len() == adjective.len()
            + object.len() + 2,
        username_chars(adjective, object, Some(c), Seq::empty()).last() == c,
{
    let u = username_chars(adjective, object, Some(c), Seq::empty());
    assert(u =~= adjective + seq![c] + object + seq![c]);
}

} // verus!
