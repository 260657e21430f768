//! Errors that generation can report, with their user-facing messages.

use vstd::prelude::*;
use vstd::string::StringExecFns;

verus! {

/// Why no output could be generated.
#[derive(Clone, Copy, PartialEq, Eq, Structural, Debug)]
pub enum GenerationError {
    /// Every candidate character was excluded from the alphabet.
    EmptyAlphabet,
    /// The requested password length exceeds the bound.
    LengthTooLarge,
    /// The requested digit count exceeds the bound.
    DigitCountTooLarge,
    /// A word list is empty: a fatal misconfiguration of the bundled data.
    WordListEmpty,
}

/// The user-facing message of each error.
pub open spec fn spec_message(e: GenerationError) -> Seq<char> {
    match e {
        GenerationError::EmptyAlphabet =>
            "No characters are allowed! Try to add more character sets or exclude less characters."@,
        GenerationError::LengthTooLarge => "Password too long! Cannot be longer than 65536."@,
        GenerationError::DigitCountTooLarge => "Too many numbers! Cannot be more than 65536."@,
        GenerationError::WordListEmpty => "Word list empty. This is a build error!"@,
    }
}

impl GenerationError {
    /// The human-readable explanation printed in place of any output.
    pub fn message(&self) -> (r: String)
        ensures
            r@ == spec_message(*self),
    {
        match self {
            GenerationError::EmptyAlphabet => String::from_str(
                "No characters are allowed! Try to add more character sets or exclude less characters.",
            ),
            GenerationError::LengthTooLarge => String::from_str(
                "Password too long! Cannot be longer than 65536.",
            ),
            GenerationError::DigitCountTooLarge => String::from_str(
                "Too many numbers! Cannot be more than 65536.",
            ),
            GenerationError::WordListEmpty => String::from_str(
                "Word list empty. This is a build error!",
            ),
        }
    }
}

} // verus!
