use pwgen::charset::{build_alphabet, contains_char, default_char_sets, get_char_set, CharSet};
use pwgen::errors::GenerationError;
use pwgen::password::{generate_password, DEFAULT_LENGTH, MAX_LENGTH};

const LOWER: &str = "abcdefghijklmnopqrstuvwxyz";
const UPPER: &str = "ABCDEFGHIJKLMNOPQRSTUVWXYZ";
const DIGITS: &str = "0123456789";
const SYMBOL: &str = "!@#$%^&*-_=+()[]{}<>:;,.?~";
const RARE: &str = "/\\'\"|` ";

#[test]
fn char_sets_hold_their_declared_characters() {
    assert_eq!(get_char_set(&CharSet::Lower), LOWER);
    assert_eq!(get_char_set(&CharSet::Upper), UPPER);
    assert_eq!(get_char_set(&CharSet::Digits), DIGITS);
    assert_eq!(get_char_set(&CharSet::Symbol), SYMBOL);
    assert_eq!(get_char_set(&CharSet::RareSymbol), RARE);
}

#[test]
fn char_sets_have_no_duplicates_within_a_set() {
    for set in [
        CharSet::Lower,
        CharSet::Upper,
        CharSet::Digits,
        CharSet::Symbol,
        CharSet::RareSymbol,
    ] {
        let chars: Vec<char> = get_char_set(&set).chars().collect();
        assert!(!chars.is_empty());
        for (i, a) in chars.iter().enumerate() {
            for b in chars.iter().skip(i + 1) {
                assert_ne!(a, b);
            }
        }
    }
}

#[test]
fn default_selection_is_every_set_but_rare_symbol() {
    let sets = default_char_sets();
    assert_eq!(
        sets,
        vec![CharSet::Lower, CharSet::Upper, CharSet::Digits, CharSet::Symbol]
    );
}

#[test]
fn alphabet_concatenates_sets_in_order_and_strips_exclusions() {
    let sets = vec![CharSet::Digits, CharSet::Lower];
    let excluded = vec!['1', 'b'];
    let alphabet = build_alphabet(&sets, &excluded);
    let expected: Vec<char> = "023456789acdefghijklmnopqrstuvwxyz".chars().collect();
    assert_eq!(alphabet, expected);
}

#[test]
fn default_alphabet_has_eighty_eight_characters() {
    let alphabet = build_alphabet(&default_char_sets(), &Vec::new());
    assert_eq!(alphabet.len(), 88);
    let expected: String = [LOWER, UPPER, DIGITS, SYMBOL].concat();
    assert_eq!(alphabet.iter().collect::<String>(), expected);
}

#[test]
fn contains_char_finds_only_present_characters() {
    let v = vec!['x', 'y'];
    assert!(contains_char(&v, 'x'));
    assert!(contains_char(&v, 'y'));
    assert!(!contains_char(&v, 'z'));
    assert!(!contains_char(&Vec::new(), 'x'));
}

#[test]
fn password_has_requested_length_and_alphabet_characters() {
    let sets = vec![CharSet::Lower, CharSet::Digits];
    let excluded = Vec::new();
    let password = generate_password(&sets, &excluded, 200).unwrap();
    assert_eq!(password.chars().count(), 200);
    for c in password.chars() {
        assert!(LOWER.contains(c) || DIGITS.contains(c));
    }
}

#[test]
fn password_with_default_length_has_sixteen_characters() {
    let password = generate_password(&default_char_sets(), &Vec::new(), DEFAULT_LENGTH).unwrap();
    assert_eq!(password.chars().count(), 16);
}

#[test]
fn password_of_length_zero_is_empty_and_not_an_error() {
    let password = generate_password(&default_char_sets(), &Vec::new(), 0).unwrap();
    assert_eq!(password, "");
}

#[test]
fn password_at_the_length_bound_is_generated() {
    let sets = vec![CharSet::Lower];
    let password = generate_password(&sets, &Vec::new(), MAX_LENGTH).unwrap();
    assert_eq!(password.chars().count(), 65536);
}

#[test]
fn password_over_the_length_bound_is_rejected() {
    let sets = vec![CharSet::Lower];
    let result = generate_password(&sets, &Vec::new(), 65537);
    assert_eq!(result, Err(GenerationError::LengthTooLarge));
}

#[test]
fn excluding_every_character_yields_empty_alphabet() {
    let sets = vec![CharSet::Digits];
    let excluded: Vec<char> = DIGITS.chars().collect();
    let result = generate_password(&sets, &excluded, 8);
    assert_eq!(result, Err(GenerationError::EmptyAlphabet));
}

#[test]
fn excluding_every_character_of_all_sets_yields_empty_alphabet() {
    let sets = vec![
        CharSet::Lower,
        CharSet::Upper,
        CharSet::Digits,
        CharSet::Symbol,
        CharSet::RareSymbol,
    ];
    let excluded: Vec<char> = [LOWER, UPPER, DIGITS, SYMBOL, RARE].concat().chars().collect();
    let result = generate_password(&sets, &excluded, 8);
    assert_eq!(result, Err(GenerationError::EmptyAlphabet));
}

#[test]
fn empty_alphabet_wins_over_too_large_a_length() {
    let sets = vec![CharSet::Digits];
    let excluded: Vec<char> = DIGITS.chars().collect();
    let result = generate_password(&sets, &excluded, 70000);
    assert_eq!(result, Err(GenerationError::EmptyAlphabet));
}

#[test]
fn excluded_characters_never_appear_in_the_output() {
    let sets = vec![CharSet::Lower, CharSet::Digits];
    let excluded: Vec<char> = "aeiou013579".chars().collect();
    let password = generate_password(&sets, &excluded, 2000).unwrap();
    for c in password.chars() {
        assert!(!excluded.contains(&c));
        assert!(LOWER.contains(c) || DIGITS.contains(c));
    }
}

#[test]
fn each_character_frequency_is_near_uniform() {
    // With 65536 draws over the ten digits the expected count per digit is
    // about 6554 with a standard deviation of about 77; the bounds below sit
    // more than twenty standard deviations out.
    let sets = vec![CharSet::Digits];
    let password = generate_password(&sets, &Vec::new(), 65536).unwrap();
    let mut counts = [0u32; 10];
    for c in password.chars() {
        counts[c.to_digit(10).unwrap() as usize] += 1;
    }
    for count in counts {
        assert!(count > 4900, "digit drawn far too rarely: {}", count);
        assert!(count < 8300, "digit drawn far too often: {}", count);
    }
}

#[test]
fn error_messages_are_the_documented_ones() {
    assert_eq!(
        GenerationError::EmptyAlphabet.message(),
        "No characters are allowed! Try to add more character sets or exclude less characters."
    );
    assert_eq!(
        GenerationError::LengthTooLarge.message(),
        "Password too long! Cannot be longer than 65536."
    );
    assert_eq!(
        GenerationError::DigitCountTooLarge.message(),
        "Too many numbers! Cannot be more than 65536."
    );
    assert_eq!(
        GenerationError::WordListEmpty.message(),
        "Word list empty. This is a build error!"
    );
}
