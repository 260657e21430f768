//! The named character sets that passwords are sampled from, and the
//! construction of the sampling alphabet.

use vstd::prelude::*;
use vstd::string::StrSliceExecFns;

verus! {

/// A named, fixed, ordered sequence of characters usable as a sampling
/// alphabet. Duplicates across sets are permitted and simply increase a
/// character's sampling weight.
#[derive(Clone, Copy, PartialEq, Eq, Structural, Debug)]
pub enum CharSet {
    Lower,
    Upper,
    Digits,
    Symbol,
    RareSymbol,
}

/// The characters of one named set, in their fixed declared order.
pub open spec fn set_chars(s: CharSet) -> Seq<char> {
    match s {
        CharSet::Lower => "abcdefghijklmnopqrstuvwxyz"@,
        CharSet::Upper => "ABCDEFGHIJKLMNOPQRSTUVWXYZ"@,
        CharSet::Digits => "0123456789"@,
        CharSet::Symbol => "!@#$%^&*-_=+()[]{}<>:;,.?~"@,
        CharSet::RareSymbol => "/\\'\"|` "@,
    }
}

/// The characters of one named set, as a string.
pub fn get_char_set(sets: &CharSet) -> (r: &'static str)
    ensures
        r@ == set_chars(*sets),
{
    match sets {
        CharSet::Lower => "abcdefghijklmnopqrstuvwxyz",
        CharSet::Upper => "ABCDEFGHIJKLMNOPQRSTUVWXYZ",
        CharSet::Digits => "0123456789",
        CharSet::Symbol => "!@#$%^&*-_=+()[]{}<>:;,.?~",
        CharSet::RareSymbol => "/\\'\"|` ",
    }
}

/// The default selection: every set except `RareSymbol`, whose characters
/// (whitespace, quotes, backslash) tend to break downstream handling.
pub fn default_char_sets() -> (r: Vec<CharSet>)
    ensures
        r@ == seq![CharSet::Lower, CharSet::Upper, CharSet::Digits, CharSet::Symbol],
{
    let mut v: Vec<CharSet> = Vec::new();
    v.push(CharSet::Lower);
    v.push(CharSet::Upper);
    v.push(CharSet::Digits);
    v.push(CharSet::Symbol);
    proof {
        assert(v@ =~= seq![CharSet::Lower, CharSet::Upper, CharSet::Digits, CharSet::Symbol]);
    }
    v
}

/// The characters of the chosen sets, concatenated in the chosen order.
pub open spec fn sets_chars(sets: Seq<CharSet>) -> Seq<char>
    decreases sets.len(),
{
    if sets.len() == 0 {
        Seq::empty()
    } else {
        sets_chars(sets.drop_last()) + set_chars(sets.last())
    }
}

/// Holds of the characters that survive the exclusion list.
pub open spec fn not_excluded(excluded: Seq<char>) -> spec_fn(char) -> bool {
    |c: char| !excluded.contains(c)
}

/// The sampling alphabet: the chosen sets' characters in order, with every
/// occurrence of an excluded character removed.
pub open spec fn alphabet_chars(sets: Seq<CharSet>, excluded: Seq<char>) -> Seq<char> {
    sets_chars(sets).filter(not_excluded(excluded))
}

/// Linear search for one character.
pub fn contains_char(v: &Vec<char>, c: char) -> (b: bool)
    ensures
        b == v@.contains(c),
{
    let mut i: usize = 0;
    while i < v.len()
        invariant
            i <= v@.len(),
            forall|j: int| 0 <= j < i ==> v@[j] != c,
        decreases v@.len() - i,
    {
        if v[i] == c {
            return true;
        }
        i += 1;
    }
    false
}

/// Appends every character of `s`, in order, to `dst`.
fn push_str_chars(dst: &mut Vec<char>, s: &str)
    ensures
        final(dst)@ == old(dst)@ + s@,
{
    let n = s.unicode_len();
    let mut i: usize = 0;
    while i < n
        invariant
            n == s@.len(),
            i <= n,
            dst@ == old(dst)@ + s@.take(i as int),
        decreases n - i,
    {
        let c = s.get_char(i);
        dst.push(c);
        proof {
            assert(old(dst)@ + s@.take(i as int + 1)
                =~= (old(dst)@ + s@.take(i as int)).push(s@[i as int]));
        }
        i += 1;
    }
    proof {
        assert(s@.take(n as int) =~= s@);
    }
}

/// Builds the sampling alphabet: the union (with duplicates) of the chosen
/// sets' characters, in the chosen order, with every excluded character
/// removed.
pub fn build_alphabet(sets: &Vec<CharSet>, excluded: &Vec<char>) -> (r: Vec<char>)
    ensures
        r@ == alphabet_chars(sets@, excluded@),
{
    let mut all: Vec<char> = Vec::new();
    let mut i: usize = 0;
    while i < sets.len()
        invariant
            i <= sets@.len(),
            all@ == sets_chars(sets@.take(i as int)),
        decreases sets@.len() - i,
    {
        let s = get_char_set(&sets[i]);
        push_str_chars(&mut all, s);
        proof {
            assert(sets@.take(i as int + 1).drop_last() =~= sets@.take(i as int));
            assert(sets@.take(i as int + 1).last() == sets@[i as int]);
        }
        i += 1;
    }
    proof {
        assert(sets@.take(sets@.len() as int) =~= sets@);
    }
    let mut out: Vec<char> = Vec::new();
    let mut j: usize = 0;
    while j < all.len()
        invariant
            j <= all@.len(),
            all@ == sets_chars(sets@),
            out@ == all@.take(j as int).filter(not_excluded(excluded@)),
        decreases all@.len() - j,
    {
        let c = all[j];
        proof {
            reveal(Seq::filter);
            assert(all@.take(j as int + 1).drop_last() =~= all@.take(j as int));
            assert(all@.take(j as int + 1).last() == c);
        }
        if !contains_char(excluded, c) {
            out.push(c);
            proof {
                assert(not_excluded(excluded@)(c));
            }
        } else {
            proof {
                assert(!not_excluded(excluded@)(c));
            }
        }
        j += 1;
    }
    proof {
        assert(all@.take(all@.len() as int) =~= all@);
    }
    out
}

/// No excluded character survives into the alphabet, for any exclusion list
/// and any selection of character sets.
pub proof fn lemma_excluded_not_in_alphabet(sets: Seq<CharSet>, excluded: Seq<char>, c: char)
    requires
        excluded.contains(c),
    ensures
        !alphabet_chars(sets, excluded).contains(c),
{
    let alpha = alphabet_chars(sets, excluded);
    if alpha.contains(c) {
        let i = choose|i: int| 0 <= i < alpha.len() && alpha[i] == c;
        sets_chars(sets).lemma_filter_pred(not_excluded(excluded), i);
    }
}

/// A sequence all of whose characters are excluded filters down to nothing.
proof fn lemma_filter_all_excluded(s: Seq<char>, excluded: Seq<char>)
    requires
        forall|i: int| 0 <= i < s.len() ==> excluded.contains(#[trigger] s[i]),
    ensures
        s.filter(not_excluded(excluded)).len() == 0,
    decreases s.len(),
{
    reveal(Seq::filter);
    if s.len() > 0 {
        lemma_filter_all_excluded(s.drop_last(), excluded);
    }
}

/// Excluding every character of the selected sets leaves an empty alphabet.
pub proof fn lemma_exclude_all_empties_alphabet(sets: Seq<CharSet>, excluded: Seq<char>)
    requires
        forall|c: char| sets_chars(sets).contains(c) ==> excluded.contains(c),
    ensures
        alphabet_chars(sets, excluded).len() == 0,
{
    let s = sets_chars(sets);
    assert forall|i: int| 0 <= i < s.len() implies excluded.contains(#[trigger] s[i]) by {
        assert(s.contains(s[i]));
    }
    lemma_filter_all_excluded(s, excluded);
}

} // verus!
