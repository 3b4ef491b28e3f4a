use vstd::prelude::*;
use vstd::string::*;

verus! {

/// Why a submitted word ends the game.
#[derive(Clone, Copy, Debug, PartialEq, Eq, Structural)]
pub enum Rejection {
    /// The word has fewer than two characters.
    TooShort,
    /// The word does not start with the last character of the previous word.
    BrokenChain,
    /// The dictionary has no entry whose headword is exactly the word.
    NotAWord,
}

/// What the dictionary answered for one word: its first entry, or nothing.
/// Transport and parse failures are reported as `NotFound`.
pub enum Lookup {
    Found { headword: String, definition: String },
    NotFound,
}

/// Fewest characters a word may have.
pub const MIN_WORD_CHARS: usize = 2;

pub open spec fn long_enough(word: Seq<char>) -> bool {
    word.len() >= MIN_WORD_CHARS
}

/// `next` starts with the character that ends `prev`.
pub open spec fn chains_onto(prev: Seq<char>, next: Seq<char>) -> bool {
    &&& prev.len() > 0
    &&& next.len() > 0
    &&& next[0] == prev.last()
}

/// The lookup found an entry whose headword is character for character `word`.
pub open spec fn found_exactly(word: Seq<char>, lookup: Lookup) -> bool {
    match lookup {
        Lookup::Found { headword, .. } => headword@ == word,
        Lookup::NotFound => false,
    }
}

/// The checks that need no dictionary: length, then continuity with the
/// previous word if there is one.
pub open spec fn local_verdict(prev: Option<Seq<char>>, word: Seq<char>) -> Result<(), Rejection> {
    if !long_enough(word) {
        Err(Rejection::TooShort)
    } else if prev is Some && !chains_onto(prev->0, word) {
        Err(Rejection::BrokenChain)
    } else {
        Ok(())
    }
}

/// The whole pipeline, short-circuit in the order length, continuity, dictionary.
pub open spec fn verdict(prev: Option<Seq<char>>, word: Seq<char>, lookup: Lookup) -> Result<(), Rejection> {
    match local_verdict(prev, word) {
        Err(e) => Err(e),
        Ok(()) => if found_exactly(word, lookup) {
            Ok(())
        } else {
            Err(Rejection::NotAWord)
        },
    }
}

/// Whether `word` is long enough to be played (counted in characters, not bytes).
pub fn is_long_enough(word: &str) -> (r: bool)
    ensures
        r == long_enough(word@),
{
    word.unicode_len() >= MIN_WORD_CHARS
}

/// Whether `next` validly continues `prev`.
pub fn continues(prev: &str, next: &str) -> (r: bool)
    ensures
        r == chains_onto(prev@, next@),
{
    let n = prev.unicode_len();
    let m = next.unicode_len();
    if n == 0 || m == 0 {
        return false;
    }
    next.get_char(0) == prev.get_char(n - 1)
}

/// Whether the dictionary's answer confirms `word`.
pub fn matches_lookup(word: &str, lookup: &Lookup) -> (r: bool)
    ensures
        r == found_exactly(word@, *lookup),
{
    match lookup {
        Lookup::Found { headword, .. } => {
            let n = word.unicode_len();
            if headword.as_str().unicode_len() != n {
                return false;
            }
            let mut i: usize = 0;
            while i < n
                invariant
                    n == word@.len(),
                    headword@.len() == n,
                    found_exactly(word@, *lookup) == (headword@ == word@),
                    i <= n,
                    forall|j: int| 0 <= j < i ==> headword@[j] == word@[j],
                decreases n - i,
            {
                if headword.as_str().get_char(i) != word.get_char(i) {
                    assert(headword@[i as int] != word@[i as int]);
                    return false;
                }
                i += 1;
            }
            assert(headword@ =~= word@);
            true
        },
        Lookup::NotFound => false,
    }
}

/// Length and continuity checks for `word`, played after `prev` if any.
pub fn screen(prev: Option<&str>, word: &str) -> (r: Result<(), Rejection>)
    ensures
        r == local_verdict(
            match prev {
                Some(p) => Some(p@),
                None => None,
            },
            word@,
        ),
{
    if !is_long_enough(word) {
        return Err(Rejection::TooShort);
    }
    match prev {
        Some(p) => if !continues(p, word) {
            return Err(Rejection::BrokenChain);
        },
        None => {},
    }
    Ok(())
}

/// The full verdict on `word`, played after `prev` if any, given what the
/// dictionary answered for it.
pub fn judge(prev: Option<&str>, word: &str, lookup: &Lookup) -> (r: Result<(), Rejection>)
    ensures
        r == verdict(
            match prev {
                Some(p) => Some(p@),
                None => None,
            },
            word@,
            *lookup,
        ),
{
    match screen(prev, word) {
        Err(e) => Err(e),
        Ok(()) => if matches_lookup(word, lookup) {
            Ok(())
        } else {
            Err(Rejection::NotAWord)
        },
    }
}

} // verus!
