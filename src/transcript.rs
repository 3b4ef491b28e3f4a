use vstd::prelude::*;
use vstd::string::*;

verus! {

/// The characters of each word in a log.
pub open spec fn words_of(log: Seq<String>) -> Seq<Seq<char>> {
    log.map_values(|w: String| w@)
}

/// The separator placed between consecutive words of a transcript.
pub open spec fn arrow() -> Seq<char> {
    seq![' ', '-', '>', ' ']
}

/// The words joined in order, with `arrow()` between each two.
pub open spec fn joined(words: Seq<Seq<char>>) -> Seq<char>
    decreases words.len(),
{
    if words.len() == 0 {
        Seq::empty()
    } else if words.len() == 1 {
        words[0]
    } else {
        joined(words.drop_last()) + arrow() + words.last()
    }
}

/// The transcript of a game: its words joined by `" -> "`.
pub fn join_words(log: &Vec<String>) -> (r: String)
    ensures
        r@ == joined(words_of(log@)),
{
    let sep = " -> ";
    proof {
        reveal_strlit(" -> ");
        assert(sep@ =~= arrow());
    }
    let mut r = String::new();
    let n = log.len();
    let mut i: usize = 0;
    while i < n
        invariant
            n == log@.len(),
            i <= n,
            sep@ == arrow(),
            r@ == joined(words_of(log@.subrange(0, i as int))),
        decreases n - i,
    {
        proof {
            let prefix = words_of(log@.subrange(0, i as int));
            let next = words_of(log@.subrange(0, i + 1));
            assert(next.drop_last() =~= prefix);
            assert(next.last() == log@[i as int]@);
            if i == 0 {
                assert(prefix =~= Seq::<Seq<char>>::empty());
            }
        }
        if i > 0 {
            r.append(sep);
        }
        r.append(log[i].as_str());
        i += 1;
    }
    assert(log@.subrange(0, n as int) =~= log@);
    r
}

} // verus!
