use vstd::prelude::*;
use crate::rules::{Lookup, Rejection, local_verdict, verdict};
use crate::session::{Outcome, SessionView, settles};
use crate::transcript::joined;

verus! {

/// Turns alternate: in any well-formed session, word `k` of the game (counted
/// from zero) was submitted by the player who started the game when `k` is
/// even and by the invitee when `k` is odd, and the turn belongs to whoever
/// plays the next word.
pub proof fn lemma_turns_alternate(s: SessionView)
    requires
        s.wf(),
    ensures
        forall|k: int| 0 <= k < s.log.len() ==> #[trigger] s.authors[k] == s.player_of(k),
        s.turn_owner() == s.player_of(s.passed as int),
{
}

/// A word that passes hands the turn to the other player, and the next word
/// admitted is attributed to that player.
pub proof fn lemma_pass_flips_turn(pre: SessionView, lookup: Lookup, post: SessionView, out: Outcome)
    requires
        pre.wf(),
        pre.active,
        pre.pending,
        settles(pre, lookup, post, out),
        out is Advanced,
    ensures
        post.turn_is_b == !pre.turn_is_b,
        post.turn_owner() == pre.opponent(),
        post.passed == pre.passed + 1,
        post.log == pre.log,
{
}

/// When a game ends, the chain log holds exactly the words that passed every
/// check followed by the word that failed, the transcript is those words
/// joined by `" -> "`, and the log is then empty and no game runs.
pub proof fn lemma_game_over_transcript(pre: SessionView, lookup: Lookup, post: SessionView, out: Outcome)
    requires
        pre.wf(),
        pre.active,
        pre.pending,
        settles(pre, lookup, post, out),
        out is Over,
    ensures
        pre.log.len() == pre.passed + 1,
        out->transcript@ == joined(pre.log),
        out->winner == pre.opponent(),
        post.log.len() == 0,
        !post.active,
        post.idle(),
{
}

/// A message posted outside the game's thread, or by anyone but the turn
/// owner, is never admitted.
pub proof fn lemma_foreign_message_ignored(s: SessionView, sender: u64, channel: u64)
    requires
        channel != s.thread || sender != s.turn_owner(),
    ensures
        !s.admits(sender, channel),
{
}

/// A word of fewer than two characters is rejected as too short, whatever
/// came before it and whatever the dictionary says.
pub proof fn lemma_short_word_rejected(prev: Option<Seq<char>>, word: Seq<char>, lookup: Lookup)
    requires
        word.len() < 2,
    ensures
        verdict(prev, word, lookup) == Err::<(), Rejection>(Rejection::TooShort),
{
}

/// When the checks that need no dictionary fail, the dictionary's answer
/// does not change the verdict, so it need not be asked.
pub proof fn lemma_local_failure_decides(prev: Option<Seq<char>>, word: Seq<char>, lookup: Lookup)
    requires
        local_verdict(prev, word) is Err,
    ensures
        verdict(prev, word, lookup) == local_verdict(prev, word),
{
}

} // verus!
