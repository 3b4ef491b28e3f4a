use vstd::prelude::*;
use crate::rules::{Lookup, Rejection, long_enough, chains_onto, local_verdict, verdict, screen, judge};
use crate::transcript::{words_of, joined, join_words};

verus! {

/// Why a new game cannot start.
#[derive(Clone, Copy, Debug, PartialEq, Eq, Structural)]
pub enum StartError {
    /// A game is already running.
    AlreadyPlaying,
    /// The invitee is the bot itself.
    SelfInvite,
    /// The command was not issued in a text channel.
    WrongChannelKind,
}

/// What settling a pending word produced, for the thread to be told.
pub enum Outcome {
    /// The word was accepted: show its entry and call the next player.
    Advanced { headword: String, definition: String, next_player: u64 },
    /// The word was rejected and the game is over.
    Over { reason: Rejection, winner: u64, transcript: String },
}

/// What the game loop does next.
pub enum Step {
    /// No word waits to be settled.
    Wait,
    /// The pending word passed the local checks: ask the dictionary for it,
    /// then settle it with the answer.
    AskDictionary { word: String },
    /// The pending word already failed a local check: settle it without asking.
    Settle,
}

/// The conditions for a new game, checked in this order.
pub open spec fn start_verdict(active: bool, invitee: u64, bot: u64, text_channel: bool) -> Result<(), StartError> {
    if active {
        Err(StartError::AlreadyPlaying)
    } else if invitee == bot {
        Err(StartError::SelfInvite)
    } else if !text_channel {
        Err(StartError::WrongChannelKind)
    } else {
        Ok(())
    }
}

/// The mathematical model of a session.
pub struct SessionView {
    pub player_a: u64,
    pub player_b: u64,
    pub turn_is_b: bool,
    pub active: bool,
    pub thread: u64,
    /// The chain log: every word admitted in this game, in order.
    pub log: Seq<Seq<char>>,
    /// A word was admitted and waits to be settled; it is the last of `log`.
    pub pending: bool,
    /// Who submitted each word of `log`.
    pub authors: Seq<u64>,
    /// How many words have passed every check in this game.
    pub passed: nat,
}

impl SessionView {
    pub open spec fn turn_owner(self) -> u64 {
        if self.turn_is_b {
            self.player_b
        } else {
            self.player_a
        }
    }

    /// The player who is not the turn owner.
    pub open spec fn opponent(self) -> u64 {
        if self.turn_is_b {
            self.player_a
        } else {
            self.player_b
        }
    }

    /// Who plays word `k` (counted from zero) of a game.
    pub open spec fn player_of(self, k: int) -> u64 {
        if k % 2 == 0 {
            self.player_a
        } else {
            self.player_b
        }
    }

    pub open spec fn idle(self) -> bool {
        &&& !self.active
        &&& !self.turn_is_b
        &&& !self.pending
        &&& self.log.len() == 0
        &&& self.authors.len() == 0
        &&& self.passed == 0
    }

    pub open spec fn wf(self) -> bool {
        &&& !self.active ==> self.idle()
        &&& self.authors.len() == self.log.len()
        &&& self.log.len() == self.passed + if self.pending { 1nat } else { 0nat }
        &&& self.turn_is_b == (self.passed % 2 == 1)
        &&& forall|k: int| 0 <= k < self.log.len() ==> #[trigger] self.authors[k] == self.player_of(k)
        &&& forall|k: int| 0 <= k < self.passed ==> long_enough(#[trigger] self.log[k])
        &&& forall|k: int| 0 < k < self.passed ==> chains_onto(self.log[k - 1], #[trigger] self.log[k])
    }

    /// A message from `sender` in `channel` is admitted to the chain log.
    pub open spec fn admits(self, sender: u64, channel: u64) -> bool {
        &&& self.active
        &&& channel == self.thread
        &&& sender == self.turn_owner()
        &&& !self.pending
    }

    /// The word waiting to be settled.
    pub open spec fn pending_word(self) -> Seq<char> {
        self.log.last()
    }

    /// The word before the pending one, if any.
    pub open spec fn previous_word(self) -> Option<Seq<char>> {
        if self.log.len() >= 2 {
            Some(self.log[self.log.len() - 2])
        } else {
            None
        }
    }

    /// A game just started by `requester` against `invitee`; the requester moves first.
    pub open spec fn fresh(requester: u64, invitee: u64, thread: u64) -> SessionView {
        SessionView {
            player_a: requester,
            player_b: invitee,
            turn_is_b: false,
            active: true,
            thread,
            log: Seq::empty(),
            pending: false,
            authors: Seq::empty(),
            passed: 0,
        }
    }

    /// After `content` from `sender` is admitted.
    pub open spec fn with_submission(self, sender: u64, content: Seq<char>) -> SessionView {
        SessionView {
            log: self.log.push(content),
            pending: true,
            authors: self.authors.push(sender),
            ..self
        }
    }

    /// After the pending word passed: the turn goes to the other player.
    pub open spec fn advanced(self) -> SessionView {
        SessionView { turn_is_b: !self.turn_is_b, pending: false, passed: self.passed + 1, ..self }
    }

    /// After the game ended: the log is cleared and no game is running.
    pub open spec fn ended(self) -> SessionView {
        SessionView {
            turn_is_b: false,
            active: false,
            log: Seq::empty(),
            pending: false,
            authors: Seq::empty(),
            passed: 0,
            ..self
        }
    }
}

/// How settling the pending word of `pre` with `lookup` ends, in `post` and `out`.
pub open spec fn settles(pre: SessionView, lookup: Lookup, post: SessionView, out: Outcome) -> bool {
    match verdict(pre.previous_word(), pre.pending_word(), lookup) {
        Ok(()) => {
            &&& post == pre.advanced()
            &&& match out {
                Outcome::Advanced { headword, definition, next_player } => {
                    &&& lookup matches Lookup::Found { headword: h, definition: d }
                    &&& headword@ == h@
                    &&& definition@ == d@
                    &&& next_player == post.turn_owner()
                },
                Outcome::Over { .. } => false,
            }
        },
        Err(e) => {
            &&& post == pre.ended()
            &&& match out {
                Outcome::Over { reason, winner, transcript } => {
                    &&& reason == e
                    &&& winner == pre.opponent()
                    &&& transcript@ == joined(pre.log)
                },
                Outcome::Advanced { .. } => false,
            }
        },
    }
}

/// The state of the one word-chain game; at most one runs at a time.
pub struct Session {
    player_a: u64,
    player_b: u64,
    turn_is_b: bool,
    active: bool,
    thread: u64,
    log: Vec<String>,
    pending: bool,
    authors: Ghost<Seq<u64>>,
    passed: Ghost<nat>,
}

impl View for Session {
    type V = SessionView;

    closed spec fn view(&self) -> SessionView {
        SessionView {
            player_a: self.player_a,
            player_b: self.player_b,
            turn_is_b: self.turn_is_b,
            active: self.active,
            thread: self.thread,
            log: words_of(self.log@),
            pending: self.pending,
            authors: self.authors@,
            passed: self.passed@,
        }
    }
}

impl Session {
    pub open spec fn wf(&self) -> bool {
        self@.wf()
    }

    /// No game running.
    pub fn new() -> (s: Session)
        ensures
            s.wf(),
            s@.idle(),
    {
        Session {
            player_a: 0,
            player_b: 0,
            turn_is_b: false,
            active: false,
            thread: 0,
            log: Vec::new(),
            pending: false,
            authors: Ghost(Seq::empty()),
            passed: Ghost(0),
        }
    }

    pub fn is_active(&self) -> (r: bool)
        ensures
            r == self@.active,
    {
        self.active
    }

    pub fn is_pending(&self) -> (r: bool)
        ensures
            r == self@.pending,
    {
        self.pending
    }

    /// The thread the game runs in.
    pub fn thread(&self) -> (r: u64)
        ensures
            r == self@.thread,
    {
        self.thread
    }

    /// The two players: the one who started the game, then the invitee.
    pub fn players(&self) -> (r: (u64, u64))
        ensures
            r == (self@.player_a, self@.player_b),
    {
        (self.player_a, self.player_b)
    }

    /// The player whose word is awaited or being settled.
    pub fn turn_owner(&self) -> (r: u64)
        ensures
            r == self@.turn_owner(),
    {
        if self.turn_is_b {
            self.player_b
        } else {
            self.player_a
        }
    }

    /// The player who is not the turn owner.
    pub fn opponent(&self) -> (r: u64)
        ensures
            r == self@.opponent(),
    {
        if self.turn_is_b {
            self.player_a
        } else {
            self.player_b
        }
    }

    /// The chain log.
    pub fn chain(&self) -> (r: &Vec<String>)
        ensures
            words_of(r@) == self@.log,
    {
        &self.log
    }

    /// Whether a game can start now; the same answer `start_session` gives.
    pub fn check_start(&self, invitee: u64, bot: u64, text_channel: bool) -> (r: Result<(), StartError>)
        ensures
            r == start_verdict(self@.active, invitee, bot, text_channel),
    {
        if self.active {
            Err(StartError::AlreadyPlaying)
        } else if invitee == bot {
            Err(StartError::SelfInvite)
        } else if !text_channel {
            Err(StartError::WrongChannelKind)
        } else {
            Ok(())
        }
    }

    /// Starts a game in `thread` between `requester`, who moves first, and
    /// `invitee`. Checks and sets `active` in one step; on an error nothing changes.
    pub fn start_session(
        &mut self,
        requester: u64,
        invitee: u64,
        bot: u64,
        text_channel: bool,
        thread: u64,
    ) -> (r: Result<(), StartError>)
        requires
            old(self).wf(),
        ensures
            final(self).wf(),
            r == start_verdict(old(self)@.active, invitee, bot, text_channel),
            r is Ok ==> final(self)@ == SessionView::fresh(requester, invitee, thread),
            r is Err ==> final(self)@ == old(self)@,
    {
        let r = self.check_start(invitee, bot, text_channel);
        if r.is_ok() {
            self.player_a = requester;
            self.player_b = invitee;
            self.turn_is_b = false;
            self.active = true;
            self.thread = thread;
            self.log = Vec::new();
            self.pending = false;
            self.authors = Ghost(Seq::empty());
            self.passed = Ghost(0);
            assert(self@.log =~= Seq::<Seq<char>>::empty());
        }
        r
    }

    /// Offers a chat message to the game. It is admitted only when a game is
    /// running, it was posted in the game's thread by the turn owner, and no
    /// earlier word waits to be settled; otherwise nothing changes.
    pub fn submit(&mut self, sender: u64, channel: u64, content: String) -> (accepted: bool)
        requires
            old(self).wf(),
        ensures
            final(self).wf(),
            accepted == old(self)@.admits(sender, channel),
            accepted ==> final(self)@ == old(self)@.with_submission(sender, content@),
            !accepted ==> final(self)@ == old(self)@,
    {
        if !(self.active && channel == self.thread && sender == self.turn_owner() && !self.pending) {
            return false;
        }
        let ghost pre = self@;
        let ghost content_view = content@;
        self.log.push(content);
        self.pending = true;
        self.authors = Ghost(self.authors@.push(sender));
        assert(self@.log =~= pre.log.push(content_view));
        true
    }

    /// The word waiting to be settled, if any.
    pub fn pending_word(&self) -> (r: Option<String>)
        requires
            self.wf(),
        ensures
            r is Some <==> self@.pending,
            r is Some ==> r->0@ == self@.pending_word(),
    {
        if self.pending {
            let n = self.log.len();
            Some(self.log[n - 1].clone())
        } else {
            None
        }
    }

    /// The checks on the pending word that need no dictionary. When this
    /// fails, the verdict is the same whatever the dictionary would answer.
    pub fn screen_pending(&self) -> (r: Result<(), Rejection>)
        requires
            self.wf(),
            self@.pending,
        ensures
            r == local_verdict(self@.previous_word(), self@.pending_word()),
    {
        let n = self.log.len();
        if n >= 2 {
            screen(Some(self.log[n - 2].as_str()), self.log[n - 1].as_str())
        } else {
            screen(None, self.log[n - 1].as_str())
        }
    }

    /// The next thing the game loop must do.
    pub fn next_step(&self) -> (r: Step)
        requires
            self.wf(),
        ensures
            !(self@.active && self@.pending) ==> r is Wait,
            self@.active && self@.pending ==> match local_verdict(self@.previous_word(), self@.pending_word()) {
                Ok(()) => r matches Step::AskDictionary { word } && word@ == self@.pending_word(),
                Err(_) => r is Settle,
            },
    {
        if !(self.active && self.pending) {
            return Step::Wait;
        }
        match self.screen_pending() {
            Ok(()) => {
                let n = self.log.len();
                Step::AskDictionary { word: self.log[n - 1].clone() }
            },
            Err(_) => Step::Settle,
        }
    }

    /// Settles the pending word with what the dictionary answered for it. A
    /// word that passes gives the turn to the other player; one that fails
    /// ends the game, and the player who did not submit it wins.
    pub fn resolve(&mut self, lookup: &Lookup) -> (out: Outcome)
        requires
            old(self).wf(),
            old(self)@.active,
            old(self)@.pending,
        ensures
            final(self).wf(),
            settles(old(self)@, *lookup, final(self)@, out),
    {
        let ghost pre = self@;
        let n = self.log.len();
        let v = if n >= 2 {
            judge(Some(self.log[n - 2].as_str()), self.log[n - 1].as_str(), lookup)
        } else {
            judge(None, self.log[n - 1].as_str(), lookup)
        };
        match v {
            Ok(()) => {
                self.pending = false;
                self.turn_is_b = !self.turn_is_b;
                self.passed = Ghost(self.passed@ + 1);
                proof {
                    assert forall|k: int| 0 < k < self@.passed implies chains_onto(
                        self@.log[k - 1],
                        #[trigger] self@.log[k],
                    ) by {
                        if k == pre.passed {
                            assert(pre.previous_word() == Some(pre.log[k - 1]));
                        }
                    }
                }
                match lookup {
                    Lookup::Found { headword, definition } => Outcome::Advanced {
                        headword: headword.clone(),
                        definition: definition.clone(),
                        next_player: self.turn_owner(),
                    },
                    Lookup::NotFound => {
                        assert(false);
                        Outcome::Over { reason: Rejection::NotAWord, winner: 0, transcript: String::new() }
                    },
                }
            },
            Err(reason) => {
                let winner = self.opponent();
                let transcript = join_words(&self.log);
                self.turn_is_b = false;
                self.active = false;
                self.log = Vec::new();
                self.pending = false;
                self.authors = Ghost(Seq::empty());
                self.passed = Ghost(0);
                assert(self@.log =~= Seq::<Seq<char>>::empty());
                Outcome::Over { reason, winner, transcript }
            },
        }
    }
}

} // verus!
