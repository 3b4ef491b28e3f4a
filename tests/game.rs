use word_chain::rules::{continues, is_long_enough, judge, matches_lookup, screen, Lookup, Rejection};
use word_chain::session::{Outcome, Session, StartError, Step};
use word_chain::transcript::join_words;

const BOT: u64 = 999;
const ALICE: u64 = 1;
const BOB: u64 = 2;
const THREAD: u64 = 50;

fn found(word: &str) -> Lookup {
    Lookup::Found { headword: word.to_string(), definition: format!("meaning of {}", word) }
}

fn started() -> Session {
    let mut s = Session::new();
    assert_eq!(s.start_session(ALICE, BOB, BOT, true, THREAD), Ok(()));
    s
}

fn play(s: &mut Session, who: u64, word: &str, lookup: &Lookup) -> Outcome {
    assert!(s.submit(who, THREAD, word.to_string()));
    s.resolve(lookup)
}

#[test]
fn chain_continuity_apple_elephant() {
    assert!(continues("apple", "elephant"));
    assert!(!continues("apple", "banana"));
    assert!(!continues("", "elephant"));
    assert!(!continues("apple", ""));
}

#[test]
fn chain_continuity_in_game() {
    let mut s = started();
    assert!(matches!(play(&mut s, ALICE, "apple", &found("apple")), Outcome::Advanced { .. }));
    assert!(matches!(play(&mut s, BOB, "elephant", &found("elephant")), Outcome::Advanced { .. }));
    assert_eq!(s.chain().clone(), vec!["apple".to_string(), "elephant".to_string()]);

    let mut t = started();
    play(&mut t, ALICE, "apple", &found("apple"));
    match play(&mut t, BOB, "banana", &found("banana")) {
        Outcome::Over { reason, winner, transcript } => {
            assert_eq!(reason, Rejection::BrokenChain);
            assert_eq!(winner, ALICE);
            assert_eq!(transcript, "apple -> banana");
        }
        _ => panic!("banana does not continue apple"),
    }
}

#[test]
fn scenario_first_word_accepted() {
    let mut s = started();
    match play(&mut s, ALICE, "banana", &found("banana")) {
        Outcome::Advanced { headword, definition, next_player } => {
            assert_eq!(headword, "banana");
            assert_eq!(definition, "meaning of banana");
            assert_eq!(next_player, BOB);
        }
        _ => panic!("banana should be accepted"),
    }
    assert_eq!(s.chain().clone(), vec!["banana".to_string()]);
    assert_eq!(s.turn_owner(), BOB);
    assert!(!s.is_pending());
    assert!(s.is_active());
}

#[test]
fn scenario_one_letter_ends_game() {
    let mut s = started();
    play(&mut s, ALICE, "banana", &found("banana"));
    match play(&mut s, BOB, "a", &found("a")) {
        Outcome::Over { reason, winner, transcript } => {
            assert_eq!(reason, Rejection::TooShort);
            assert_eq!(winner, ALICE);
            assert_eq!(transcript, "banana -> a");
        }
        _ => panic!("a one-letter word must be rejected"),
    }
    assert!(s.chain().is_empty());
    assert!(!s.is_active());
    assert!(!s.is_pending());
    assert_eq!(s.turn_owner(), ALICE);
}

#[test]
fn scenario_second_start_rejected() {
    let mut s = started();
    play(&mut s, ALICE, "banana", &found("banana"));
    assert_eq!(s.check_start(7, BOT, true), Err(StartError::AlreadyPlaying));
    assert_eq!(s.start_session(7, 8, BOT, true, 60), Err(StartError::AlreadyPlaying));
    assert_eq!(s.chain().clone(), vec!["banana".to_string()]);
    assert_eq!(s.turn_owner(), BOB);
    assert_eq!(s.players(), (ALICE, BOB));
    assert_eq!(s.thread(), THREAD);
}

#[test]
fn scenario_headword_mismatch() {
    let mut s = started();
    match play(&mut s, ALICE, "apple", &found("appled")) {
        Outcome::Over { reason, winner, transcript } => {
            assert_eq!(reason, Rejection::NotAWord);
            assert_eq!(winner, BOB);
            assert_eq!(transcript, "apple");
        }
        _ => panic!("a mismatched headword must be rejected"),
    }
    assert!(!s.is_active());
}

#[test]
fn one_character_always_too_short() {
    assert_eq!(judge(Some("ba"), "a", &found("a")), Err(Rejection::TooShort));
    assert_eq!(judge(None, "a", &found("a")), Err(Rejection::TooShort));
    assert_eq!(screen(Some("ta"), "a"), Err(Rejection::TooShort));
    assert!(!is_long_enough("a"));
    assert!(!is_long_enough(""));
    assert!(is_long_enough("ab"));
}

#[test]
fn length_counts_characters_not_bytes() {
    assert!(!is_long_enough("가"));
    assert!(is_long_enough("사과"));
    assert!(continues("사과", "과자"));
    assert!(!continues("사과", "자두"));
    assert_eq!(judge(Some("사과"), "과자", &found("과자")), Ok(()));
}

#[test]
fn dictionary_answers() {
    assert!(matches_lookup("apple", &found("apple")));
    assert!(!matches_lookup("apple", &found("appled")));
    assert!(!matches_lookup("apple", &found("Apple")));
    assert!(!matches_lookup("apple", &Lookup::NotFound));
    assert_eq!(judge(None, "apple", &Lookup::NotFound), Err(Rejection::NotAWord));
    assert_eq!(judge(None, "apple", &found("apple")), Ok(()));
}

#[test]
fn turns_alternate_from_requester() {
    let mut s = started();
    let words = ["apple", "elephant", "tiger", "rabbit", "tulip"];
    for (k, w) in words.iter().enumerate() {
        let owner = if k % 2 == 0 { ALICE } else { BOB };
        let other = if k % 2 == 0 { BOB } else { ALICE };
        assert_eq!(s.turn_owner(), owner);
        assert!(!s.submit(other, THREAD, w.to_string()));
        match play(&mut s, owner, w, &found(w)) {
            Outcome::Advanced { next_player, .. } => assert_eq!(next_player, other),
            _ => panic!("valid word rejected"),
        }
    }
    assert_eq!(s.chain().len(), 5);
    match play(&mut s, BOB, "orange", &found("orange")) {
        Outcome::Over { reason, winner, transcript } => {
            assert_eq!(reason, Rejection::BrokenChain);
            assert_eq!(winner, ALICE);
            assert_eq!(transcript, "apple -> elephant -> tiger -> rabbit -> tulip -> orange");
        }
        _ => panic!("orange does not continue tulip"),
    }
}

#[test]
fn foreign_messages_are_ignored() {
    let mut s = Session::new();
    assert!(!s.submit(ALICE, THREAD, "apple".to_string()));
    assert!(s.chain().is_empty());

    let mut s = started();
    assert!(!s.submit(BOB, THREAD, "apple".to_string()));
    assert!(!s.submit(ALICE, THREAD + 1, "apple".to_string()));
    assert!(!s.submit(77, THREAD, "apple".to_string()));
    assert!(s.chain().is_empty());
    assert!(!s.is_pending());
    assert_eq!(s.pending_word(), None);
}

#[test]
fn burst_keeps_only_first_submission() {
    let mut s = started();
    assert!(s.submit(ALICE, THREAD, "apple".to_string()));
    assert!(!s.submit(ALICE, THREAD, "avocado".to_string()));
    assert_eq!(s.chain().clone(), vec!["apple".to_string()]);
    assert!(s.is_pending());
    assert_eq!(s.pending_word(), Some("apple".to_string()));
    assert_eq!(s.screen_pending(), Ok(()));
}

#[test]
fn start_errors() {
    let mut s = Session::new();
    assert_eq!(s.start_session(ALICE, BOT, BOT, true, THREAD), Err(StartError::SelfInvite));
    assert_eq!(s.start_session(ALICE, BOB, BOT, false, THREAD), Err(StartError::WrongChannelKind));
    assert!(!s.is_active());
    assert_eq!(s.check_start(BOB, BOT, true), Ok(()));
    assert_eq!(s.start_session(ALICE, BOB, BOT, true, THREAD), Ok(()));
    assert!(s.is_active());
    assert_eq!(s.players(), (ALICE, BOB));
    assert_eq!(s.turn_owner(), ALICE);
    assert_eq!(s.opponent(), BOB);
}

#[test]
fn new_game_after_game_over() {
    let mut s = started();
    play(&mut s, ALICE, "x", &found("x"));
    assert!(!s.is_active());
    assert_eq!(s.start_session(BOB, ALICE, BOT, true, 61), Ok(()));
    assert_eq!(s.turn_owner(), BOB);
    assert_eq!(s.thread(), 61);
    assert!(s.chain().is_empty());
}

#[test]
fn transcript_joins_with_arrows() {
    assert_eq!(join_words(&vec![]), "");
    assert_eq!(join_words(&vec!["one".to_string()]), "one");
    assert_eq!(join_words(&vec!["a".to_string(), "b".to_string(), "c".to_string()]), "a -> b -> c");
}

#[test]
fn loop_steps() {
    let mut s = Session::new();
    assert!(matches!(s.next_step(), Step::Wait));
    assert_eq!(s.start_session(ALICE, BOB, BOT, true, THREAD), Ok(()));
    assert!(matches!(s.next_step(), Step::Wait));
    assert!(s.submit(ALICE, THREAD, "apple".to_string()));
    match s.next_step() {
        Step::AskDictionary { word } => assert_eq!(word, "apple"),
        _ => panic!("a well-formed first word needs the dictionary"),
    }
    s.resolve(&found("apple"));
    assert!(matches!(s.next_step(), Step::Wait));
    assert!(s.submit(BOB, THREAD, "banana".to_string()));
    assert_eq!(s.screen_pending(), Err(Rejection::BrokenChain));
    assert!(matches!(s.next_step(), Step::Settle));
    match s.resolve(&Lookup::NotFound) {
        Outcome::Over { reason, winner, .. } => {
            assert_eq!(reason, Rejection::BrokenChain);
            assert_eq!(winner, ALICE);
        }
        _ => panic!("banana does not continue apple"),
    }
}
