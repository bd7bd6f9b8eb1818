//! Concrete checks of the coordinator's stated properties: duplicate starts,
//! silently dropped guesses, attempt counting, win/lose decisions, and stale
//! or duplicate watchdog firings.

use game_session::protocol::{
    Action, ActorId, Event, GameState, Outcome, WordleAction, WordleEvent, MAX_ATTEMPTS,
    WATCHDOG_DELAY,
};
use game_session::session::{GameSession, GameStatus};

fn user() -> ActorId {
    ActorId::from_u64(1)
}

fn other_user() -> ActorId {
    ActorId::from_u64(2)
}

fn oracle() -> ActorId {
    ActorId::from_u64(100)
}

fn coordinator() -> ActorId {
    ActorId::from_u64(50)
}

fn begun_session() -> GameSession {
    let mut s = GameSession::new(oracle());
    s.handle(user(), coordinator(), Action::StartGame);
    s.handle_reply(WordleEvent::GameStarted { user: user() });
    s
}

fn partial_reply(u: ActorId) -> WordleEvent {
    WordleEvent::WordChecked { user: u, correct_positions: vec![0], contained_in_word: vec![2] }
}

fn full_reply(u: ActorId) -> WordleEvent {
    WordleEvent::WordChecked {
        user: u,
        correct_positions: vec![0, 1, 2, 3, 4],
        contained_in_word: vec![],
    }
}

#[test]
fn second_start_is_a_no_op() {
    let mut s = GameSession::new(oracle());
    let fx = s.handle(user(), coordinator(), Action::StartGame);
    assert!(fx.oracle.is_some());
    assert_eq!(s.games.len(), 1);

    let fx = s.handle(user(), coordinator(), Action::StartGame);
    assert!(fx.oracle.is_none());
    assert!(fx.watchdog.is_none());
    assert!(fx.notice.is_none());
    assert!(!fx.wait);
    assert_eq!(s.games.len(), 1);
}

#[test]
fn start_never_clears_a_finished_session() {
    let mut s = begun_session();
    s.handle_reply(full_reply(user()));
    assert_eq!(s.games[0].status, GameState::GameOver(Outcome::Win));

    // Even a finished session blocks a new start for the same user.
    let fx = s.handle(user(), coordinator(), Action::StartGame);
    assert!(!fx.wait);
    assert!(fx.oracle.is_none());
    assert_eq!(s.games.len(), 1);
    assert_eq!(s.games[0].status, GameState::GameOver(Outcome::Win));
}

#[test]
fn session_ids_strictly_increase_across_users() {
    let mut s = GameSession::new(oracle());
    let fx1 = s.handle(user(), coordinator(), Action::StartGame);
    let fx2 = s.handle(other_user(), coordinator(), Action::StartGame);
    let w1 = fx1.watchdog.unwrap();
    let w2 = fx2.watchdog.unwrap();
    assert_eq!(w1.session_id, 1);
    assert_eq!(w2.session_id, 2);
    assert_eq!(w1.delay, WATCHDOG_DELAY);
    assert_eq!(s.games[0].session_id, 1);
    assert_eq!(s.games[1].session_id, 2);
    assert_eq!(s.next_session_id, 3);
}

#[test]
fn guess_before_begun_is_dropped() {
    let mut s = GameSession::new(oracle());
    s.handle(user(), coordinator(), Action::StartGame);
    // The oracle has not yet confirmed: the session is NotStarted.
    let fx = s.handle(user(), coordinator(), Action::CheckWord { word: "house".to_string() });
    assert!(fx.oracle.is_none());
    assert!(!fx.wait);
    assert_eq!(s.games[0].attempts, 0);
    assert_eq!(s.games[0].status, GameState::NotStarted);
}

#[test]
fn guess_after_finish_is_dropped() {
    let mut s = begun_session();
    s.handle_reply(full_reply(user()));
    let fx = s.handle(user(), coordinator(), Action::CheckWord { word: "house".to_string() });
    assert!(fx.oracle.is_none());
    assert!(!fx.wait);
    assert_eq!(s.games[0].attempts, 1);
    assert_eq!(s.games[0].status, GameState::GameOver(Outcome::Win));
}

#[test]
fn guess_without_session_is_dropped() {
    let mut s = GameSession::new(oracle());
    let fx = s.handle(user(), coordinator(), Action::CheckWord { word: "house".to_string() });
    assert!(fx.oracle.is_none());
    assert!(!fx.wait);
    assert!(s.games.is_empty());
}

#[test]
fn each_checked_reply_adds_exactly_one_attempt() {
    let mut s = begun_session();
    for expected in 1..=3u8 {
        s.handle(user(), coordinator(), Action::CheckWord { word: "crane".to_string() });
        s.handle_reply(partial_reply(user()));
        assert_eq!(s.games[0].attempts, expected);
    }
}

#[test]
fn checked_reply_for_unknown_user_changes_nothing() {
    let mut s = begun_session();
    let rfx = s.handle_reply(partial_reply(other_user()));
    assert!(rfx.notice.is_none());
    assert!(!rfx.wake);
    assert_eq!(s.games[0].attempts, 0);
}

#[test]
fn begun_reply_for_unknown_user_changes_nothing() {
    let mut s = GameSession::new(oracle());
    let rfx = s.handle_reply(WordleEvent::GameStarted { user: user() });
    assert!(rfx.notice.is_none());
    assert!(!rfx.wake);
    assert!(s.games.is_empty());
}

#[test]
fn full_match_wins_immediately_on_first_attempt() {
    let mut s = begun_session();
    let rfx = s.handle_reply(full_reply(user()));
    assert_eq!(rfx.notice, Some(Event::GameOver { outcome: Outcome::Win }));
    assert!(rfx.wake);
    assert_eq!(s.games[0].attempts, 1);
    assert_eq!(s.games[0].status, GameState::GameOver(Outcome::Win));
}

#[test]
fn full_match_on_last_attempt_still_wins() {
    let mut s = begun_session();
    for _ in 0..(MAX_ATTEMPTS - 1) {
        s.handle_reply(partial_reply(user()));
    }
    assert_eq!(s.games[0].status, GameState::InProgress);
    let rfx = s.handle_reply(full_reply(user()));
    assert_eq!(rfx.notice, Some(Event::GameOver { outcome: Outcome::Win }));
    assert_eq!(s.games[0].attempts, MAX_ATTEMPTS);
    assert_eq!(s.games[0].status, GameState::GameOver(Outcome::Win));
}

#[test]
fn six_partial_matches_lose() {
    let mut s = begun_session();
    for n in 1..=MAX_ATTEMPTS {
        let rfx = s.handle_reply(partial_reply(user()));
        if n < MAX_ATTEMPTS {
            assert_eq!(
                rfx.notice,
                Some(Event::WordChecked {
                    correct_positions: vec![0],
                    contained_in_word: vec![2]
                })
            );
        } else {
            assert_eq!(rfx.notice, Some(Event::GameOver { outcome: Outcome::Lose }));
        }
    }
    assert_eq!(s.games[0].attempts, MAX_ATTEMPTS);
    assert_eq!(s.games[0].status, GameState::GameOver(Outcome::Lose));
}

#[test]
fn four_positions_are_not_a_full_match() {
    let mut s = begun_session();
    let rfx = s.handle_reply(WordleEvent::WordChecked {
        user: user(),
        correct_positions: vec![0, 1, 2, 3],
        contained_in_word: vec![4],
    });
    assert_eq!(
        rfx.notice,
        Some(Event::WordChecked { correct_positions: vec![0, 1, 2, 3], contained_in_word: vec![4] })
    );
    assert_eq!(s.games[0].status, GameState::InProgress);
}

#[test]
fn stale_watchdog_never_touches_a_replaced_id() {
    // A store whose stored session carries a newer id than the firing.
    let mut s = GameSession {
        wordle_program: oracle(),
        games: vec![GameStatus {
            user: user(),
            word: None,
            attempts: 0,
            status: GameState::InProgress,
            session_id: 2,
        }],
        next_session_id: 3,
    };
    let fx = s.handle(
        coordinator(),
        coordinator(),
        Action::CheckGameStatus { user: user(), session_id: 1 },
    );
    assert!(fx.notice.is_none());
    assert_eq!(s.games[0].status, GameState::InProgress);
    assert_eq!(s.games[0].attempts, 0);
}

#[test]
fn watchdog_from_foreign_sender_is_ignored() {
    let mut s = begun_session();
    let fx = s.handle(
        other_user(),
        coordinator(),
        Action::CheckGameStatus { user: user(), session_id: 1 },
    );
    assert!(fx.notice.is_none());
    assert_eq!(s.games[0].status, GameState::InProgress);
}

#[test]
fn watchdog_forces_lose_exactly_once() {
    let mut s = begun_session();
    let timeout = Action::CheckGameStatus { user: user(), session_id: 1 };

    let fx = s.handle(coordinator(), coordinator(), timeout.clone());
    assert_eq!(fx.notice, Some(Event::GameOver { outcome: Outcome::Lose }));
    assert_eq!(s.games[0].status, GameState::GameOver(Outcome::Lose));

    // A duplicate delivery of the same firing is a no-op.
    let fx = s.handle(coordinator(), coordinator(), timeout);
    assert!(fx.notice.is_none());
    assert_eq!(s.games[0].status, GameState::GameOver(Outcome::Lose));
}

#[test]
fn watchdog_before_begun_reports_game_not_found() {
    let mut s = GameSession::new(oracle());
    let fx = s.handle(user(), coordinator(), Action::StartGame);
    assert!(fx.wait);
    // The delay elapses before the oracle ever confirms.
    let fx = s.handle(
        coordinator(),
        coordinator(),
        Action::CheckGameStatus { user: user(), session_id: 1 },
    );
    assert_eq!(fx.notice, Some(Event::GameNotFound { user: user() }));
    assert_eq!(s.games[0].status, GameState::NotStarted);
}

#[test]
fn late_checked_reply_after_timeout_is_ignored() {
    // A guess is outstanding when the watchdog forces the loss; the oracle's
    // reply arriving afterwards finds the session finished and is dropped —
    // even a full match never flips the recorded outcome.
    let mut s = begun_session();
    s.handle(user(), coordinator(), Action::CheckWord { word: "crane".to_string() });
    s.handle(
        coordinator(),
        coordinator(),
        Action::CheckGameStatus { user: user(), session_id: 1 },
    );
    assert_eq!(s.games[0].status, GameState::GameOver(Outcome::Lose));

    let rfx = s.handle_reply(full_reply(user()));
    assert!(!rfx.wake);
    assert!(rfx.notice.is_none());
    assert_eq!(s.games[0].attempts, 0);
    assert_eq!(s.games[0].status, GameState::GameOver(Outcome::Lose));
}

#[test]
fn late_begun_reply_after_finish_is_ignored() {
    // The oracle's start confirmation arriving after the round finished
    // never reopens the session.
    let mut s = begun_session();
    s.handle_reply(full_reply(user()));
    assert_eq!(s.games[0].status, GameState::GameOver(Outcome::Win));

    let rfx = s.handle_reply(WordleEvent::GameStarted { user: user() });
    assert!(!rfx.wake);
    assert!(rfx.notice.is_none());
    assert_eq!(s.games[0].status, GameState::GameOver(Outcome::Win));
    assert_eq!(s.games[0].attempts, 1);
}

#[test]
fn check_word_forwards_the_exact_word() {
    let mut s = begun_session();
    let fx = s.handle(user(), coordinator(), Action::CheckWord { word: "crane".to_string() });
    assert_eq!(
        fx.oracle,
        Some(WordleAction::CheckWord { user: user(), word: "crane".to_string() })
    );
    assert!(fx.watchdog.is_none());
    assert!(fx.wait);
}

#[test]
fn snapshot_copies_the_whole_store() {
    let mut s = begun_session();
    s.handle_reply(partial_reply(user()));
    let snap = s.snapshot();
    assert_eq!(snap.wordle_program, s.wordle_program);
    assert_eq!(snap.next_session_id, s.next_session_id);
    assert_eq!(snap.games.len(), s.games.len());
    assert_eq!(snap.games[0].user, s.games[0].user);
    assert_eq!(snap.games[0].attempts, s.games[0].attempts);
    assert_eq!(snap.games[0].status, s.games[0].status);
    assert_eq!(snap.games[0].session_id, s.games[0].session_id);
    assert!(snap.games[0].word.is_none());
}

#[test]
fn get_user_reads_the_reply_owner() {
    let begun = WordleEvent::GameStarted { user: user() };
    assert_eq!(*begun.get_user(), user());
    let checked = partial_reply(other_user());
    assert_eq!(*checked.get_user(), other_user());
}

#[test]
fn actor_ids_compare_by_all_words() {
    let a = ActorId::from_u64(1);
    let b = ActorId { w0: 1, w1: 0, w2: 0, w3: 1 };
    assert_ne!(a, b);
    assert_eq!(a, ActorId::from_u64(1));
}
