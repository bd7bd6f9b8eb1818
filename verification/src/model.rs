//! Mathematical model of the session store and of the transitions that the
//! handlers perform. The executable handlers in `session` promise, clause by
//! clause, that their effect on the store equals these functions; the laws in
//! `laws` are proved about these functions alone.

use vstd::prelude::*;

use crate::protocol::{Action, ActorId, Event, GameState, Outcome, WordleEvent, MAX_ATTEMPTS, WORD_POSITIONS};

verus! {

/// One session as the contracts see it.
#[verifier::ext_equal]
pub ghost struct SessionModel {
    pub user: ActorId,
    pub word: Option<Seq<char>>,
    pub attempts: int,
    pub status: GameState,
    pub session_id: int,
}

/// The whole store as the contracts see it.
#[verifier::ext_equal]
pub ghost struct StoreModel {
    pub wordle_program: ActorId,
    pub games: Seq<SessionModel>,
    pub next_session_id: int,
}

/// No two sessions belong to the same user.
pub open spec fn users_distinct(games: Seq<SessionModel>) -> bool {
    forall|i: int, j: int|
        0 <= i < games.len() && 0 <= j < games.len() && i != j
            ==> #[trigger] games[i].user != #[trigger] games[j].user
}

/// A session is live while its round can still move: it has not finished.
pub open spec fn session_live(g: SessionModel) -> bool {
    !(g.status is GameOver)
}

/// Well-formedness of one session: the attempt count fits its status. A
/// round that has not begun has no evaluated guesses; one still in progress
/// has fewer than the cap, since reaching the cap finishes it; a finished
/// one has at most the cap.
pub open spec fn session_wf(g: SessionModel) -> bool {
    &&& 0 <= g.attempts
    &&& match g.status {
        GameState::NotStarted => g.attempts == 0,
        GameState::InProgress => g.attempts < MAX_ATTEMPTS as int,
        GameState::GameOver(_) => g.attempts <= MAX_ATTEMPTS as int,
    }
}

/// Well-formedness of a store: session ids were all drawn below the
/// generator's next value, users are unique, and every session's attempt
/// count fits its status.
pub open spec fn store_wf(s: StoreModel) -> bool {
    &&& users_distinct(s.games)
    &&& forall|i: int| 0 <= i < s.games.len() ==> 0 <= #[trigger] s.games[i].session_id < s.next_session_id
    &&& forall|i: int| 0 <= i < s.games.len() ==> session_wf(#[trigger] s.games[i])
    &&& 1 <= s.next_session_id <= u64::MAX as int
}

/// Some session belongs to `user`.
pub open spec fn has_user(games: Seq<SessionModel>, user: ActorId) -> bool {
    exists|i: int| 0 <= i < games.len() && #[trigger] games[i].user == user
}

/// The index of `user`'s session; meaningful only under `has_user`, and
/// unique under `users_distinct`.
pub open spec fn user_index(games: Seq<SessionModel>, user: ActorId) -> int {
    choose|i: int| 0 <= i < games.len() && #[trigger] games[i].user == user
}

/// Under distinct users, any index holding `user` is the one `user_index`
/// denotes.
pub proof fn lemma_user_index_is(games: Seq<SessionModel>, user: ActorId, i: int)
    requires
        users_distinct(games),
        0 <= i < games.len(),
        games[i].user == user,
    ensures
        has_user(games, user),
        user_index(games, user) == i,
{
    assert(has_user(games, user));
    let j = user_index(games, user);
    assert(0 <= j < games.len() && games[j].user == user);
    if i != j {
        assert(games[i].user != games[j].user);
    }
}

/// The session a fresh `StartGame` inserts.
pub open spec fn new_session(user: ActorId, session_id: int) -> SessionModel {
    SessionModel { user, word: None, attempts: 0, status: GameState::NotStarted, session_id }
}

/// `StartGame` from `user`: a no-op while any session for `user` exists
/// (finished or not), else a fresh `NotStarted` session under the next id.
pub open spec fn start_transition(s: StoreModel, user: ActorId) -> StoreModel {
    if has_user(s.games, user) {
        s
    } else {
        StoreModel {
            wordle_program: s.wordle_program,
            games: s.games.push(new_session(user, s.next_session_id)),
            next_session_id: s.next_session_id + 1,
        }
    }
}

/// `games` with the status of the session at `i` replaced.
pub open spec fn set_status(games: Seq<SessionModel>, i: int, status: GameState) -> Seq<SessionModel> {
    games.update(i, SessionModel { status, ..games[i] })
}

/// A guess is forwarded to the oracle only for a session that is in progress.
pub open spec fn can_guess(s: StoreModel, user: ActorId) -> bool {
    &&& has_user(s.games, user)
    &&& s.games[user_index(s.games, user)].status is InProgress
}

/// A watchdog firing is honoured only when the coordinator itself sent it and
/// the stored session for `user` still carries the embedded id.
pub open spec fn watchdog_applies(
    s: StoreModel,
    sender: ActorId,
    self_id: ActorId,
    user: ActorId,
    session_id: u64,
) -> bool {
    &&& sender == self_id
    &&& has_user(s.games, user)
    &&& s.games[user_index(s.games, user)].session_id == session_id as int
}

/// A watchdog firing forces `Lose` on a session still in progress and changes
/// nothing otherwise; in particular a finished session is never re-resolved.
pub open spec fn watchdog_transition(
    s: StoreModel,
    sender: ActorId,
    self_id: ActorId,
    user: ActorId,
    session_id: u64,
) -> StoreModel {
    if watchdog_applies(s, sender, self_id, user, session_id)
        && s.games[user_index(s.games, user)].status is InProgress {
        StoreModel {
            games: set_status(s.games, user_index(s.games, user), GameState::GameOver(Outcome::Lose)),
            ..s
        }
    } else {
        s
    }
}

/// What a watchdog firing tells the suspended caller: the round never began,
/// the round timed out, or (already finished, stale id, foreign sender,
/// unknown user) nothing.
pub open spec fn watchdog_notice(
    s: StoreModel,
    sender: ActorId,
    self_id: ActorId,
    user: ActorId,
    session_id: u64,
) -> Option<Event> {
    if watchdog_applies(s, sender, self_id, user, session_id) {
        match s.games[user_index(s.games, user)].status {
            GameState::NotStarted => Some(Event::GameNotFound { user }),
            GameState::InProgress => Some(Event::GameOver { outcome: Outcome::Lose }),
            GameState::GameOver(_) => None,
        }
    } else {
        None
    }
}

/// How one action moves the store. Guesses never move it: only replies and
/// the watchdog do.
pub open spec fn handle_transition(
    s: StoreModel,
    sender: ActorId,
    self_id: ActorId,
    action: Action,
) -> StoreModel {
    match action {
        Action::StartGame => start_transition(s, sender),
        Action::CheckWord { .. } => s,
        Action::CheckGameStatus { user, session_id } => watchdog_transition(
            s,
            sender,
            self_id,
            user,
            session_id,
        ),
    }
}

/// A reply matches the full word exactly when it lists every letter position
/// in order.
pub open spec fn full_match(correct: Seq<u8>) -> bool {
    correct == Seq::new(WORD_POSITIONS as nat, |i: int| i as u8)
}

/// The state a session enters once its `attempts` count has been raised to
/// `attempts` by a checked reply carrying `correct`: a full match wins at any
/// attempt count, exhausting the cap without one loses, anything else stays
/// in progress.
pub open spec fn checked_status(attempts: int, correct: Seq<u8>) -> GameState {
    if full_match(correct) {
        GameState::GameOver(Outcome::Win)
    } else if attempts >= MAX_ATTEMPTS as int {
        GameState::GameOver(Outcome::Lose)
    } else {
        GameState::InProgress
    }
}

/// The oracle confirmed the round began: the session, if any, moves to
/// `InProgress`. A finished session is terminal: a late confirmation
/// leaves it untouched.
pub open spec fn begun_transition(s: StoreModel, user: ActorId) -> StoreModel {
    if has_user(s.games, user) && session_live(s.games[user_index(s.games, user)]) {
        StoreModel {
            games: set_status(s.games, user_index(s.games, user), GameState::InProgress),
            ..s
        }
    } else {
        s
    }
}

/// The oracle evaluated a guess: the live session's `attempts` rises by
/// exactly one and its status follows `checked_status`. A finished session
/// is terminal: a late evaluation leaves it untouched.
pub open spec fn checked_transition(s: StoreModel, user: ActorId, correct: Seq<u8>) -> StoreModel {
    if has_user(s.games, user) && session_live(s.games[user_index(s.games, user)]) {
        let i = user_index(s.games, user);
        let g = s.games[i];
        StoreModel {
            games: s.games.update(
                i,
                SessionModel {
                    attempts: g.attempts + 1,
                    status: checked_status(g.attempts + 1, correct),
                    ..g
                },
            ),
            ..s
        }
    } else {
        s
    }
}

/// How one oracle reply moves the store.
pub open spec fn reply_transition(s: StoreModel, event: WordleEvent) -> StoreModel {
    match event {
        WordleEvent::GameStarted { user } => begun_transition(s, user),
        WordleEvent::WordChecked { user, correct_positions, .. } => checked_transition(
            s,
            user,
            correct_positions@,
        ),
    }
}

/// What the resumed caller is told when a reply is reconciled: the start
/// confirmation, the terminal outcome, or the raw per-letter match passed
/// through; nothing when no live session waits for the reply — a finished
/// session is never re-resolved.
pub open spec fn reply_notice(s: StoreModel, event: WordleEvent) -> Option<Event> {
    match event {
        WordleEvent::GameStarted { user } => if has_user(s.games, user) && session_live(
            s.games[user_index(s.games, user)],
        ) {
            Some(Event::GameStarted { user })
        } else {
            None
        },
        WordleEvent::WordChecked { user, correct_positions, contained_in_word } => {
            if has_user(s.games, user) && session_live(s.games[user_index(s.games, user)]) {
                let attempts = s.games[user_index(s.games, user)].attempts + 1;
                if full_match(correct_positions@) {
                    Some(Event::GameOver { outcome: Outcome::Win })
                } else if attempts >= MAX_ATTEMPTS as int {
                    Some(Event::GameOver { outcome: Outcome::Lose })
                } else {
                    Some(Event::WordChecked { correct_positions, contained_in_word })
                }
            } else {
                None
            }
        },
    }
}

/// A reply wakes the suspended caller exactly when a live session for its
/// user exists; both reply kinds resume through the same mechanism, and a
/// finished session has no pending exchange left to resume.
pub open spec fn reply_wake(s: StoreModel, event: WordleEvent) -> bool {
    has_user(s.games, event.spec_user()) && session_live(
        s.games[user_index(s.games, event.spec_user())],
    )
}

} // verus!
