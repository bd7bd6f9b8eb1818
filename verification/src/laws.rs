//! Laws of the coordinator, stated and proved over the transition functions
//! of `model`. The handlers in `session` promise that they move the store
//! exactly as those functions say, so each law below holds of the executable
//! coordinator as well.

use vstd::prelude::*;

use crate::model::{
    checked_transition, full_match, handle_transition, has_user, lemma_user_index_is,
    reply_notice, reply_transition, reply_wake, session_live, start_transition, store_wf,
    user_index, watchdog_applies, watchdog_notice, watchdog_transition, StoreModel,
};
use crate::protocol::{Action, ActorId, Event, GameState, Outcome, WordleEvent, MAX_ATTEMPTS};

verus! {

/// At most one session per user ever exists: starting a game for a user who
/// already has a session — finished or not — changes nothing, so starting
/// twice in a row is the same as starting once, and the second start never
/// adds a second session.
pub proof fn lemma_start_twice_is_start_once(s: StoreModel, user: ActorId)
    requires
        store_wf(s),
    ensures
        has_user(start_transition(s, user).games, user),
        start_transition(start_transition(s, user), user) == start_transition(s, user),
        has_user(s.games, user) ==> start_transition(s, user) == s,
        !has_user(s.games, user) ==> start_transition(s, user).games.len() == s.games.len() + 1,
{
    if !has_user(s.games, user) {
        let t = start_transition(s, user);
        assert(t.games[s.games.len() as int].user == user);
    }
}

/// A guess never moves the store by itself: whether it is forwarded to the
/// oracle or silently dropped, every session — in particular its attempt
/// count and its status — stays as it was. Only the oracle's reply or the
/// watchdog moves a session. (That a dropped guess also sends nothing and
/// suspends nobody is the `is_noop` clause of `GameSession::handle`.)
pub proof fn lemma_guess_moves_nothing(s: StoreModel, sender: ActorId, self_id: ActorId, word: String)
    ensures
        handle_transition(s, sender, self_id, Action::CheckWord { word }) == s,
{
}

/// Every checked reply reconciled against a live session raises that
/// session's attempt count by exactly one; no session's count ever falls,
/// and no other session is touched at all. A reply without a live session —
/// unknown user, or a round already finished — changes nothing.
pub proof fn lemma_checked_raises_attempts_by_one(s: StoreModel, user: ActorId, correct: Seq<u8>)
    requires
        store_wf(s),
    ensures
        checked_transition(s, user, correct).games.len() == s.games.len(),
        forall|i: int|
            0 <= i < s.games.len() ==> #[trigger] checked_transition(s, user, correct).games[i].attempts
                >= s.games[i].attempts,
        has_user(s.games, user) && session_live(s.games[user_index(s.games, user)])
            ==> checked_transition(s, user, correct).games[user_index(s.games, user)].attempts
            == s.games[user_index(s.games, user)].attempts + 1,
        forall|i: int|
            0 <= i < s.games.len() && (!has_user(s.games, user) || i != user_index(s.games, user))
                ==> #[trigger] checked_transition(s, user, correct).games[i] == s.games[i],
        !(has_user(s.games, user) && session_live(s.games[user_index(s.games, user)]))
            ==> checked_transition(s, user, correct) == s,
{
    if has_user(s.games, user) {
        let i = user_index(s.games, user);
        assert(0 <= i < s.games.len() && s.games[i].user == user);
    }
}

/// No reply ever lowers an attempt count, and no reply adds or removes a
/// session.
pub proof fn lemma_reply_attempts_monotone(s: StoreModel, event: WordleEvent)
    requires
        store_wf(s),
    ensures
        reply_transition(s, event).games.len() == s.games.len(),
        forall|i: int|
            0 <= i < s.games.len() ==> #[trigger] reply_transition(s, event).games[i].attempts
                >= s.games[i].attempts,
{
    match event {
        WordleEvent::GameStarted { user } => {
            if has_user(s.games, user) {
                let i = user_index(s.games, user);
                assert(0 <= i < s.games.len() && s.games[i].user == user);
            }
        },
        WordleEvent::WordChecked { user, correct_positions, .. } => {
            lemma_checked_raises_attempts_by_one(s, user, correct_positions@);
        },
    }
}

/// The decision a checked reply forces on a live session: a full positional
/// match wins immediately at any attempt count, even the first; without one,
/// reaching the attempt cap loses; below the cap the session stays in
/// progress.
pub proof fn lemma_checked_outcome(s: StoreModel, user: ActorId, correct: Seq<u8>)
    requires
        store_wf(s),
        has_user(s.games, user),
        session_live(s.games[user_index(s.games, user)]),
    ensures
        full_match(correct) ==> checked_transition(s, user, correct).games[user_index(
            s.games,
            user,
        )].status == GameState::GameOver(Outcome::Win),
        !full_match(correct) && s.games[user_index(s.games, user)].attempts + 1 >= MAX_ATTEMPTS as int
            ==> checked_transition(s, user, correct).games[user_index(s.games, user)].status
            == GameState::GameOver(Outcome::Lose),
        !full_match(correct) && s.games[user_index(s.games, user)].attempts + 1 < MAX_ATTEMPTS as int
            ==> checked_transition(s, user, correct).games[user_index(s.games, user)].status
            == GameState::InProgress,
{
    let i = user_index(s.games, user);
    assert(0 <= i < s.games.len() && s.games[i].user == user);
}

/// A watchdog firing whose embedded session id no longer matches the stored
/// session — because that session was conceptually replaced — is a complete
/// no-op: no session changes and nobody is notified. So is one firing for a
/// user without any session, or one not sent by the coordinator itself.
pub proof fn lemma_stale_watchdog_is_noop(
    s: StoreModel,
    sender: ActorId,
    self_id: ActorId,
    user: ActorId,
    session_id: u64,
)
    requires
        store_wf(s),
        !watchdog_applies(s, sender, self_id, user, session_id),
    ensures
        watchdog_transition(s, sender, self_id, user, session_id) == s,
        watchdog_notice(s, sender, self_id, user, session_id) is None,
{
}

/// A watchdog firing against a session still in progress forces `Lose`
/// exactly once: the firing itself finishes the session and notifies the
/// caller, and an identical second firing — a duplicate delivery — finds the
/// session finished, changes nothing and notifies nobody.
pub proof fn lemma_watchdog_fires_exactly_once(
    s: StoreModel,
    self_id: ActorId,
    user: ActorId,
    session_id: u64,
)
    requires
        store_wf(s),
        watchdog_applies(s, self_id, self_id, user, session_id),
        s.games[user_index(s.games, user)].status is InProgress,
    ensures
        watchdog_transition(s, self_id, self_id, user, session_id).games[user_index(
            s.games,
            user,
        )].status == GameState::GameOver(Outcome::Lose),
        watchdog_notice(s, self_id, self_id, user, session_id) == Some(
            Event::GameOver { outcome: Outcome::Lose },
        ),
        watchdog_transition(
            watchdog_transition(s, self_id, self_id, user, session_id),
            self_id,
            self_id,
            user,
            session_id,
        ) == watchdog_transition(s, self_id, self_id, user, session_id),
        watchdog_notice(
            watchdog_transition(s, self_id, self_id, user, session_id),
            self_id,
            self_id,
            user,
            session_id,
        ) is None,
{
    let i = user_index(s.games, user);
    assert(0 <= i < s.games.len() && s.games[i].user == user);
    let t = watchdog_transition(s, self_id, self_id, user, session_id);
    assert(t.games[i].user == user);
    assert forall|a: int, b: int|
        0 <= a < t.games.len() && 0 <= b < t.games.len() && a != b implies #[trigger] t.games[a].user
        != #[trigger] t.games[b].user by {
        assert(s.games[a].user != s.games[b].user);
    }
    lemma_user_index_is(t.games, user, i);
}

/// A finished session is terminal under every action: no start, guess or
/// watchdog firing ever changes its record again.
pub proof fn lemma_finished_survives_actions(
    s: StoreModel,
    sender: ActorId,
    self_id: ActorId,
    action: Action,
)
    requires
        store_wf(s),
    ensures
        forall|i: int|
            0 <= i < s.games.len() && #[trigger] s.games[i].status is GameOver
                ==> handle_transition(s, sender, self_id, action).games[i] == s.games[i],
{
    match action {
        Action::StartGame => {
        },
        Action::CheckWord { .. } => {
        },
        Action::CheckGameStatus { user, .. } => {
            if has_user(s.games, user) {
                let j = user_index(s.games, user);
                assert(0 <= j < s.games.len() && s.games[j].user == user);
            }
        },
    }
}

/// A finished session is terminal under every oracle reply: a late `Begun`
/// or `Checked` for it changes no session record, tells the user nothing,
/// and wakes nobody.
pub proof fn lemma_finished_survives_replies(s: StoreModel, event: WordleEvent)
    requires
        store_wf(s),
    ensures
        forall|i: int|
            0 <= i < s.games.len() && #[trigger] s.games[i].status is GameOver
                ==> reply_transition(s, event).games[i] == s.games[i],
        has_user(s.games, event.spec_user()) && s.games[user_index(
            s.games,
            event.spec_user(),
        )].status is GameOver ==> {
            &&& reply_transition(s, event) == s
            &&& reply_notice(s, event) is None
            &&& !reply_wake(s, event)
        },
{
    let user = event.spec_user();
    if has_user(s.games, user) {
        let j = user_index(s.games, user);
        assert(0 <= j < s.games.len() && s.games[j].user == user);
    }
}

} // verus!
