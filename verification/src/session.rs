//! The session store and its three verified handlers: one for inbound
//! actions, one for oracle replies, and one read-only snapshot. Each handler
//! promises that the store moves exactly as the corresponding transition
//! function of `model` says and that the returned effects are exactly the
//! ones the model prescribes.

use vstd::prelude::*;

use crate::model::{
    begun_transition, can_guess, checked_status, checked_transition, full_match,
    handle_transition, has_user, lemma_user_index_is, new_session, reply_notice, reply_transition,
    reply_wake, session_wf, set_status, start_transition, store_wf, users_distinct,
    watchdog_notice, watchdog_transition, SessionModel, StoreModel,
};
use crate::protocol::{
    Action, ActorId, Event, GameState, HandleEffects, Outcome, ReplyEffects, WatchdogSchedule,
    WordleAction, WordleEvent, MAX_ATTEMPTS, WATCHDOG_DELAY, WORD_POSITIONS,
};

verus! {

/// One user's session record.
#[derive(Debug)]
pub struct GameStatus {
    pub user: ActorId,
    pub word: Option<String>,
    pub attempts: u8,
    pub status: GameState,
    pub session_id: u64,
}

impl View for GameStatus {
    type V = SessionModel;

    open spec fn view(&self) -> SessionModel {
        SessionModel {
            user: self.user,
            word: match self.word {
                Some(w) => Some(w@),
                None => None,
            },
            attempts: self.attempts as int,
            status: self.status,
            session_id: self.session_id as int,
        }
    }
}

/// The session table, element by element, as the model sees it.
pub open spec fn games_view(games: Seq<GameStatus>) -> Seq<SessionModel> {
    Seq::new(games.len(), |i: int| games[i]@)
}

/// The coordinator's store: the oracle's address, one session per user, and
/// the strictly increasing session-id generator.
#[derive(Debug)]
pub struct GameSession {
    pub wordle_program: ActorId,
    pub games: Vec<GameStatus>,
    pub next_session_id: u64,
}

impl View for GameSession {
    type V = StoreModel;

    open spec fn view(&self) -> StoreModel {
        StoreModel {
            wordle_program: self.wordle_program,
            games: games_view(self.games@),
            next_session_id: self.next_session_id as int,
        }
    }
}

/// A faithful copy of an optional word.
fn clone_word(word: &Option<String>) -> (r: Option<String>)
    ensures
        r == *word,
{
    match word {
        Some(w) => Some(w.clone()),
        None => None,
    }
}

/// The index of `user`'s session in the table, if one exists.
fn find_user_index(games: &Vec<GameStatus>, user: ActorId) -> (r: Option<usize>)
    ensures
        match r {
            Some(i) => i < games.len() && games_view(games@)[i as int].user == user,
            None => !has_user(games_view(games@), user),
        },
{
    let mut k: usize = 0;
    while k < games.len()
        invariant
            k <= games.len(),
            forall|j: int| 0 <= j < k ==> #[trigger] games@[j].user != user,
        decreases games.len() - k,
    {
        if games[k].user == user {
            proof {
                assert(games_view(games@)[k as int] == games@[k as int]@);
            }
            return Some(k);
        }
        k += 1;
    }
    proof {
        assert forall|j: int| 0 <= j < games_view(games@).len() implies #[trigger] games_view(
            games@,
        )[j].user != user by {
            assert(games_view(games@)[j] == games@[j]@);
        }
    }
    None
}

/// Whether a checked reply matched every letter position.
fn is_full_match(correct: &Vec<u8>) -> (r: bool)
    ensures
        r == full_match(correct@),
{
    let ghost target = Seq::new(WORD_POSITIONS as nat, |i: int| i as u8);
    if correct.len() != WORD_POSITIONS as usize {
        proof {
            assert(correct@.len() != target.len());
        }
        return false;
    }
    let r = correct[0] == 0 && correct[1] == 1 && correct[2] == 2 && correct[3] == 3
        && correct[4] == 4;
    proof {
        if r {
            assert(correct@ =~= target);
        } else {
            assert(correct@ != target);
        }
    }
    r
}

impl GameSession {
    /// The store is well formed: users unique, ids drawn below the generator.
    pub open spec fn wf(&self) -> bool {
        store_wf(self@)
    }

    /// A fresh coordinator store pointing at the oracle, with no sessions and
    /// the id generator at one.
    pub fn new(wordle_program: ActorId) -> (r: GameSession)
        ensures
            r.wf(),
            r@.wordle_program == wordle_program,
            r@.games == Seq::<SessionModel>::empty(),
            r@.next_session_id == 1,
    {
        let r = GameSession { wordle_program, games: Vec::new(), next_session_id: 1 };
        proof {
            assert(r@.games =~= Seq::<SessionModel>::empty());
        }
        r
    }

    /// Handle one inbound action from `sender`. The store moves exactly as
    /// `handle_transition` says; the effects are: for an accepted start, the
    /// begin request, the watchdog under the fresh session's id and the fixed
    /// delay, and a suspended caller; for an accepted guess, the check
    /// request and a suspended caller; for a watchdog firing, exactly the
    /// notice `watchdog_notice` prescribes; for everything else, a no-op.
    pub fn handle(&mut self, sender: ActorId, self_id: ActorId, action: Action) -> (r:
        HandleEffects)
        requires
            old(self).wf(),
            action is StartGame && !has_user(old(self)@.games, sender) ==> old(
                self,
            ).next_session_id < u64::MAX,
        ensures
            final(self).wf(),
            final(self)@ == handle_transition(old(self)@, sender, self_id, action),
            match action {
                Action::StartGame => if has_user(old(self)@.games, sender) {
                    r.is_noop()
                } else {
                    &&& r.oracle == Some(WordleAction::StartGame { user: sender })
                    &&& r.watchdog == (Some(
                        WatchdogSchedule {
                            user: sender,
                            session_id: old(self).next_session_id,
                            delay: WATCHDOG_DELAY,
                        },
                    ))
                    &&& r.notice is None
                    &&& r.wait
                },
                Action::CheckWord { word } => if can_guess(old(self)@, sender) {
                    &&& r.oracle == Some(WordleAction::CheckWord { user: sender, word })
                    &&& r.watchdog is None
                    &&& r.notice is None
                    &&& r.wait
                } else {
                    r.is_noop()
                },
                Action::CheckGameStatus { user, session_id } => {
                    &&& r.oracle is None
                    &&& r.watchdog is None
                    &&& r.notice == watchdog_notice(old(self)@, sender, self_id, user, session_id)
                    &&& !r.wait
                },
            },
    {
        match action {
            Action::StartGame => self.start_game(sender),
            Action::CheckWord { word } => self.check_word(sender, word),
            Action::CheckGameStatus { user, session_id } => self.check_game_status(
                sender,
                self_id,
                user,
                session_id,
            ),
        }
    }

    /// Create a session for `sender` unless one already exists.
    fn start_game(&mut self, sender: ActorId) -> (r: HandleEffects)
        requires
            old(self).wf(),
            !has_user(old(self)@.games, sender) ==> old(self).next_session_id < u64::MAX,
        ensures
            final(self).wf(),
            final(self)@ == start_transition(old(self)@, sender),
            if has_user(old(self)@.games, sender) {
                r.is_noop()
            } else {
                &&& r.oracle == Some(WordleAction::StartGame { user: sender })
                &&& r.watchdog == (Some(
                    WatchdogSchedule {
                        user: sender,
                        session_id: old(self).next_session_id,
                        delay: WATCHDOG_DELAY,
                    },
                ))
                &&& r.notice is None
                &&& r.wait
            },
    {
        match find_user_index(&self.games, sender) {
            Some(i) => {
                proof {
                    lemma_user_index_is(self@.games, sender, i as int);
                }
                HandleEffects { oracle: None, watchdog: None, notice: None, wait: false }
            },
            None => {
                let session_id = self.next_session_id;
                self.next_session_id = self.next_session_id + 1;
                self.games.push(
                    GameStatus {
                        user: sender,
                        word: None,
                        attempts: 0,
                        status: GameState::NotStarted,
                        session_id,
                    },
                );
                proof {
                    let prev = old(self)@;
                    assert(self@.games =~= prev.games.push(
                        new_session(sender, prev.next_session_id),
                    )) by {
                        assert forall|j: int|
                            0 <= j < self@.games.len() implies #[trigger] self@.games[j]
                            == prev.games.push(new_session(sender, prev.next_session_id))[j] by {
                            assert(self@.games[j] == self.games@[j]@);
                            if j < prev.games.len() {
                                assert(prev.games[j] == old(self).games@[j]@);
                            }
                        }
                    }
                    assert(self@ =~= start_transition(prev, sender));
                    assert(users_distinct(self@.games)) by {
                        assert forall|a: int, b: int|
                            0 <= a < self@.games.len() && 0 <= b < self@.games.len() && a
                            != b implies #[trigger] self@.games[a].user != #[trigger] self@.games[b].user by {
                            if a < prev.games.len() && b < prev.games.len() {
                                assert(prev.games[a].user != prev.games[b].user);
                            } else if a < prev.games.len() {
                                assert(!has_user(prev.games, sender));
                            } else {
                                assert(!has_user(prev.games, sender));
                            }
                        }
                    }
                }
                HandleEffects {
                    oracle: Some(WordleAction::StartGame { user: sender }),
                    watchdog: Some(
                        WatchdogSchedule { user: sender, session_id, delay: WATCHDOG_DELAY },
                    ),
                    notice: None,
                    wait: true,
                }
            },
        }
    }

    /// Forward a guess for a session in progress; drop it silently otherwise.
    fn check_word(&mut self, sender: ActorId, word: String) -> (r: HandleEffects)
        requires
            old(self).wf(),
        ensures
            final(self).wf(),
            final(self)@ == old(self)@,
            if can_guess(old(self)@, sender) {
                &&& r.oracle == Some(WordleAction::CheckWord { user: sender, word })
                &&& r.watchdog is None
                &&& r.notice is None
                &&& r.wait
            } else {
                r.is_noop()
            },
    {
        match find_user_index(&self.games, sender) {
            Some(i) => {
                proof {
                    lemma_user_index_is(self@.games, sender, i as int);
                    assert(self@.games[i as int] == self.games@[i as int]@);
                }
                match self.games[i].status {
                    GameState::InProgress => HandleEffects {
                        oracle: Some(WordleAction::CheckWord { user: sender, word }),
                        watchdog: None,
                        notice: None,
                        wait: true,
                    },
                    _ => HandleEffects { oracle: None, watchdog: None, notice: None, wait: false },
                }
            },
            None => HandleEffects { oracle: None, watchdog: None, notice: None, wait: false },
        }
    }

    /// Reconcile a watchdog firing with the stored session.
    fn check_game_status(
        &mut self,
        sender: ActorId,
        self_id: ActorId,
        user: ActorId,
        session_id: u64,
    ) -> (r: HandleEffects)
        requires
            old(self).wf(),
        ensures
            final(self).wf(),
            final(self)@ == watchdog_transition(old(self)@, sender, self_id, user, session_id),
            r.oracle is None,
            r.watchdog is None,
            r.notice == watchdog_notice(old(self)@, sender, self_id, user, session_id),
            !r.wait,
    {
        if sender != self_id {
            return HandleEffects { oracle: None, watchdog: None, notice: None, wait: false };
        }
        match find_user_index(&self.games, user) {
            Some(i) => {
                proof {
                    lemma_user_index_is(self@.games, user, i as int);
                    assert(self@.games[i as int] == self.games@[i as int]@);
                }
                if self.games[i].session_id != session_id {
                    return HandleEffects {
                        oracle: None,
                        watchdog: None,
                        notice: None,
                        wait: false,
                    };
                }
                match self.games[i].status {
                    GameState::NotStarted => HandleEffects {
                        oracle: None,
                        watchdog: None,
                        notice: Some(Event::GameNotFound { user }),
                        wait: false,
                    },
                    GameState::InProgress => {
                        self.set_session_status(i, GameState::GameOver(Outcome::Lose));
                        proof {
                            let prev = old(self)@;
                            assert(self@ =~= watchdog_transition(
                                prev,
                                sender,
                                self_id,
                                user,
                                session_id,
                            ));
                        }
                        HandleEffects {
                            oracle: None,
                            watchdog: None,
                            notice: Some(Event::GameOver { outcome: Outcome::Lose }),
                            wait: false,
                        }
                    },
                    GameState::GameOver(_) => HandleEffects {
                        oracle: None,
                        watchdog: None,
                        notice: None,
                        wait: false,
                    },
                }
            },
            None => HandleEffects { oracle: None, watchdog: None, notice: None, wait: false },
        }
    }

    /// Replace the status of the session at `i`, leaving every other field
    /// and every other session as it was. The new status must fit the
    /// session's attempt count.
    fn set_session_status(&mut self, i: usize, status: GameState)
        requires
            old(self).wf(),
            i < old(self).games.len(),
            session_wf(SessionModel { status, ..old(self)@.games[i as int] }),
        ensures
            final(self).wf(),
            final(self)@ == (StoreModel {
                games: set_status(old(self)@.games, i as int, status),
                ..old(self)@
            }),
    {
        let g = &self.games[i];
        let updated = GameStatus {
            user: g.user,
            word: clone_word(&g.word),
            attempts: g.attempts,
            status,
            session_id: g.session_id,
        };
        self.games[i] = updated;
        proof {
            let prev = old(self)@;
            assert(self@.games =~= set_status(prev.games, i as int, status)) by {
                assert forall|j: int|
                    0 <= j < self@.games.len() implies #[trigger] self@.games[j] == set_status(
                    prev.games,
                    i as int,
                    status,
                )[j] by {
                    assert(self@.games[j] == self.games@[j]@);
                    assert(prev.games[j] == old(self).games@[j]@);
                }
            }
            assert(users_distinct(self@.games)) by {
                assert forall|a: int, b: int|
                    0 <= a < self@.games.len() && 0 <= b < self@.games.len() && a
                    != b implies #[trigger] self@.games[a].user != #[trigger] self@.games[b].user by {
                    assert(prev.games[a].user != prev.games[b].user);
                }
            }
            assert forall|j: int| 0 <= j < self@.games.len() implies session_wf(
                #[trigger] self@.games[j],
            ) by {
                if j != i as int {
                    assert(self@.games[j] == prev.games[j]);
                }
            }
        }
    }

    /// Reconcile one oracle reply. The store moves exactly as
    /// `reply_transition` says; the notice and the wake flag are exactly the
    /// ones `reply_notice` and `reply_wake` prescribe. A finished session is
    /// terminal: a late reply of either kind leaves it untouched and
    /// resolves nobody.
    pub fn handle_reply(&mut self, event: WordleEvent) -> (r: ReplyEffects)
        requires
            old(self).wf(),
        ensures
            final(self).wf(),
            final(self)@ == reply_transition(old(self)@, event),
            r.notice == reply_notice(old(self)@, event),
            r.wake == reply_wake(old(self)@, event),
    {
        match event {
            WordleEvent::GameStarted { user } => {
                match find_user_index(&self.games, user) {
                    Some(i) => {
                        proof {
                            lemma_user_index_is(self@.games, user, i as int);
                            assert(self@.games[i as int] == self.games@[i as int]@);
                        }
                        match self.games[i].status {
                            GameState::GameOver(_) => ReplyEffects { notice: None, wake: false },
                            _ => {
                                self.set_session_status(i, GameState::InProgress);
                                proof {
                                    assert(self@ =~= begun_transition(old(self)@, user));
                                }
                                ReplyEffects {
                                    notice: Some(Event::GameStarted { user }),
                                    wake: true,
                                }
                            },
                        }
                    },
                    None => ReplyEffects { notice: None, wake: false },
                }
            },
            WordleEvent::WordChecked { user, correct_positions, contained_in_word } => {
                match find_user_index(&self.games, user) {
                    Some(i) => {
                        proof {
                            lemma_user_index_is(self@.games, user, i as int);
                            assert(self@.games[i as int] == self.games@[i as int]@);
                        }
                        if matches!(self.games[i].status, GameState::GameOver(_)) {
                            return ReplyEffects { notice: None, wake: false };
                        }
                        let win = is_full_match(&correct_positions);
                        let g = &self.games[i];
                        let new_attempts = g.attempts + 1;
                        let new_status = if win {
                            GameState::GameOver(Outcome::Win)
                        } else if new_attempts >= MAX_ATTEMPTS {
                            GameState::GameOver(Outcome::Lose)
                        } else {
                            GameState::InProgress
                        };
                        let updated = GameStatus {
                            user: g.user,
                            word: clone_word(&g.word),
                            attempts: new_attempts,
                            status: new_status,
                            session_id: g.session_id,
                        };
                        self.games[i] = updated;
                        proof {
                            let prev = old(self)@;
                            assert(new_status == checked_status(
                                prev.games[i as int].attempts + 1,
                                correct_positions@,
                            ));
                            assert(self@.games =~= checked_transition(
                                prev,
                                user,
                                correct_positions@,
                            ).games) by {
                                assert forall|j: int|
                                    0 <= j < self@.games.len() implies #[trigger] self@.games[j]
                                    == checked_transition(prev, user, correct_positions@).games[j] by {
                                    assert(self@.games[j] == self.games@[j]@);
                                    assert(prev.games[j] == old(self).games@[j]@);
                                }
                            }
                            assert(self@ =~= checked_transition(prev, user, correct_positions@));
                            assert(users_distinct(self@.games)) by {
                                assert forall|a: int, b: int|
                                    0 <= a < self@.games.len() && 0 <= b < self@.games.len() && a
                                    != b implies #[trigger] self@.games[a].user
                                    != #[trigger] self@.games[b].user by {
                                    assert(prev.games[a].user != prev.games[b].user);
                                }
                            }
                            assert forall|j: int| 0 <= j < self@.games.len() implies session_wf(
                                #[trigger] self@.games[j],
                            ) by {
                                if j != i as int {
                                    assert(self@.games[j] == prev.games[j]);
                                }
                            }
                        }
                        let notice = if win {
                            Some(Event::GameOver { outcome: Outcome::Win })
                        } else if new_attempts >= MAX_ATTEMPTS {
                            Some(Event::GameOver { outcome: Outcome::Lose })
                        } else {
                            Some(Event::WordChecked { correct_positions, contained_in_word })
                        };
                        ReplyEffects { notice, wake: true }
                    },
                    None => ReplyEffects { notice: None, wake: false },
                }
            },
        }
    }

    /// A faithful copy of the store, for diagnostics and state queries; the
    /// store itself is left untouched.
    pub fn snapshot(&self) -> (r: GameSession)
        ensures
            r@ == self@,
    {
        let mut games: Vec<GameStatus> = Vec::new();
        let mut k: usize = 0;
        while k < self.games.len()
            invariant
                k <= self.games.len(),
                games@.len() == k as int,
                forall|j: int| 0 <= j < k ==> #[trigger] games@[j]@ == self.games@[j]@,
            decreases self.games.len() - k,
        {
            let g = &self.games[k];
            games.push(
                GameStatus {
                    user: g.user,
                    word: clone_word(&g.word),
                    attempts: g.attempts,
                    status: g.status,
                    session_id: g.session_id,
                },
            );
            k += 1;
        }
        let r = GameSession {
            wordle_program: self.wordle_program,
            games,
            next_session_id: self.next_session_id,
        };
        proof {
            assert(r@.games =~= self@.games) by {
                assert forall|j: int|
                    0 <= j < r@.games.len() implies #[trigger] r@.games[j] == self@.games[j] by {
                    assert(r@.games[j] == r.games@[j]@);
                    assert(self@.games[j] == self.games@[j]@);
                }
            }
            assert(r@ =~= self@);
        }
        r
    }
}

} // verus!
