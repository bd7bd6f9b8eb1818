//! Message vocabulary of the coordinator: actor identities, user-facing
//! actions and events, oracle-facing requests and replies, and the effect
//! records that the handlers hand back to the host shell.

use vstd::prelude::*;

verus! {

/// Number of evaluated guesses after which an unfinished round is lost.
pub const MAX_ATTEMPTS: u8 = 6;

/// Scheduling delay, in scheduling units, between starting a session and the
/// watchdog firing against it.
pub const WATCHDOG_DELAY: u32 = 200;

/// Number of letter positions of a guess; a reply matching all of them wins.
pub const WORD_POSITIONS: u8 = 5;

/// An opaque 256-bit actor identity, held as four 64-bit words. The
/// coordinator only ever compares identities for equality.
#[derive(Clone, Copy, PartialEq, Eq, Structural, Debug)]
pub struct ActorId {
    pub w0: u64,
    pub w1: u64,
    pub w2: u64,
    pub w3: u64,
}

impl ActorId {
    /// A small identity, convenient for hosts that number their actors.
    pub fn from_u64(v: u64) -> (r: ActorId)
        ensures
            r == (ActorId { w0: v, w1: 0u64, w2: 0u64, w3: 0u64 }),
    {
        ActorId { w0: v, w1: 0, w2: 0, w3: 0 }
    }
}

/// Terminal result of a round.
#[derive(Clone, Copy, PartialEq, Eq, Structural, Debug)]
pub enum Outcome {
    Win,
    Lose,
}

/// Lifecycle of one session: from `NotStarted` via `InProgress` to
/// `GameOver(outcome)`. A finished session is terminal: no later action or
/// reply ever changes its record again.
#[derive(Clone, Copy, PartialEq, Eq, Structural, Debug)]
pub enum GameState {
    NotStarted,
    InProgress,
    GameOver(Outcome),
}

/// An inbound action. `CheckGameStatus` is the watchdog's self-addressed
/// message; the coordinator honours it only when the sender is itself.
#[derive(Clone, PartialEq, Eq, Debug)]
pub enum Action {
    StartGame,
    CheckWord { word: String },
    CheckGameStatus { user: ActorId, session_id: u64 },
}

/// An event delivered to the user whose request is being resolved.
#[derive(Clone, PartialEq, Eq, Debug)]
pub enum Event {
    GameStarted { user: ActorId },
    GameOver { outcome: Outcome },
    GameNotFound { user: ActorId },
    WordChecked { correct_positions: Vec<u8>, contained_in_word: Vec<u8> },
}

/// A request sent to the oracle.
#[derive(Clone, PartialEq, Eq, Debug)]
pub enum WordleAction {
    StartGame { user: ActorId },
    CheckWord { user: ActorId, word: String },
}

/// A reply received from the oracle.
#[derive(Clone, PartialEq, Eq, Debug)]
pub enum WordleEvent {
    GameStarted { user: ActorId },
    WordChecked { user: ActorId, correct_positions: Vec<u8>, contained_in_word: Vec<u8> },
}

impl WordleEvent {
    /// The user this reply is about.
    pub open spec fn spec_user(&self) -> ActorId {
        match *self {
            WordleEvent::GameStarted { user } => user,
            WordleEvent::WordChecked { user, .. } => user,
        }
    }

    /// The user this reply is about.
    pub fn get_user(&self) -> (r: &ActorId)
        ensures
            *r == self.spec_user(),
    {
        match self {
            WordleEvent::GameStarted { user } => user,
            WordleEvent::WordChecked { user, .. } => user,
        }
    }
}

/// A delayed self-addressed status check that the host shell must schedule.
#[derive(Clone, Copy, PartialEq, Eq, Structural, Debug)]
pub struct WatchdogSchedule {
    pub user: ActorId,
    pub session_id: u64,
    pub delay: u32,
}

/// What handling one action asks of the host shell: an optional oracle
/// request, an optional watchdog to schedule, an optional event resolving the
/// sender's request, and whether to suspend the caller.
pub struct HandleEffects {
    pub oracle: Option<WordleAction>,
    pub watchdog: Option<WatchdogSchedule>,
    pub notice: Option<Event>,
    pub wait: bool,
}

impl HandleEffects {
    /// The action was a no-op: nothing is sent and the caller is not suspended.
    pub open spec fn is_noop(&self) -> bool {
        &&& self.oracle is None
        &&& self.watchdog is None
        &&& self.notice is None
        &&& !self.wait
    }
}

/// What reconciling one oracle reply asks of the host shell: an optional
/// event for the waiting user, and whether to wake that user's suspended
/// request.
pub struct ReplyEffects {
    pub notice: Option<Event>,
    pub wake: bool,
}

} // verus!
