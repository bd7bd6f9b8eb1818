//! A verified session coordinator for an asynchronous guessing game.
//!
//! One round runs per user against an external "oracle" service that owns the
//! secret word and evaluates guesses; the oracle is reachable only through
//! asynchronous request/reply messages that may arrive late or never. The
//! coordinator keeps at most one session per user, forwards user actions to
//! the oracle while suspending the caller, enforces an attempt cap and a
//! watchdog timeout, and reconciles late or duplicate events without ever
//! re-resolving a finished session.
//!
//! The library itself performs no I/O: each handler takes the current store
//! and an incoming action or reply, mutates the store, and returns a
//! description of the messages to send and of whether to suspend or resume
//! the caller. A thin host shell delivers those messages.

pub mod laws;
pub mod model;
pub mod protocol;
pub mod session;
