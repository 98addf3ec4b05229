//! Lock-state watcher: the decision logic of a session-bus screen-lock
//! monitor.
//!
//! A desktop screensaver announces lock-state transitions as `ActiveChanged`
//! signals on the session message bus. This crate holds everything about
//! that protocol that can be decided without touching the bus: the table of
//! known screensaver services, the match rules to subscribe with, the
//! fail-fast subscription sequence, the signal-forwarding loop, and the
//! availability probe. Each is a pure function or a step machine with a
//! verified contract; an unverified shell performs the bus calls and feeds
//! their outcomes back in.

pub mod forward;
pub mod probe;
pub mod services;
pub mod setup;
