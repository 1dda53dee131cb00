//! The locker as the coordinator sees it: the worker that owns the display,
//! shows the saver and reads what the user types.

use vstd::prelude::*;

pub mod display;

verus! {

/// What the coordinator tells the locker to do.
#[derive(Debug, Clone, Copy, PartialEq, Eq, Structural)]
pub enum Request {
    /// Show the saver.
    Start,
    /// Take the saver down.
    Stop,
    /// Mark the session locked: activity no longer dismisses the saver.
    Lock,
    /// Show the result of an authentication attempt.
    Auth(bool),
    /// Reassert the display's screen-saver and power settings.
    Sanitize,
    /// Force the monitor on (`true`) or off (`false`).
    Power(bool),
    /// Behave as if the user had touched the keyboard.
    Activity,
}

/// What the locker reports to the coordinator.
#[derive(Debug, PartialEq, Eq)]
pub enum Response {
    /// The user produced input while the saver was visible.
    Activity,
    /// The user submitted a secret at the unlock prompt.
    Password(String),
}

} // verus!
