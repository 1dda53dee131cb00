//! The command line's requests to a running daemon: for each action, the
//! method to call on the bus, its arguments, and whether to wait for a
//! reply.

use crate::server::dispatch::{Interface, Method};
use vstd::prelude::*;

verus! {

/// Milliseconds that the command line waits for a reply that it needs.
pub const REPLY_TIMEOUT: i32 = 5_000;

/// What the command line can ask of a running daemon.
#[derive(Debug, Clone, Copy, PartialEq, Eq, Structural)]
pub enum Action {
    /// Lock the screen.
    Lock,
    /// Show the saver.
    Activate,
    /// Take the saver down as if the user had done something.
    Deactivate,
    /// Hold the saver off until the cookie is given back.
    Inhibit,
    /// Give back the cookie of an earlier `Inhibit`.
    UnInhibit(u32),
    /// Ask the saver to spare resources until the cookie is given back.
    Throttle,
    /// Give back the cookie of an earlier `Throttle`.
    UnThrottle(u32),
}

/// The arguments of a method call.
#[derive(Debug, Clone, Copy, PartialEq, Eq)]
pub enum Arguments {
    /// None.
    Nothing,
    /// Whether the saver is to be active.
    Active(bool),
    /// A cookie to give back.
    Cookie(u32),
    /// Who asks, and why.
    Origin { application: &'static str, reason: &'static str },
}

/// A method call to send to the daemon.
#[derive(Debug, Clone, Copy, PartialEq, Eq)]
pub struct Outgoing {
    /// The interface to call; its name is also the destination and its
    /// path the object.
    pub interface: Interface,
    pub method: Method,
    pub arguments: Arguments,
    /// How long to wait for the reply, in milliseconds; `None` to send
    /// without waiting.
    pub wait: Option<i32>,
}

/// The name under which the command line asks.
pub open spec fn application_name() -> Seq<char> {
    "screenruster"@
}

/// The reason that the command line gives.
pub open spec fn stated_reason() -> Seq<char> {
    "requested by user"@
}

/// The method that carries an action.
pub open spec fn method_for(action: Action) -> Method {
    match action {
        Action::Lock => Method::Lock,
        Action::Activate => Method::SetActive,
        Action::Deactivate => Method::SimulateUserActivity,
        Action::Inhibit => Method::Inhibit,
        Action::UnInhibit(_) => Method::UnInhibit,
        Action::Throttle => Method::Throttle,
        Action::UnThrottle(_) => Method::UnThrottle,
    }
}

/// Whether `arguments` are the arguments that carry `action`.
pub open spec fn carries(arguments: Arguments, action: Action) -> bool {
    match action {
        Action::Lock | Action::Deactivate => arguments == Arguments::Nothing,
        Action::Activate => arguments == Arguments::Active(true),
        Action::Inhibit | Action::Throttle => {
            &&& arguments matches Arguments::Origin { application, reason }
            &&& application@ == application_name()
            &&& reason@ == stated_reason()
        },
        Action::UnInhibit(cookie) | Action::UnThrottle(cookie) => arguments == Arguments::Cookie(
            cookie,
        ),
    }
}

/// Whether an action's reply is waited for: those that are answered with a
/// cookie.
pub open spec fn waits(action: Action) -> bool {
    action == Action::Inhibit || action == Action::Throttle
}

/// The method call that carries `action` to the daemon. Every action goes
/// to the interface that generic clients speak.
pub fn message(action: Action) -> (outgoing: Outgoing)
    ensures
        outgoing.interface == Interface::Compat,
        outgoing.method == method_for(action),
        carries(outgoing.arguments, action),
        outgoing.wait == if waits(action) {
            Some(REPLY_TIMEOUT)
        } else {
            None
        },
{
    let (method, arguments, wait) = match action {
        Action::Lock => (Method::Lock, Arguments::Nothing, None),
        Action::Activate => (Method::SetActive, Arguments::Active(true), None),
        Action::Deactivate => (Method::SimulateUserActivity, Arguments::Nothing, None),
        Action::Inhibit => (
            Method::Inhibit,
            Arguments::Origin { application: "screenruster", reason: "requested by user" },
            Some(REPLY_TIMEOUT),
        ),
        Action::UnInhibit(cookie) => (Method::UnInhibit, Arguments::Cookie(cookie), None),
        Action::Throttle => (
            Method::Throttle,
            Arguments::Origin { application: "screenruster", reason: "requested by user" },
            Some(REPLY_TIMEOUT),
        ),
        Action::UnThrottle(cookie) => (Method::UnThrottle, Arguments::Cookie(cookie), None),
    };
    Outgoing { interface: Interface::Compat, method, arguments, wait }
}

} // verus!
