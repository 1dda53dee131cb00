//! The bus server as the coordinator sees it: the requests that bus clients
//! make, the responses that some of them wait for, the signals broadcast on
//! the bus, and the handle through which responses and signals leave.

use std::sync::mpsc::{Receiver, SendError, Sender};
use std::time::SystemTime;
use vstd::prelude::*;

pub mod dispatch;

verus! {

/// `std::time::SystemTime`, carried through and never looked into.
#[verifier::external_type_specification]
#[verifier::external_body]
pub struct ExSystemTime(SystemTime);

/// `std::sync::mpsc::Sender`, carried through and never looked into.
#[verifier::external_type_specification]
#[verifier::external_body]
#[verifier::reject_recursive_types(T)]
pub struct ExSender<T>(Sender<T>);

/// `std::sync::mpsc::Receiver`, carried through and never looked into.
#[verifier::external_type_specification]
#[verifier::external_body]
#[verifier::reject_recursive_types(T)]
pub struct ExReceiver<T>(Receiver<T>);

/// `std::sync::mpsc::SendError`, whose one public field is the message that
/// could not be sent.
#[verifier::external_type_specification]
#[verifier::reject_recursive_types(T)]
pub struct ExSendError<T>(SendError<T>);

/// `Sender::send` never blocks. Whether it succeeds depends on the other end
/// of the channel; when it fails, the error hands the message back.
pub assume_specification<T>[ Sender::<T>::send ](sender: &Sender<T>, message: T) -> (sent: Result<
    (),
    SendError<T>,
>)
    ensures
        sent matches Err(refused) ==> refused.0 == message,
;

/// What a bus client asks of the daemon.
#[derive(Debug, PartialEq, Eq)]
pub enum Request {
    /// Lock the screen.
    Lock,
    /// Cycle the saver.
    Cycle,
    /// Simulate user activity.
    SimulateUserActivity,
    /// Inhibit the starting of screen saving.
    Inhibit { application: String, reason: String },
    /// Remove a previous Inhibit.
    UnInhibit(u32),
    /// Throttle the resource usage of the screen saving.
    Throttle { application: String, reason: String },
    /// Remove a previous Throttle.
    UnThrottle(u32),
    /// Suspend any screen saver activity.
    Suspend { application: String, reason: String },
    /// Remove a previous Suspend.
    Resume(u32),
    /// Change the active status of the screen saver.
    SetActive(bool),
    /// Get the active status of the screen saver.
    GetActive,
    /// Get how many seconds the screen saver has been active.
    GetActiveTime,
    /// Get the idle status of the session.
    GetSessionIdle,
    /// Get how many seconds the session has been idle.
    GetSessionIdleTime,
    /// The system is preparing for sleep (with the time of the notice) or
    /// coming out of sleep (without).
    PrepareForSleep(Option<SystemTime>),
}

/// What the daemon answers to a request that waits for data.
#[derive(Debug, Clone, Copy, PartialEq, Eq, Structural)]
pub enum Response {
    Inhibit(u32),
    Throttle(u32),
    Suspend(u32),
    Active(bool),
    ActiveTime(u64),
    SessionIdle(bool),
    SessionIdleTime(u64),
}

/// What the daemon broadcasts on the bus.
#[derive(Debug, Clone, Copy, PartialEq, Eq, Structural)]
pub enum Signal {
    /// The saver was shown (`true`) or taken down (`false`).
    Active(bool),
    /// The session became idle (`true`) or busy (`false`).
    SessionIdle(bool),
    /// An authentication attempt began (`true`) or ended (`false`).
    AuthenticationRequest(bool),
}

/// The coordinator's end of the bus server: requests come in through it,
/// responses and signals go out.
pub struct Server {
    receiver: Receiver<Request>,
    sender: Sender<Response>,
    signals: Sender<Signal>,
}

impl Server {
    /// The channel end on which requests arrive.
    pub closed spec fn requests(&self) -> Receiver<Request> {
        self.receiver
    }

    /// The channel end through which responses leave.
    pub closed spec fn responses(&self) -> Sender<Response> {
        self.sender
    }

    /// The channel end through which signals leave.
    pub closed spec fn broadcasts(&self) -> Sender<Signal> {
        self.signals
    }

    /// A handle over the three channel ends that connect the coordinator to
    /// the bus threads.
    pub fn new(receiver: Receiver<Request>, sender: Sender<Response>, signals: Sender<Signal>) -> (server:
        Server)
        ensures
            server.requests() == receiver,
            server.responses() == sender,
            server.broadcasts() == signals,
    {
        Server { receiver, sender, signals }
    }

    /// The channel end on which requests arrive.
    pub fn receiver(&self) -> (receiver: &Receiver<Request>)
        ensures
            *receiver == self.requests(),
    {
        &self.receiver
    }

    /// Hands `value` to the bus thread that waits for it. Fails only when
    /// that thread is gone, and then gives `value` back.
    pub fn response(&self, value: Response) -> (sent: Result<(), SendError<Response>>)
        ensures
            sent matches Err(refused) ==> refused.0 == value,
    {
        self.sender.send(value)
    }

    /// Queues `value` for broadcast on the bus. Fails only when the bus
    /// thread is gone, and then gives `value` back.
    pub fn signal(&self, value: Signal) -> (sent: Result<(), SendError<Signal>>)
        ensures
            sent matches Err(refused) ==> refused.0 == value,
    {
        self.signals.send(value)
    }
}

} // verus!
