//! The coordinator: the one owner of the session's state.
//!
//! Four workers talk to the coordinator: the locker, the authenticator, the
//! bus server and the timer. Each message is one [`Input`]; the coordinator
//! answers it with a new [`SessionState`] and a list of [`Command`]s for the
//! workers, in the order in which they are to be sent. [`outcome`] says, as a
//! function, what that state and that list are; [`Coordinator::handle`]
//! computes them.
//!
//! The saver is hidden, shown, or shown and locked. Blanking (the monitor
//! powered down) is a flag of its own beside these. The laws that the
//! transitions obey are proved in [`crate::laws`].

use crate::auth;
use crate::clock::{later_of, seconds_between, Moment};
use crate::cookies::{has_room, CookieJar};
use crate::locker;
use crate::server::{Request, Response, Signal};
use crate::timer;
use crate::timer::{Report, TimerEvent};
use vstd::prelude::*;

verus! {

/// Seconds during which the saver, once shown, is not dismissed by activity:
/// an event that raced with the start must not tear it down again.
pub const ACTIVATION_GRACE: u64 = 1;

/// Seconds without activity after which the session counts as idle.
pub const SESSION_IDLE_AFTER: u64 = 5;

/// The id under which the timer is asked for the saver's active time.
pub const GET_ACTIVE_TIME: u64 = 1;

/// The id under which the timer is asked whether the session is idle.
pub const GET_SESSION_IDLE: u64 = 2;

/// The id under which the timer is asked for the session's idle time.
pub const GET_SESSION_IDLE_TIME: u64 = 3;

/// A message from one of the four workers.
#[derive(Debug, PartialEq, Eq)]
pub enum Input {
    Locker(locker::Response),
    Auth(auth::Response),
    Server(Request),
    Timer(timer::Response),
}

/// A message to one of the workers.
#[derive(Debug, PartialEq, Eq)]
pub enum Command {
    /// For the locker.
    Locker(locker::Request),
    /// For the authenticator.
    Auth(auth::Request),
    /// For the timer.
    Timer(timer::Request),
    /// For the bus client whose request waits for data.
    Respond(Response),
    /// For broadcast on the bus.
    Signal(Signal),
}

/// The session's state.
#[verifier::ext_equal]
pub struct SessionState {
    /// Whether the display can power the monitor down and up.
    pub dpms: bool,
    /// When the saver was shown, while it is shown.
    pub started_at: Option<Moment>,
    /// When the session was locked, while it is locked.
    pub locked_at: Option<Moment>,
    /// When the monitor was powered down, while it is down.
    pub blanked_at: Option<Moment>,
    /// The cookies of the clients that hold the saver off.
    pub inhibitors: Set<u32>,
    /// The cookies of the clients that ask the saver to spare resources.
    pub throttlers: Set<u32>,
    /// The cookies of the clients that hold a suspension.
    pub suspenders: Set<u32>,
}

/// The answer to one input: the state afterwards and the commands to send.
#[verifier::ext_equal]
pub struct Outcome {
    pub state: SessionState,
    pub commands: Seq<Command>,
}

/// What holds of the session's state at all times: a session is locked only
/// while the saver is shown, and not before it was shown; the monitor is
/// down only on a display that can power it.
pub open spec fn consistent(s: SessionState) -> bool {
    &&& s.locked_at is Some ==> s.started_at is Some
    &&& s.locked_at matches Some(locked) ==> (s.started_at matches Some(started)
        ==> locked.nanos >= started.nanos)
    &&& s.blanked_at is Some ==> s.dpms
}

/// The state of a session that has just begun.
pub open spec fn initial(dpms: bool) -> SessionState {
    SessionState {
        dpms,
        started_at: None,
        locked_at: None,
        blanked_at: None,
        inhibitors: Set::empty(),
        throttlers: Set::empty(),
        suspenders: Set::empty(),
    }
}

/// Nothing changes and nothing is sent.
pub open spec fn unchanged(s: SessionState) -> Outcome {
    Outcome { state: s, commands: seq![] }
}

/// The saver is shown, unless it is shown already.
pub open spec fn shown(s: SessionState, now: Moment) -> Outcome {
    if s.started_at is None {
        Outcome {
            state: SessionState { started_at: Some(now), ..s },
            commands: seq![
                Command::Locker(locker::Request::Start),
                Command::Signal(Signal::Active(true)),
            ],
        }
    } else {
        unchanged(s)
    }
}

/// The session is locked, if the saver is shown and it is not locked yet.
pub open spec fn locked(s: SessionState, now: Moment) -> Outcome {
    match s.started_at {
        Some(started) if s.locked_at is None => Outcome {
            state: SessionState { locked_at: Some(later_of(now, started)), ..s },
            commands: seq![Command::Locker(locker::Request::Lock)],
        },
        _ => unchanged(s),
    }
}

/// The saver is shown if need be, then the session is locked if need be:
/// what a client's `Lock` and the notice of an imminent sleep bring about,
/// whoever holds an inhibition.
pub open spec fn forced_lock(s: SessionState, now: Moment) -> Outcome {
    let first = shown(s, now);
    let second = locked(first.state, now);
    Outcome { state: second.state, commands: first.commands + second.commands }
}

/// The saver is taken down, if it is shown and the session is not locked.
pub open spec fn dismissed(s: SessionState) -> Outcome {
    if s.started_at is Some && s.locked_at is None {
        Outcome {
            state: SessionState { started_at: None, ..s },
            commands: seq![
                Command::Locker(locker::Request::Stop),
                Command::Signal(Signal::Active(false)),
            ],
        }
    } else {
        unchanged(s)
    }
}

/// Whether activity at `now` dismisses the saver: it is shown, the session
/// is not locked, and the grace period since it was shown is over.
pub open spec fn dismisses(s: SessionState, now: Moment) -> bool {
    &&& s.started_at matches Some(started)
    &&& s.locked_at is None
    &&& seconds_between(started, now) >= ACTIVATION_GRACE
}

/// The user did something. The blank deadline starts over and a monitor
/// that was powered down comes back; then either the saver is dismissed or
/// the idle period starts over.
pub open spec fn on_activity(s: SessionState, now: Moment) -> Outcome {
    let wake = if s.blanked_at is Some {
        seq![Command::Locker(locker::Request::Power(true))]
    } else {
        seq![]
    };
    let awake = SessionState { blanked_at: None, ..s };
    let rest = if dismisses(s, now) {
        dismissed(awake)
    } else {
        Outcome {
            state: awake,
            commands: seq![Command::Timer(timer::Request::Reset(TimerEvent::Idle))],
        }
    };
    Outcome {
        state: rest.state,
        commands: seq![Command::Timer(timer::Request::Reset(TimerEvent::Blank))] + wake
            + rest.commands,
    }
}

/// The answer to a message from the locker.
pub open spec fn on_locker(s: SessionState, event: locker::Response, now: Moment) -> Outcome {
    match event {
        locker::Response::Password(secret) => Outcome {
            state: s,
            commands: seq![
                Command::Auth(auth::Request::Authenticate(secret)),
                Command::Signal(Signal::AuthenticationRequest(true)),
            ],
        },
        locker::Response::Activity => on_activity(s, now),
    }
}

/// The answer to a message from the authenticator. Success unlocks and
/// takes the saver down; failure changes nothing.
pub open spec fn on_auth(s: SessionState, verdict: auth::Response) -> Outcome {
    match verdict {
        auth::Response::Success => Outcome {
            state: SessionState { locked_at: None, started_at: None, ..s },
            commands: seq![
                Command::Locker(locker::Request::Auth(true)),
                Command::Locker(locker::Request::Stop),
                Command::Timer(timer::Request::Restart),
                Command::Signal(Signal::AuthenticationRequest(false)),
                Command::Signal(Signal::Active(false)),
            ],
        },
        auth::Response::Failure => Outcome {
            state: s,
            commands: seq![
                Command::Locker(locker::Request::Auth(false)),
                Command::Signal(Signal::AuthenticationRequest(false)),
            ],
        },
    }
}

/// The system came out of sleep: the idle and blank deadlines start over
/// and a monitor that was powered down comes back.
pub open spec fn woken(s: SessionState) -> Outcome {
    let wake = if s.blanked_at is Some {
        seq![Command::Locker(locker::Request::Power(true))]
    } else {
        seq![]
    };
    Outcome {
        state: SessionState { blanked_at: None, ..s },
        commands: seq![
            Command::Timer(timer::Request::Reset(TimerEvent::Idle)),
            Command::Timer(timer::Request::Reset(TimerEvent::Blank)),
        ] + wake,
    }
}

/// The cookies among which a request's new cookie must not be, for the
/// requests that are answered with a new cookie.
pub open spec fn held_for(s: SessionState, request: Request) -> Option<Set<u32>> {
    match request {
        Request::Inhibit { .. } => Some(s.inhibitors),
        Request::Throttle { .. } => Some(s.throttlers),
        Request::Suspend { .. } => Some(s.suspenders),
        _ => None,
    }
}

/// The answer to a request from the bus. `cookie` is the cookie to issue;
/// only `Inhibit`, `Throttle` and `Suspend` look at it.
pub open spec fn on_request(s: SessionState, request: Request, now: Moment, cookie: u32) -> Outcome {
    match request {
        Request::Lock => forced_lock(s, now),
        Request::Cycle => unchanged(s),
        Request::SimulateUserActivity => Outcome {
            state: s,
            commands: seq![Command::Locker(locker::Request::Activity)],
        },
        Request::Inhibit { .. } => Outcome {
            state: SessionState { inhibitors: s.inhibitors.insert(cookie), ..s },
            commands: seq![Command::Respond(Response::Inhibit(cookie))],
        },
        Request::UnInhibit(held) => Outcome {
            state: SessionState { inhibitors: s.inhibitors.remove(held), ..s },
            commands: seq![],
        },
        Request::Throttle { .. } => Outcome {
            state: SessionState { throttlers: s.throttlers.insert(cookie), ..s },
            commands: seq![Command::Respond(Response::Throttle(cookie))],
        },
        Request::UnThrottle(held) => Outcome {
            state: SessionState { throttlers: s.throttlers.remove(held), ..s },
            commands: seq![],
        },
        Request::Suspend { .. } => Outcome {
            state: SessionState { suspenders: s.suspenders.insert(cookie), ..s },
            commands: seq![Command::Respond(Response::Suspend(cookie))],
        },
        Request::Resume(held) => Outcome {
            state: SessionState { suspenders: s.suspenders.remove(held), ..s },
            commands: seq![],
        },
        Request::SetActive(active) => if active {
            shown(s, now)
        } else {
            dismissed(s)
        },
        Request::GetActive => Outcome {
            state: s,
            commands: seq![Command::Respond(Response::Active(s.started_at is Some))],
        },
        Request::GetActiveTime => Outcome {
            state: s,
            commands: seq![Command::Timer(timer::Request::Report(GET_ACTIVE_TIME))],
        },
        Request::GetSessionIdle => Outcome {
            state: s,
            commands: seq![Command::Timer(timer::Request::Report(GET_SESSION_IDLE))],
        },
        Request::GetSessionIdleTime => Outcome {
            state: s,
            commands: seq![Command::Timer(timer::Request::Report(GET_SESSION_IDLE_TIME))],
        },
        Request::PrepareForSleep(notice) => if notice is Some {
            forced_lock(s, now)
        } else {
            woken(s)
        },
    }
}

/// The saver's deadline fired. While a client holds an inhibition the idle
/// period starts over instead.
pub open spec fn start_due(s: SessionState, now: Moment) -> Outcome {
    if s.inhibitors.is_empty() {
        shown(s, now)
    } else {
        Outcome {
            state: s,
            commands: seq![Command::Timer(timer::Request::Reset(TimerEvent::Idle))],
        }
    }
}

/// The lock's deadline fired. The session is locked as of now if the saver
/// is shown, whoever holds an inhibition; a deadline that outlived its saver
/// is ignored.
pub open spec fn lock_due(s: SessionState, now: Moment) -> Outcome {
    match s.started_at {
        Some(started) => Outcome {
            state: SessionState { locked_at: Some(later_of(now, started)), ..s },
            commands: seq![Command::Locker(locker::Request::Lock)],
        },
        None => unchanged(s),
    }
}

/// The blank deadline fired. While a client holds an inhibition the
/// deadline starts over instead; a display that cannot power the monitor
/// down is left alone.
pub open spec fn blank_due(s: SessionState, now: Moment) -> Outcome {
    if !s.inhibitors.is_empty() {
        Outcome {
            state: s,
            commands: seq![Command::Timer(timer::Request::Reset(TimerEvent::Blank))],
        }
    } else if s.dpms {
        Outcome {
            state: SessionState { blanked_at: Some(now), ..s },
            commands: seq![Command::Locker(locker::Request::Power(false))],
        }
    } else {
        unchanged(s)
    }
}

/// Seconds the saver has been running at `now` according to `report`; zero
/// when it is not running.
pub open spec fn active_seconds(report: Report, now: Moment) -> nat {
    match report.started_at {
        Some(started) => seconds_between(started, now),
        None => 0,
    }
}

/// Seconds the session has been idle at `now` according to `report`.
pub open spec fn idle_seconds(report: Report, now: Moment) -> nat {
    seconds_between(report.idle_since, now)
}

/// What a bus client is told on the strength of `report`, by the id of the
/// query that the report answers; nothing for an id that no query uses.
pub open spec fn projection(report: Report, now: Moment) -> Option<Response> {
    if report.id == GET_ACTIVE_TIME {
        Some(Response::ActiveTime(active_seconds(report, now) as u64))
    } else if report.id == GET_SESSION_IDLE {
        Some(Response::SessionIdle(idle_seconds(report, now) >= SESSION_IDLE_AFTER))
    } else if report.id == GET_SESSION_IDLE_TIME {
        Some(Response::SessionIdleTime(idle_seconds(report, now) as u64))
    } else {
        None
    }
}

/// The answer to a message from the timer.
pub open spec fn on_timer(s: SessionState, message: timer::Response, now: Moment) -> Outcome {
    match message {
        timer::Response::Event(TimerEvent::Heartbeat) => Outcome {
            state: s,
            commands: seq![Command::Locker(locker::Request::Sanitize)],
        },
        timer::Response::Event(TimerEvent::Start) => start_due(s, now),
        timer::Response::Event(TimerEvent::Lock) => lock_due(s, now),
        timer::Response::Event(TimerEvent::Blank) => blank_due(s, now),
        timer::Response::Event(TimerEvent::Idle) => unchanged(s),
        timer::Response::Report(report) => match projection(report, now) {
            Some(response) => Outcome { state: s, commands: seq![Command::Respond(response)] },
            None => unchanged(s),
        },
    }
}

/// The cookies among which an input's new cookie must not be, for the
/// inputs that are answered with a new cookie.
pub open spec fn held_by(s: SessionState, input: Input) -> Option<Set<u32>> {
    match input {
        Input::Server(request) => held_for(s, request),
        _ => None,
    }
}

/// The answer to `input`, which arrived at `now`, from state `s`. `cookie`
/// is the cookie to issue, for the inputs that are answered with one.
pub open spec fn outcome(s: SessionState, input: Input, now: Moment, cookie: u32) -> Outcome {
    match input {
        Input::Locker(event) => on_locker(s, event, now),
        Input::Auth(verdict) => on_auth(s, verdict),
        Input::Server(request) => on_request(s, request, now, cookie),
        Input::Timer(message) => on_timer(s, message, now),
    }
}

/// The part of the state that is bound by [`consistent`].
struct Phase {
    dpms: bool,
    started_at: Option<Moment>,
    locked_at: Option<Moment>,
    blanked_at: Option<Moment>,
}

impl Phase {
    #[verifier::type_invariant]
    spec fn valid(self) -> bool {
        &&& self.locked_at is Some ==> self.started_at is Some
        &&& self.locked_at matches Some(locked) ==> (self.started_at matches Some(started)
            ==> locked.nanos >= started.nanos)
        &&& self.blanked_at is Some ==> self.dpms
    }
}

/// The coordinator: the session's state, and nothing else.
pub struct Coordinator {
    phase: Phase,
    inhibitors: CookieJar,
    throttlers: CookieJar,
    suspenders: CookieJar,
}

impl View for Coordinator {
    type V = SessionState;

    closed spec fn view(&self) -> SessionState {
        SessionState {
            dpms: self.phase.dpms,
            started_at: self.phase.started_at,
            locked_at: self.phase.locked_at,
            blanked_at: self.phase.blanked_at,
            inhibitors: self.inhibitors@,
            throttlers: self.throttlers@,
            suspenders: self.suspenders@,
        }
    }
}

impl Coordinator {
    /// The coordinator of a session that has just begun, on a display that
    /// can (`dpms`) or cannot power the monitor down.
    pub fn new(dpms: bool) -> (coordinator: Coordinator)
        ensures
            coordinator@ == initial(dpms),
            consistent(coordinator@),
    {
        Coordinator {
            phase: Phase { dpms, started_at: None, locked_at: None, blanked_at: None },
            inhibitors: CookieJar::new(),
            throttlers: CookieJar::new(),
            suspenders: CookieJar::new(),
        }
    }

    /// Whether the display can power the monitor down.
    pub fn dpms(&self) -> (dpms: bool)
        ensures
            dpms == self@.dpms,
            consistent(self@),
    {
        proof {
            use_type_invariant(&self.phase);
        }
        self.phase.dpms
    }

    /// When the saver was shown, while it is shown.
    pub fn started_at(&self) -> (at: Option<Moment>)
        ensures
            at == self@.started_at,
            consistent(self@),
    {
        proof {
            use_type_invariant(&self.phase);
        }
        self.phase.started_at
    }

    /// When the session was locked, while it is locked.
    pub fn locked_at(&self) -> (at: Option<Moment>)
        ensures
            at == self@.locked_at,
            consistent(self@),
    {
        proof {
            use_type_invariant(&self.phase);
        }
        self.phase.locked_at
    }

    /// When the monitor was powered down, while it is down.
    pub fn blanked_at(&self) -> (at: Option<Moment>)
        ensures
            at == self@.blanked_at,
            consistent(self@),
    {
        proof {
            use_type_invariant(&self.phase);
        }
        self.phase.blanked_at
    }

    /// The cookies of the clients that hold the saver off.
    pub fn inhibitors(&self) -> (jar: &CookieJar)
        ensures
            jar@ == self@.inhibitors,
    {
        &self.inhibitors
    }

    /// The cookies of the clients that ask the saver to spare resources.
    pub fn throttlers(&self) -> (jar: &CookieJar)
        ensures
            jar@ == self@.throttlers,
    {
        &self.throttlers
    }

    /// The cookies of the clients that hold a suspension.
    pub fn suspenders(&self) -> (jar: &CookieJar)
        ensures
            jar@ == self@.suspenders,
    {
        &self.suspenders
    }

    /// Whether `input` can be answered: where the answer is a new cookie,
    /// one must be left to issue.
    pub fn accepts(&self, input: &Input) -> (ready: bool)
        ensures
            ready == (held_by(self@, *input) matches Some(held) ==> has_room(held)),
    {
        match input {
            Input::Server(Request::Inhibit { .. }) => self.inhibitors.has_room(),
            Input::Server(Request::Throttle { .. }) => self.throttlers.has_room(),
            Input::Server(Request::Suspend { .. }) => self.suspenders.has_room(),
            _ => true,
        }
    }

    /// Shows the saver unless it is shown already.
    fn show(&mut self, now: Moment, commands: &mut Vec<Command>)
        ensures
            final(self)@ == shown(old(self)@, now).state,
            final(commands)@ == old(commands)@ + shown(old(self)@, now).commands,
    {
        proof {
            use_type_invariant(&self.phase);
        }
        if self.phase.started_at.is_none() {
            self.phase.started_at = Some(now);
            commands.push(Command::Locker(locker::Request::Start));
            commands.push(Command::Signal(Signal::Active(true)));
        }
    }

    /// Locks the session if the saver is shown and it is not locked yet.
    fn lock(&mut self, now: Moment, commands: &mut Vec<Command>)
        ensures
            final(self)@ == locked(old(self)@, now).state,
            final(commands)@ == old(commands)@ + locked(old(self)@, now).commands,
    {
        proof {
            use_type_invariant(&self.phase);
        }
        if let Some(started) = self.phase.started_at {
            if self.phase.locked_at.is_none() {
                self.phase.locked_at = Some(started.later(now));
                commands.push(Command::Locker(locker::Request::Lock));
            }
        }
    }

    /// Shows the saver if need be, then locks the session if need be.
    fn force_lock(&mut self, now: Moment, commands: &mut Vec<Command>)
        ensures
            final(self)@ == forced_lock(old(self)@, now).state,
            final(commands)@ == old(commands)@ + forced_lock(old(self)@, now).commands,
    {
        self.show(now, commands);
        self.lock(now, commands);
    }

    /// Takes the saver down if it is shown and the session is not locked.
    fn dismiss(&mut self, commands: &mut Vec<Command>)
        ensures
            final(self)@ == dismissed(old(self)@).state,
            final(commands)@ == old(commands)@ + dismissed(old(self)@).commands,
    {
        proof {
            use_type_invariant(&self.phase);
        }
        if self.phase.started_at.is_some() && self.phase.locked_at.is_none() {
            self.phase.started_at = None;
            commands.push(Command::Locker(locker::Request::Stop));
            commands.push(Command::Signal(Signal::Active(false)));
        }
    }

    /// Powers the monitor up again if it was powered down.
    fn wake(&mut self, commands: &mut Vec<Command>)
        ensures
            final(self)@ == (SessionState { blanked_at: None, ..old(self)@ }),
            final(commands)@ == old(commands)@ + if old(self)@.blanked_at is Some {
                seq![Command::Locker(locker::Request::Power(true))]
            } else {
                seq![]
            },
    {
        proof {
            use_type_invariant(&self.phase);
        }
        if self.phase.blanked_at.is_some() {
            self.phase.blanked_at = None;
            commands.push(Command::Locker(locker::Request::Power(true)));
        }
        assert(commands@ =~= old(commands)@ + if old(self)@.blanked_at is Some {
            seq![Command::Locker(locker::Request::Power(true))]
        } else {
            seq![]
        });
    }

    /// Whether activity at `now` dismisses the saver.
    fn past_grace(&self, now: Moment) -> (past: bool)
        ensures
            past == dismisses(self@, now),
    {
        match self.phase.started_at {
            Some(started) => self.phase.locked_at.is_none() && started.elapsed_secs(now)
                >= ACTIVATION_GRACE,
            None => false,
        }
    }

    /// Answers a message from the locker.
    pub fn handle_locker(&mut self, event: locker::Response, now: Moment) -> (commands: Vec<
        Command,
    >)
        ensures
            on_locker(old(self)@, event, now) == (Outcome {
                state: final(self)@,
                commands: commands@,
            }),
            consistent(final(self)@),
    {
        let mut commands: Vec<Command> = Vec::new();
        match event {
            locker::Response::Password(secret) => {
                commands.push(Command::Auth(auth::Request::Authenticate(secret)));
                commands.push(Command::Signal(Signal::AuthenticationRequest(true)));
            },
            locker::Response::Activity => {
                let past = self.past_grace(now);
                commands.push(Command::Timer(timer::Request::Reset(TimerEvent::Blank)));
                self.wake(&mut commands);
                if past {
                    self.dismiss(&mut commands);
                } else {
                    commands.push(Command::Timer(timer::Request::Reset(TimerEvent::Idle)));
                }
            },
        }
        proof {
            use_type_invariant(&self.phase);
        }
        commands
    }

    /// Answers a message from the authenticator.
    pub fn handle_auth(&mut self, verdict: auth::Response) -> (commands: Vec<Command>)
        ensures
            on_auth(old(self)@, verdict) == (Outcome {
                state: final(self)@,
                commands: commands@,
            }),
            consistent(final(self)@),
    {
        let mut commands: Vec<Command> = Vec::new();
        proof {
            use_type_invariant(&self.phase);
        }
        match verdict {
            auth::Response::Success => {
                self.phase.locked_at = None;
                self.phase.started_at = None;
                commands.push(Command::Locker(locker::Request::Auth(true)));
                commands.push(Command::Locker(locker::Request::Stop));
                commands.push(Command::Timer(timer::Request::Restart));
                commands.push(Command::Signal(Signal::AuthenticationRequest(false)));
                commands.push(Command::Signal(Signal::Active(false)));
            },
            auth::Response::Failure => {
                commands.push(Command::Locker(locker::Request::Auth(false)));
                commands.push(Command::Signal(Signal::AuthenticationRequest(false)));
            },
        }
        commands
    }

    /// Answers a request from the bus.
    ///
    /// `Inhibit`, `Throttle` and `Suspend` are answered with a cookie that
    /// no client of that kind holds; which one is not determined. For them
    /// a cookie must be left to issue, which [`Coordinator::accepts`] tests.
    pub fn handle_request(&mut self, request: Request, now: Moment) -> (commands: Vec<Command>)
        requires
            held_for(old(self)@, request) matches Some(held) ==> has_room(held),
        ensures
            match held_for(old(self)@, request) {
                Some(held) => exists|cookie: u32|
                    !held.contains(cookie) && #[trigger] on_request(
                        old(self)@,
                        request,
                        now,
                        cookie,
                    ) == (Outcome { state: final(self)@, commands: commands@ }),
                None => on_request(old(self)@, request, now, 0) == (Outcome {
                    state: final(self)@,
                    commands: commands@,
                }),
            },
            consistent(final(self)@),
    {
        let mut commands: Vec<Command> = Vec::new();
        let ghost mut issued: u32 = 0;
        match request {
            Request::Lock => {
                self.force_lock(now, &mut commands);
            },
            Request::Cycle => {},
            Request::SimulateUserActivity => {
                commands.push(Command::Locker(locker::Request::Activity));
            },
            Request::Inhibit { .. } => {
                let cookie = self.inhibitors.issue();
                proof {
                    issued = cookie;
                }
                commands.push(Command::Respond(Response::Inhibit(cookie)));
            },
            Request::UnInhibit(held) => {
                self.inhibitors.release(held);
            },
            Request::Throttle { .. } => {
                let cookie = self.throttlers.issue();
                proof {
                    issued = cookie;
                }
                commands.push(Command::Respond(Response::Throttle(cookie)));
            },
            Request::UnThrottle(held) => {
                self.throttlers.release(held);
            },
            Request::Suspend { .. } => {
                let cookie = self.suspenders.issue();
                proof {
                    issued = cookie;
                }
                commands.push(Command::Respond(Response::Suspend(cookie)));
            },
            Request::Resume(held) => {
                self.suspenders.release(held);
            },
            Request::SetActive(active) => {
                if active {
                    self.show(now, &mut commands);
                } else {
                    self.dismiss(&mut commands);
                }
            },
            Request::GetActive => {
                commands.push(Command::Respond(Response::Active(self.phase.started_at.is_some())));
            },
            Request::GetActiveTime => {
                commands.push(Command::Timer(timer::Request::Report(GET_ACTIVE_TIME)));
            },
            Request::GetSessionIdle => {
                commands.push(Command::Timer(timer::Request::Report(GET_SESSION_IDLE)));
            },
            Request::GetSessionIdleTime => {
                commands.push(Command::Timer(timer::Request::Report(GET_SESSION_IDLE_TIME)));
            },
            Request::PrepareForSleep(notice) => {
                if notice.is_some() {
                    self.force_lock(now, &mut commands);
                } else {
                    commands.push(Command::Timer(timer::Request::Reset(TimerEvent::Idle)));
                    commands.push(Command::Timer(timer::Request::Reset(TimerEvent::Blank)));
                    self.wake(&mut commands);
                }
            },
        }
        proof {
            use_type_invariant(&self.phase);
            // The cookie that was issued is the one that the contract speaks of.
            assert(on_request(old(self)@, request, now, issued) == (Outcome {
                state: self@,
                commands: commands@,
            }));
        }
        commands
    }

    /// What a bus client is told on the strength of `report`.
    fn project(report: Report, now: Moment) -> (response: Option<Response>)
        ensures
            response == projection(report, now),
    {
        if report.id == GET_ACTIVE_TIME {
            let seconds = match report.started_at {
                Some(started) => started.elapsed_secs(now),
                None => 0,
            };
            Some(Response::ActiveTime(seconds))
        } else if report.id == GET_SESSION_IDLE {
            Some(Response::SessionIdle(report.idle_since.elapsed_secs(now) >= SESSION_IDLE_AFTER))
        } else if report.id == GET_SESSION_IDLE_TIME {
            Some(Response::SessionIdleTime(report.idle_since.elapsed_secs(now)))
        } else {
            None
        }
    }

    /// Answers a message from the timer.
    pub fn handle_timer(&mut self, message: timer::Response, now: Moment) -> (commands: Vec<
        Command,
    >)
        ensures
            on_timer(old(self)@, message, now) == (Outcome {
                state: final(self)@,
                commands: commands@,
            }),
            consistent(final(self)@),
    {
        let mut commands: Vec<Command> = Vec::new();
        proof {
            use_type_invariant(&self.phase);
        }
        match message {
            timer::Response::Event(TimerEvent::Heartbeat) => {
                commands.push(Command::Locker(locker::Request::Sanitize));
            },
            timer::Response::Event(TimerEvent::Start) => {
                if self.inhibitors.is_empty() {
                    self.show(now, &mut commands);
                } else {
                    commands.push(Command::Timer(timer::Request::Reset(TimerEvent::Idle)));
                }
            },
            timer::Response::Event(TimerEvent::Lock) => {
                if let Some(started) = self.phase.started_at {
                    self.phase.locked_at = Some(started.later(now));
                    commands.push(Command::Locker(locker::Request::Lock));
                }
            },
            timer::Response::Event(TimerEvent::Blank) => {
                if !self.inhibitors.is_empty() {
                    commands.push(Command::Timer(timer::Request::Reset(TimerEvent::Blank)));
                } else if self.phase.dpms {
                    self.phase.blanked_at = Some(now);
                    commands.push(Command::Locker(locker::Request::Power(false)));
                }
            },
            timer::Response::Event(TimerEvent::Idle) => {},
            timer::Response::Report(report) => {
                if let Some(response) = Self::project(report, now) {
                    commands.push(Command::Respond(response));
                }
            },
        }
        commands
    }

    /// Answers one input, which arrived at `now`: moves to the state that
    /// [`outcome`] gives and returns the commands that it gives.
    ///
    /// Where the answer is a new cookie, it is one that no client of that
    /// kind holds; which one is not determined. For such an input a cookie
    /// must be left to issue, which [`Coordinator::accepts`] tests.
    pub fn handle(&mut self, input: Input, now: Moment) -> (commands: Vec<Command>)
        requires
            held_by(old(self)@, input) matches Some(held) ==> has_room(held),
        ensures
            match held_by(old(self)@, input) {
                Some(held) => exists|cookie: u32|
                    !held.contains(cookie) && #[trigger] outcome(old(self)@, input, now, cookie)
                        == (Outcome { state: final(self)@, commands: commands@ }),
                None => outcome(old(self)@, input, now, 0) == (Outcome {
                    state: final(self)@,
                    commands: commands@,
                }),
            },
            consistent(final(self)@),
    {
        match input {
            Input::Locker(event) => self.handle_locker(event, now),
            Input::Auth(verdict) => self.handle_auth(verdict),
            Input::Server(request) => {
                let commands = self.handle_request(request, now);
                proof {
                    if held_for(old(self)@, request) is Some {
                        let cookie = choose|cookie: u32|
                            !held_for(old(self)@, request).unwrap().contains(cookie)
                                && #[trigger] on_request(old(self)@, request, now, cookie) == (
                            Outcome { state: self@, commands: commands@ });
                        assert(outcome(old(self)@, input, now, cookie) == on_request(
                            old(self)@,
                            request,
                            now,
                            cookie,
                        ));
                    }
                }
                commands
            },
            Input::Timer(message) => self.handle_timer(message, now),
        }
    }
}

} // verus!
