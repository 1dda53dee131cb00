//! Laws of the daemon's two state machines: of the coordinator's
//! transitions, proved of [`outcome`] and of the functions it is made of,
//! and of the timer's schedule, proved of [`rearmed`] and [`fired`].

use crate::auth;
use crate::clock::Moment;
use crate::coordinator::{
    consistent, initial, on_auth, on_request, on_timer, outcome, unchanged, Command, Input,
    SessionState,
};
use crate::locker;
use crate::server::dispatch::{awaited, kind_of};
use crate::server::{Request, Response};
use crate::timer;
use crate::timer::{
    beat_fires, blank_fires, fired, lock_fires, rearmed, served, start_fires, Schedule, TimerEvent,
};
use vstd::prelude::*;

verus! {

/// One input as the coordinator meets it: the message, when it arrived, and
/// the cookie that is issued if the message asks for one.
pub struct Step {
    pub input: Input,
    pub now: Moment,
    pub cookie: u32,
}

/// The state after the inputs `steps`, taken in order from state `s`.
pub open spec fn run(s: SessionState, steps: Seq<Step>) -> SessionState
    decreases steps.len(),
{
    if steps.len() == 0 {
        s
    } else {
        let last = steps.last();
        outcome(run(s, steps.drop_last()), last.input, last.now, last.cookie).state
    }
}

/// A session begins in a consistent state.
pub proof fn initial_is_consistent(dpms: bool)
    ensures
        consistent(initial(dpms)),
{
}

/// No input leads from a consistent state to an inconsistent one, whenever
/// it arrives and whatever cookie is issued; and none changes what the
/// display can do.
pub proof fn transition_keeps_consistent(s: SessionState, input: Input, now: Moment, cookie: u32)
    requires
        consistent(s),
    ensures
        consistent(outcome(s, input, now, cookie).state),
        outcome(s, input, now, cookie).state.dpms == s.dpms,
{
}

/// Whatever the inputs, the state is consistent after every one of them:
/// after each prefix of `steps`, taken from a consistent state.
pub proof fn every_run_stays_consistent(s: SessionState, steps: Seq<Step>, taken: int)
    requires
        consistent(s),
        0 <= taken <= steps.len(),
    ensures
        consistent(run(s, steps.take(taken))),
        run(s, steps.take(taken)).dpms == s.dpms,
    decreases taken,
{
    let prefix = steps.take(taken);
    if taken > 0 {
        every_run_stays_consistent(s, steps, taken - 1);
        assert(prefix.drop_last() =~= steps.take(taken - 1));
        let last = prefix.last();
        transition_keeps_consistent(run(s, prefix.drop_last()), last.input, last.now, last.cookie);
    }
}

/// A cookie that `Inhibit` issued, one that nobody held, is held until the
/// matching `UnInhibit` and by nobody right after it; once released, the
/// session is as it was before the cookie was issued. The same holds of
/// `Throttle` with `UnThrottle` and of `Suspend` with `Resume`.
pub proof fn released_cookie_is_forgotten(
    s: SessionState,
    application: String,
    reason: String,
    issued_at: Moment,
    released_at: Moment,
    cookie: u32,
)
    ensures
        !s.inhibitors.contains(cookie) ==> ({
            let held = on_request(s, Request::Inhibit { application, reason }, issued_at, cookie);
            let freed = on_request(held.state, Request::UnInhibit(cookie), released_at, 0);
            &&& held.commands == seq![Command::Respond(Response::Inhibit(cookie))]
            &&& held.state.inhibitors.contains(cookie)
            &&& !freed.state.inhibitors.contains(cookie)
            &&& freed.state == s
        }),
        !s.throttlers.contains(cookie) ==> ({
            let held = on_request(s, Request::Throttle { application, reason }, issued_at, cookie);
            let freed = on_request(held.state, Request::UnThrottle(cookie), released_at, 0);
            &&& held.commands == seq![Command::Respond(Response::Throttle(cookie))]
            &&& held.state.throttlers.contains(cookie)
            &&& !freed.state.throttlers.contains(cookie)
            &&& freed.state == s
        }),
        !s.suspenders.contains(cookie) ==> ({
            let held = on_request(s, Request::Suspend { application, reason }, issued_at, cookie);
            let freed = on_request(held.state, Request::Resume(cookie), released_at, 0);
            &&& held.commands == seq![Command::Respond(Response::Suspend(cookie))]
            &&& held.state.suspenders.contains(cookie)
            &&& !freed.state.suspenders.contains(cookie)
            &&& freed.state == s
        }),
{
}

/// Releasing a cookie removes it, whether or not it was held.
pub proof fn release_removes_cookie(s: SessionState, cookie: u32, now: Moment)
    ensures
        !on_request(s, Request::UnInhibit(cookie), now, 0).state.inhibitors.contains(cookie),
        !on_request(s, Request::UnThrottle(cookie), now, 0).state.throttlers.contains(cookie),
        !on_request(s, Request::Resume(cookie), now, 0).state.suspenders.contains(cookie),
{
}

/// Releasing a cookie that is not held cannot be told from no request at
/// all: the state stays as it is and nothing is sent.
pub proof fn unmatched_release_is_no_request(s: SessionState, cookie: u32, now: Moment)
    ensures
        !s.inhibitors.contains(cookie) ==> on_request(s, Request::UnInhibit(cookie), now, 0)
            == unchanged(s),
        !s.throttlers.contains(cookie) ==> on_request(s, Request::UnThrottle(cookie), now, 0)
            == unchanged(s),
        !s.suspenders.contains(cookie) ==> on_request(s, Request::Resume(cookie), now, 0)
            == unchanged(s),
{
}

/// While a client holds an inhibition, the timer's `Start` and `Blank`
/// leave the state as it is and only start their deadlines over.
pub proof fn inhibition_defers_start_and_blank(s: SessionState, now: Moment)
    requires
        !s.inhibitors.is_empty(),
    ensures
        on_timer(s, timer::Response::Event(TimerEvent::Start), now).state == s,
        on_timer(s, timer::Response::Event(TimerEvent::Start), now).commands == seq![
            Command::Timer(timer::Request::Reset(TimerEvent::Idle)),
        ],
        on_timer(s, timer::Response::Event(TimerEvent::Blank), now).state == s,
        on_timer(s, timer::Response::Event(TimerEvent::Blank), now).commands == seq![
            Command::Timer(timer::Request::Reset(TimerEvent::Blank)),
        ],
{
}

/// While a client holds an inhibition, no message from the timer shows a
/// hidden saver or powers down a monitor that is up.
pub proof fn inhibition_holds_off_the_timer(s: SessionState, message: timer::Response, now: Moment)
    requires
        !s.inhibitors.is_empty(),
    ensures
        s.started_at is None ==> on_timer(s, message, now).state.started_at is None,
        s.blanked_at is None ==> on_timer(s, message, now).state.blanked_at is None,
{
}

/// A client's `Lock` shows the saver and locks the session whoever holds
/// an inhibition: afterwards the session is locked, and the locker was told
/// to lock unless the session was locked before.
pub proof fn lock_request_overrides_inhibition(s: SessionState, now: Moment)
    ensures
        ({
            let after = on_request(s, Request::Lock, now, 0);
            &&& after.state.started_at is Some
            &&& after.state.locked_at is Some
            &&& after.state.inhibitors == s.inhibitors
            &&& s.locked_at is None ==> after.commands.last() == Command::Locker(
                locker::Request::Lock,
            )
            &&& s.started_at is None ==> after.commands[0] == Command::Locker(
                locker::Request::Start,
            )
        }),
{
}

/// A successful authentication clears the lock and the saver together; a
/// failed one leaves the whole state as it is.
pub proof fn authentication_unlocks_or_changes_nothing(s: SessionState)
    ensures
        on_auth(s, auth::Response::Success).state.locked_at is None,
        on_auth(s, auth::Response::Success).state.started_at is None,
        on_auth(s, auth::Response::Failure).state == s,
{
}

/// The notice that the system is about to sleep locks the session in that
/// very transition: afterwards the saver is shown and the session locked,
/// and the locker was told to lock unless the session was locked before.
pub proof fn sleep_notice_locks(s: SessionState, notice: std::time::SystemTime, now: Moment)
    ensures
        ({
            let after = on_request(s, Request::PrepareForSleep(Some(notice)), now, 0);
            &&& after == on_request(s, Request::Lock, now, 0)
            &&& after.state.started_at is Some
            &&& after.state.locked_at is Some
            &&& s.locked_at is None ==> after.commands.last() == Command::Locker(
                locker::Request::Lock,
            )
        }),
{
}

/// `GetActive` right after `SetActive(active)` answers `active`, except
/// that a locked session stays active when asked to deactivate.
pub proof fn get_active_follows_set_active(
    s: SessionState,
    active: bool,
    set_at: Moment,
    asked_at: Moment,
)
    requires
        active || s.locked_at is None || s.started_at is None,
    ensures
        ({
            let set = on_request(s, Request::SetActive(active), set_at, 0);
            on_request(set.state, Request::GetActive, asked_at, 0).commands == seq![
                Command::Respond(Response::Active(active)),
            ]
        }),
{
}

/// A locked session answers `GetActive` with `true` whatever `SetActive`
/// went before.
pub proof fn locked_session_stays_active(
    s: SessionState,
    active: bool,
    set_at: Moment,
    asked_at: Moment,
)
    requires
        s.locked_at is Some,
        s.started_at is Some,
    ensures
        ({
            let set = on_request(s, Request::SetActive(active), set_at, 0);
            on_request(set.state, Request::GetActive, asked_at, 0).commands == seq![
                Command::Respond(Response::Active(true)),
            ]
        }),
{
}

/// The id under which the coordinator asks the timer for the report that a
/// request needs, for the requests that are answered from a report.
pub open spec fn report_needed(request: Request) -> Option<u64> {
    match request {
        Request::GetActiveTime => Some(crate::coordinator::GET_ACTIVE_TIME),
        Request::GetSessionIdle => Some(crate::coordinator::GET_SESSION_IDLE),
        Request::GetSessionIdleTime => Some(crate::coordinator::GET_SESSION_IDLE_TIME),
        _ => None,
    }
}

/// A request whose caller waits is answered at once with one response of
/// the kind waited for, unless the answer needs a report from the timer;
/// then the timer is asked for that report and nothing is responded yet. A
/// request whose caller does not wait is never responded to.
pub proof fn every_request_is_answered_in_kind(
    s: SessionState,
    request: Request,
    now: Moment,
    cookie: u32,
)
    ensures
        ({
            let commands = on_request(s, request, now, cookie).commands;
            match (awaited(request), report_needed(request)) {
                (Some(kind), None) => commands.len() == 1 && (commands[0] matches Command::Respond(
                    response,
                ) && kind_of(response) == kind),
                (Some(_), Some(id)) => commands == seq![
                    Command::Timer(timer::Request::Report(id)),
                ],
                (None, _) => forall|i: int|
                    0 <= i < commands.len() ==> !(#[trigger] commands[i] is Respond),
            }
        }),
{
}

/// The report that the timer sends for a request's query is answered with
/// one response of the kind that the request's caller waits for, and changes
/// nothing; and the timer echoes the id it was asked under, so that the
/// report is matched to its request.
pub proof fn every_report_is_answered_in_kind(
    s: SessionState,
    schedule: Schedule,
    request: Request,
    asked_at: Moment,
    now: Moment,
)
    requires
        report_needed(request) is Some,
    ensures
        ({
            let id = report_needed(request).unwrap();
            let answer = served(schedule, timer::Request::Report(id), asked_at);
            let after = on_timer(s, answer.1.unwrap(), now);
            &&& answer.0 == schedule
            &&& answer.1 matches Some(timer::Response::Report(report)) && report.id == id
            &&& after.state == s
            &&& after.commands.len() == 1
            &&& after.commands[0] matches Command::Respond(response) && Some(kind_of(response))
                == awaited(request)
        }),
{
}

/// No message from the locker or the authenticator, and no firing of the
/// timer, is answered with a response: responses go to requests alone.
pub proof fn nothing_else_is_responded_to(s: SessionState, input: Input, now: Moment)
    requires
        !(input is Server),
        !(input matches Input::Timer(timer::Response::Report(_))),
    ensures
        forall|i: int|
            0 <= i < outcome(s, input, now, 0).commands.len() ==> !(#[trigger] outcome(
                s,
                input,
                now,
                0,
            ).commands[i] is Respond),
{
}

/// What the timer delivers at each of the moments `ticks`, called in that
/// order from schedule `s`.
pub open spec fn firings(s: Schedule, ticks: Seq<Moment>) -> Seq<Seq<TimerEvent>>
    decreases ticks.len(),
{
    if ticks.len() == 0 {
        seq![]
    } else {
        seq![fired(s, ticks[0]).events] + firings(fired(s, ticks[0]).schedule, ticks.skip(1))
    }
}

/// The place of an event in the order of delivery.
pub open spec fn rank(event: TimerEvent) -> int {
    match event {
        TimerEvent::Idle => 0,
        TimerEvent::Start => 1,
        TimerEvent::Lock => 2,
        TimerEvent::Blank => 3,
        TimerEvent::Heartbeat => 4,
    }
}

/// Arming a deadline twice at one moment is arming it once: the schedule,
/// and so everything that the timer delivers from then on, is the same.
pub proof fn reset_twice_is_reset_once(
    s: Schedule,
    event: TimerEvent,
    now: Moment,
    ticks: Seq<Moment>,
)
    ensures
        rearmed(rearmed(s, event, now), event, now) == rearmed(s, event, now),
        firings(rearmed(rearmed(s, event, now), event, now), ticks) == firings(
            rearmed(s, event, now),
            ticks,
        ),
{
}

/// Of two resets of one deadline, one after the other, only the second
/// counts.
pub proof fn later_reset_supersedes(s: Schedule, event: TimerEvent, first: Moment, second: Moment)
    requires
        first.nanos <= second.nanos,
    ensures
        rearmed(rearmed(s, event, first), event, second) == rearmed(s, event, second),
{
}

/// The beginning of the idle period never moves back, whatever is asked of
/// the timer and whenever.
pub proof fn idle_period_never_moves_back(s: Schedule, request: timer::Request, now: Moment)
    ensures
        served(s, request, now).0.idle_since.nanos >= s.idle_since.nanos,
        fired(s, now).schedule.idle_since == s.idle_since,
{
}

/// What the timer delivers in one call holds each event at most once, in
/// the order `Start`, `Lock`, `Blank`, `Heartbeat`: the saver comes before
/// the monitor is powered down, and the heartbeat after everything that
/// changes the session. `Idle` is never delivered.
pub proof fn delivery_is_ordered(s: Schedule, now: Moment)
    ensures
        forall|i: int, j: int|
            0 <= i < j < fired(s, now).events.len() ==> rank(#[trigger] fired(s, now).events[i])
                < rank(#[trigger] fired(s, now).events[j]),
        forall|i: int|
            0 <= i < fired(s, now).events.len() ==> #[trigger] fired(s, now).events[i]
                != TimerEvent::Idle,
{
}

/// An event is delivered exactly when its deadline fires.
pub proof fn delivered_is_what_fires(s: Schedule, now: Moment)
    ensures
        fired(s, now).events.contains(TimerEvent::Start) <==> start_fires(s, now),
        fired(s, now).events.contains(TimerEvent::Lock) <==> lock_fires(s, now),
        fired(s, now).events.contains(TimerEvent::Blank) <==> blank_fires(s, now),
        fired(s, now).events.contains(TimerEvent::Heartbeat) <==> beat_fires(s, now),
        !fired(s, now).events.contains(TimerEvent::Idle),
{
    let events = fired(s, now).events;
    if start_fires(s, now) {
        assert(events[0] == TimerEvent::Start);
    }
    if lock_fires(s, now) {
        let at = if start_fires(s, now) {
            1int
        } else {
            0int
        };
        assert(events[at] == TimerEvent::Lock);
    }
    if blank_fires(s, now) {
        let at = (if start_fires(s, now) {
            1int
        } else {
            0int
        }) + (if lock_fires(s, now) {
            1int
        } else {
            0int
        });
        assert(events[at] == TimerEvent::Blank);
    }
    if beat_fires(s, now) {
        assert(events[events.len() - 1] == TimerEvent::Heartbeat);
    }
}

/// A deadline fires once per arming: what fired is spent, and what is
/// spent stays so and does not fire until it is armed again. (The lock's
/// deadline is armed by the saver's when that fires.)
pub proof fn fires_once_per_arming(s: Schedule, now: Moment)
    ensures
        start_fires(s, now) ==> fired(s, now).schedule.start is None,
        lock_fires(s, now) ==> fired(s, now).schedule.lock is None,
        blank_fires(s, now) ==> fired(s, now).schedule.blank is None,
        s.start is None ==> !start_fires(s, now) && fired(s, now).schedule.start is None,
        s.start is None && s.lock is None ==> !lock_fires(s, now) && fired(s, now).schedule.lock
            is None,
        s.blank is None ==> !blank_fires(s, now) && fired(s, now).schedule.blank is None,
{
}

/// A start or a blanking that an inhibition put off comes due again one
/// full delay later, and not before: the coordinator answers the firing by
/// asking the timer to arm the deadline again.
pub proof fn deferred_deadlines_come_again(
    s: SessionState,
    schedule: Schedule,
    now: Moment,
    later: Moment,
)
    requires
        !s.inhibitors.is_empty(),
    ensures
        ({
            let asked = on_timer(s, timer::Response::Event(TimerEvent::Start), now).commands[0];
            &&& asked matches Command::Timer(request)
            &&& start_fires(served(schedule, request, now).0, later) <==> later.nanos >= now.nanos
                + schedule.config.timeout * crate::clock::NANOS_PER_SEC
        }),
        ({
            let asked = on_timer(s, timer::Response::Event(TimerEvent::Blank), now).commands[0];
            &&& asked matches Command::Timer(request)
            &&& blank_fires(served(schedule, request, now).0, later) <==> schedule.config.blank > 0
                && later.nanos >= now.nanos + schedule.config.blank * crate::clock::NANOS_PER_SEC
        }),
{
}

/// The lock follows the saver: once the saver's deadline has fired, the
/// lock's fires as soon as the lock delay has passed since, and not before.
pub proof fn lock_follows_start(s: Schedule, now: Moment, later: Moment)
    requires
        start_fires(s, now),
        s.config.lock > 0,
    ensures
        !lock_fires(s, now),
        fired(s, now).schedule.started_at == Some(now),
        !start_fires(fired(s, now).schedule, later),
        lock_fires(fired(s, now).schedule, later) <==> later.nanos >= now.nanos + s.config.lock
            * crate::clock::NANOS_PER_SEC,
{
}

/// With a lock delay of zero the lock fires together with the saver, right
/// after it; with a blank delay of zero the monitor is never powered down.
pub proof fn zero_delays(s: Schedule, now: Moment)
    ensures
        s.config.lock == 0 && start_fires(s, now) ==> fired(s, now).events.len() >= 2 && fired(
            s,
            now,
        ).events[0] == TimerEvent::Start && fired(s, now).events[1] == TimerEvent::Lock,
        s.config.blank == 0 ==> !blank_fires(s, now),
{
}

/// The heartbeat recurs: when it has fired it is due again one period
/// later, and not before.
pub proof fn heartbeat_recurs(s: Schedule, now: Moment, later: Moment)
    requires
        beat_fires(s, now),
    ensures
        beat_fires(fired(s, now).schedule, later) <==> later.nanos >= now.nanos + s.config.beat
            * crate::clock::NANOS_PER_SEC,
{
}

} // verus!
