//! The idle timer: the deadlines that follow the user's last activity, the
//! periodic heartbeat, and the idle and active times it reports.
//!
//! The timer keeps a [`Schedule`]: for each deadline the moment from which
//! it is armed, if it is armed. A deadline comes due once the configured
//! number of whole seconds has passed since that moment; when it fires it is
//! spent, and fires again only after it has been armed again. The heartbeat
//! alone arms itself. The timer's owner calls [`Timer::tick`] with the
//! current time, as often as it likes, and forwards what fired;
//! [`Timer::next_due`] says when the next call will have something to say.

use crate::clock::{later_of, Moment, NANOS_PER_SEC};
use vstd::prelude::*;

verus! {

/// The deadlines that the timer keeps. `Heartbeat` recurs; each of the
/// others fires once after it has been armed.
#[derive(Debug, Clone, Copy, PartialEq, Eq, Structural)]
pub enum TimerEvent {
    /// The start of the current idle period.
    Idle,
    /// The saver is due.
    Start,
    /// The lock is due.
    Lock,
    /// Powering the monitor down is due.
    Blank,
    /// The periodic beat.
    Heartbeat,
}

/// A snapshot of the timer's accounting, tagged with the `id` of the query
/// that asked for it.
#[derive(Debug, Clone, Copy, PartialEq, Eq, Structural)]
pub struct Report {
    pub id: u64,
    /// When the saver's deadline last fired, unless the timer was restarted
    /// since.
    pub started_at: Option<Moment>,
    /// When the current idle period began.
    pub idle_since: Moment,
}

/// What the coordinator asks of the timer.
#[derive(Debug, Clone, Copy, PartialEq, Eq, Structural)]
pub enum Request {
    /// Rearm one deadline from now.
    Reset(TimerEvent),
    /// Begin a new idle period and forget the saver that was running.
    Restart,
    /// Send a [`Report`] tagged with this id.
    Report(u64),
}

/// What the timer sends to the coordinator.
#[derive(Debug, Clone, Copy, PartialEq, Eq, Structural)]
pub enum Response {
    /// A deadline fired.
    Event(TimerEvent),
    /// The answer to a [`Request::Report`].
    Report(Report),
}

/// The timer's settings, each in whole seconds.
#[derive(Debug, Clone, Copy, PartialEq, Eq, Structural)]
pub struct Config {
    /// The period of the heartbeat.
    pub beat: u64,
    /// Idle time after which the saver is due.
    pub timeout: u64,
    /// Time after the saver came due after which the lock is due; zero
    /// locks at once.
    pub lock: u64,
    /// Time after the blank deadline was armed after which powering the
    /// monitor down is due; zero never powers it down.
    pub blank: u64,
}

/// What the timer keeps.
#[derive(Debug, Clone, Copy, PartialEq, Eq, Structural)]
pub struct Schedule {
    pub config: Config,
    /// When the current idle period began.
    pub idle_since: Moment,
    /// When the saver's deadline last fired, unless the timer was restarted
    /// since.
    pub started_at: Option<Moment>,
    /// From when the saver's deadline is armed.
    pub start: Option<Moment>,
    /// From when the lock's deadline is armed.
    pub lock: Option<Moment>,
    /// From when the blank deadline is armed.
    pub blank: Option<Moment>,
    /// When the heartbeat last fired.
    pub beat: Moment,
}

/// One call of [`Timer::tick`]: the schedule afterwards and what fired, in
/// the order in which it is to be delivered.
#[verifier::ext_equal]
pub struct Firing {
    pub schedule: Schedule,
    pub events: Seq<TimerEvent>,
}

/// The schedule of a timer made at `now`: an idle period begins, the saver
/// and blank deadlines are armed and the first beat is one period away.
pub open spec fn fresh(config: Config, now: Moment) -> Schedule {
    Schedule {
        config,
        idle_since: now,
        started_at: None,
        start: Some(now),
        lock: None,
        blank: Some(now),
        beat: now,
    }
}

/// The schedule after one deadline was armed again from `now`. Arming
/// `Idle` begins a new idle period and with it arms the saver's deadline;
/// the beginning of the idle period never moves back.
pub open spec fn rearmed(s: Schedule, event: TimerEvent, now: Moment) -> Schedule {
    match event {
        TimerEvent::Idle => Schedule {
            idle_since: later_of(s.idle_since, now),
            start: Some(now),
            ..s
        },
        TimerEvent::Start => Schedule { start: Some(now), ..s },
        TimerEvent::Lock => Schedule { lock: Some(now), ..s },
        TimerEvent::Blank => Schedule { blank: Some(now), ..s },
        TimerEvent::Heartbeat => Schedule { beat: now, ..s },
    }
}

/// The schedule after a restart at `now`: `Idle` and `Blank` are armed
/// again, and the saver that was running is forgotten together with the
/// lock that was due for it.
pub open spec fn restarted(s: Schedule, now: Moment) -> Schedule {
    Schedule {
        started_at: None,
        lock: None,
        ..rearmed(rearmed(s, TimerEvent::Idle, now), TimerEvent::Blank, now)
    }
}

/// The report that answers the query `id`.
pub open spec fn snapshot(s: Schedule, id: u64) -> Report {
    Report { id, started_at: s.started_at, idle_since: s.idle_since }
}

/// Whether a deadline armed from `armed` is due at `now`, `after` whole
/// seconds being asked for: whether that many seconds have passed since it
/// was armed.
pub open spec fn comes_due(armed: Option<Moment>, after: u64, now: Moment) -> bool {
    armed matches Some(since) && now.nanos >= since.nanos + after * NANOS_PER_SEC
}

/// Whether the saver's deadline fires at `now`.
pub open spec fn start_fires(s: Schedule, now: Moment) -> bool {
    comes_due(s.start, s.config.timeout, now)
}

/// Whether the lock's deadline fires at `now`: it was armed and comes due,
/// or the saver's deadline fires and the lock is to follow at once.
pub open spec fn lock_fires(s: Schedule, now: Moment) -> bool {
    if start_fires(s, now) {
        s.config.lock == 0
    } else {
        comes_due(s.lock, s.config.lock, now)
    }
}

/// Whether the blank deadline fires at `now`.
pub open spec fn blank_fires(s: Schedule, now: Moment) -> bool {
    s.config.blank > 0 && comes_due(s.blank, s.config.blank, now)
}

/// Whether the heartbeat fires at `now`.
pub open spec fn beat_fires(s: Schedule, now: Moment) -> bool {
    comes_due(Some(s.beat), s.config.beat, now)
}

/// `event` alone if `fires`, nothing otherwise.
pub open spec fn when(fires: bool, event: TimerEvent) -> Seq<TimerEvent> {
    if fires {
        seq![event]
    } else {
        seq![]
    }
}

/// What a call of [`Timer::tick`] at `now` does to the schedule `s`.
///
/// The saver's deadline arms the lock's when it fires, and notes the
/// moment. What fires together is delivered in the order `Start`, `Lock`,
/// `Blank`, `Heartbeat`.
pub open spec fn fired(s: Schedule, now: Moment) -> Firing {
    Firing {
        schedule: Schedule {
            config: s.config,
            idle_since: s.idle_since,
            started_at: if start_fires(s, now) {
                Some(now)
            } else {
                s.started_at
            },
            start: if start_fires(s, now) {
                None
            } else {
                s.start
            },
            lock: if lock_fires(s, now) {
                None
            } else if start_fires(s, now) {
                Some(now)
            } else {
                s.lock
            },
            blank: if blank_fires(s, now) {
                None
            } else {
                s.blank
            },
            beat: if beat_fires(s, now) {
                now
            } else {
                s.beat
            },
        },
        events: when(start_fires(s, now), TimerEvent::Start) + when(
            lock_fires(s, now),
            TimerEvent::Lock,
        ) + when(blank_fires(s, now), TimerEvent::Blank) + when(
            beat_fires(s, now),
            TimerEvent::Heartbeat,
        ),
    }
}

/// What the timer does with a request at `now`: the schedule afterwards,
/// and the report if one was asked for.
pub open spec fn served(s: Schedule, request: Request, now: Moment) -> (Schedule, Option<Response>) {
    match request {
        Request::Reset(event) => (rearmed(s, event, now), None),
        Request::Restart => (restarted(s, now), None),
        Request::Report(id) => (s, Some(Response::Report(snapshot(s, id)))),
    }
}

/// The first moment at which a deadline armed from `armed` is due, `after`
/// whole seconds being asked for; none if it is not armed or the clock ends
/// before.
pub open spec fn due_at(armed: Option<Moment>, after: u64) -> Option<Moment> {
    match armed {
        Some(since) if since.nanos + after * NANOS_PER_SEC <= u64::MAX => Some(
            Moment { nanos: (since.nanos + after * NANOS_PER_SEC) as u64 },
        ),
        _ => None,
    }
}

/// The earlier of two moments that may be missing.
pub open spec fn earlier(a: Option<Moment>, b: Option<Moment>) -> Option<Moment> {
    match (a, b) {
        (Some(x), Some(y)) => if x.nanos <= y.nanos {
            a
        } else {
            b
        },
        (Some(_), None) => a,
        _ => b,
    }
}

/// The first moment at which the blank deadline of `s` is due.
pub open spec fn blank_due_at(s: Schedule) -> Option<Moment> {
    if s.config.blank > 0 {
        due_at(s.blank, s.config.blank)
    } else {
        None
    }
}

/// The first moment at which a call of [`Timer::tick`] on `s` has
/// something to deliver; none if the clock ends before.
pub open spec fn next_due(s: Schedule) -> Option<Moment> {
    earlier(
        earlier(due_at(s.start, s.config.timeout), due_at(s.lock, s.config.lock)),
        earlier(blank_due_at(s), due_at(Some(s.beat), s.config.beat)),
    )
}

/// A deadline is due exactly from [`due_at`] on.
pub proof fn lemma_due_from(armed: Option<Moment>, after: u64, now: Moment)
    ensures
        comes_due(armed, after, now) <==> (due_at(armed, after) matches Some(due) && now.nanos
            >= due.nanos),
{
}

/// The idle timer.
pub struct Timer {
    schedule: Schedule,
}

impl View for Timer {
    type V = Schedule;

    closed spec fn view(&self) -> Schedule {
        self.schedule
    }
}

impl Timer {
    /// A timer that starts at `now`.
    pub fn new(config: Config, now: Moment) -> (timer: Timer)
        ensures
            timer@ == fresh(config, now),
    {
        Timer {
            schedule: Schedule {
                config,
                idle_since: now,
                started_at: None,
                start: Some(now),
                lock: None,
                blank: Some(now),
                beat: now,
            },
        }
    }

    /// What the timer keeps.
    pub fn schedule(&self) -> (schedule: Schedule)
        ensures
            schedule == self@,
    {
        self.schedule
    }

    /// Arms the deadline for `event` again, from `now`. A firing that was
    /// pending for it is thereby put off.
    pub fn reset(&mut self, event: TimerEvent, now: Moment)
        ensures
            final(self)@ == rearmed(old(self)@, event, now),
    {
        match event {
            TimerEvent::Idle => {
                self.schedule.idle_since = self.schedule.idle_since.later(now);
                self.schedule.start = Some(now);
            },
            TimerEvent::Start => {
                self.schedule.start = Some(now);
            },
            TimerEvent::Lock => {
                self.schedule.lock = Some(now);
            },
            TimerEvent::Blank => {
                self.schedule.blank = Some(now);
            },
            TimerEvent::Heartbeat => {
                self.schedule.beat = now;
            },
        }
    }

    /// Begins a new idle period at `now` and forgets the saver that was
    /// running.
    pub fn restart(&mut self, now: Moment)
        ensures
            final(self)@ == restarted(old(self)@, now),
    {
        self.reset(TimerEvent::Idle, now);
        self.reset(TimerEvent::Blank, now);
        self.schedule.started_at = None;
        self.schedule.lock = None;
    }

    /// The report that answers the query `id`.
    pub fn report(&self, id: u64) -> (report: Report)
        ensures
            report == snapshot(self@, id),
    {
        Report { id, started_at: self.schedule.started_at, idle_since: self.schedule.idle_since }
    }

    /// Carries out one request of the coordinator at `now` and returns the
    /// report, if one was asked for.
    pub fn serve(&mut self, request: Request, now: Moment) -> (answer: Option<Response>)
        ensures
            (final(self)@, answer) == served(old(self)@, request, now),
    {
        match request {
            Request::Reset(event) => {
                self.reset(event, now);
                None
            },
            Request::Restart => {
                self.restart(now);
                None
            },
            Request::Report(id) => Some(Response::Report(self.report(id))),
        }
    }

    /// Whether a deadline armed from `armed` comes due at `now`.
    fn is_due(armed: Option<Moment>, after: u64, now: Moment) -> (due: bool)
        ensures
            due == comes_due(armed, after, now),
    {
        match armed {
            Some(since) => now.nanos >= since.nanos && since.elapsed_secs(now) >= after,
            None => false,
        }
    }

    /// Fires what is due at `now` and returns it in the order of delivery:
    /// `Start`, `Lock`, `Blank`, `Heartbeat`.
    pub fn tick(&mut self, now: Moment) -> (events: Vec<TimerEvent>)
        ensures
            fired(old(self)@, now) == (Firing { schedule: final(self)@, events: events@ }),
    {
        let mut events: Vec<TimerEvent> = Vec::new();
        if Self::is_due(self.schedule.start, self.schedule.config.timeout, now) {
            self.schedule.start = None;
            self.schedule.started_at = Some(now);
            self.schedule.lock = Some(now);
            events.push(TimerEvent::Start);
        }
        if Self::is_due(self.schedule.lock, self.schedule.config.lock, now) {
            self.schedule.lock = None;
            events.push(TimerEvent::Lock);
        }
        if self.schedule.config.blank > 0 && Self::is_due(
            self.schedule.blank,
            self.schedule.config.blank,
            now,
        ) {
            self.schedule.blank = None;
            events.push(TimerEvent::Blank);
        }
        if Self::is_due(Some(self.schedule.beat), self.schedule.config.beat, now) {
            self.schedule.beat = now;
            events.push(TimerEvent::Heartbeat);
        }
        events
    }

    /// The first moment at which a deadline armed from `armed` is due.
    fn due_moment(armed: Option<Moment>, after: u64) -> (due: Option<Moment>)
        ensures
            due == due_at(armed, after),
    {
        match armed {
            Some(since) => match after.checked_mul(NANOS_PER_SEC) {
                Some(span) => match since.nanos.checked_add(span) {
                    Some(nanos) => Some(Moment { nanos }),
                    None => None,
                },
                None => None,
            },
            None => None,
        }
    }

    /// The earlier of two moments that may be missing.
    fn sooner(a: Option<Moment>, b: Option<Moment>) -> (first: Option<Moment>)
        ensures
            first == earlier(a, b),
    {
        match (a, b) {
            (Some(x), Some(y)) => if x.nanos <= y.nanos {
                a
            } else {
                b
            },
            (Some(_), None) => a,
            _ => b,
        }
    }

    /// The first moment at which [`Timer::tick`] has something to deliver:
    /// a call before it returns nothing, a call at or after it returns
    /// something. None if the clock ends before anything is due.
    pub fn next_due(&self) -> (due: Option<Moment>)
        ensures
            due == next_due(self@),
            forall|now: Moment|
                (#[trigger] fired(self@, now)).events.len() > 0 <==> (due matches Some(at)
                    && now.nanos >= at.nanos),
    {
        let start = Self::due_moment(self.schedule.start, self.schedule.config.timeout);
        let lock = Self::due_moment(self.schedule.lock, self.schedule.config.lock);
        let blank = if self.schedule.config.blank > 0 {
            Self::due_moment(self.schedule.blank, self.schedule.config.blank)
        } else {
            None
        };
        let beat = Self::due_moment(Some(self.schedule.beat), self.schedule.config.beat);
        proof {
            assert forall|now: Moment|
                (#[trigger] fired(self@, now)).events.len() > 0 <==> (next_due(self@) matches Some(
                    at,
                ) && now.nanos >= at.nanos) by {
                lemma_fires_from_next_due(self@, now);
            }
        }
        Self::sooner(Self::sooner(start, lock), Self::sooner(blank, beat))
    }
}

/// A call of [`Timer::tick`] delivers something exactly from [`next_due`]
/// on.
pub proof fn lemma_fires_from_next_due(s: Schedule, now: Moment)
    ensures
        fired(s, now).events.len() > 0 <==> (next_due(s) matches Some(at) && now.nanos
            >= at.nanos),
{
}

} // verus!
