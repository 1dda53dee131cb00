use screenruster::auth;
use screenruster::clock::Moment;
use screenruster::coordinator::{
    Command, Coordinator, Input, ACTIVATION_GRACE, GET_ACTIVE_TIME, GET_SESSION_IDLE,
    GET_SESSION_IDLE_TIME, SESSION_IDLE_AFTER,
};
use screenruster::locker;
use screenruster::server::{Request, Response, Signal};
use screenruster::timer;
use screenruster::timer::{Report, TimerEvent};

fn secs(s: u64) -> Moment {
    Moment::from_secs(s)
}

fn millis(ms: u64) -> Moment {
    Moment::from_millis(ms)
}

fn inhibit() -> Request {
    Request::Inhibit { application: String::from("app"), reason: String::from("r") }
}

fn throttle() -> Request {
    Request::Throttle { application: String::from("app"), reason: String::from("r") }
}

fn suspend() -> Request {
    Request::Suspend { application: String::from("app"), reason: String::from("r") }
}

fn fired(event: TimerEvent) -> timer::Response {
    timer::Response::Event(event)
}

fn cookie_in(commands: &[Command]) -> u32 {
    assert_eq!(commands.len(), 1);
    match commands[0] {
        Command::Respond(Response::Inhibit(cookie))
        | Command::Respond(Response::Throttle(cookie))
        | Command::Respond(Response::Suspend(cookie)) => cookie,
        _ => panic!("no cookie in {:?}", commands),
    }
}

/// The state that the tests can see.
fn seen(c: &Coordinator) -> (Option<Moment>, Option<Moment>, Option<Moment>, bool, bool, bool) {
    (
        c.started_at(),
        c.locked_at(),
        c.blanked_at(),
        c.inhibitors().is_empty(),
        c.throttlers().is_empty(),
        c.suspenders().is_empty(),
    )
}

fn consistent(c: &Coordinator) -> bool {
    let locked_after_start = match (c.locked_at(), c.started_at()) {
        (Some(locked), Some(started)) => locked.as_nanos() >= started.as_nanos(),
        (Some(_), None) => false,
        (None, _) => true,
    };
    locked_after_start && (c.blanked_at().is_none() || c.dpms())
}

#[test]
fn a_new_session_is_idle() {
    for dpms in [false, true] {
        let c = Coordinator::new(dpms);
        assert_eq!(c.dpms(), dpms);
        assert_eq!(c.started_at(), None);
        assert_eq!(c.locked_at(), None);
        assert_eq!(c.blanked_at(), None);
        assert!(c.inhibitors().is_empty());
        assert!(c.throttlers().is_empty());
        assert!(c.suspenders().is_empty());
        assert!(consistent(&c));
    }
}

#[test]
fn password_goes_to_the_authenticator() {
    let mut c = Coordinator::new(true);
    let before = seen(&c);
    let out = c.handle_locker(locker::Response::Password(String::from("hunter2")), secs(3));
    assert_eq!(
        out,
        vec![
            Command::Auth(auth::Request::Authenticate(String::from("hunter2"))),
            Command::Signal(Signal::AuthenticationRequest(true)),
        ]
    );
    assert_eq!(seen(&c), before);
}

#[test]
fn activity_while_idle_resets_both_deadlines() {
    let mut c = Coordinator::new(true);
    let out = c.handle_locker(locker::Response::Activity, secs(3));
    assert_eq!(
        out,
        vec![
            Command::Timer(timer::Request::Reset(TimerEvent::Blank)),
            Command::Timer(timer::Request::Reset(TimerEvent::Idle)),
        ]
    );
    assert_eq!(c.started_at(), None);
}

#[test]
fn activity_within_grace_keeps_the_saver() {
    let mut c = Coordinator::new(true);
    c.handle_timer(fired(TimerEvent::Start), secs(5));
    let out = c.handle_locker(locker::Response::Activity, millis(5_999));
    assert_eq!(
        out,
        vec![
            Command::Timer(timer::Request::Reset(TimerEvent::Blank)),
            Command::Timer(timer::Request::Reset(TimerEvent::Idle)),
        ]
    );
    assert_eq!(c.started_at(), Some(secs(5)));
}

#[test]
fn activity_after_grace_dismisses_the_saver() {
    assert_eq!(ACTIVATION_GRACE, 1);
    let mut c = Coordinator::new(true);
    c.handle_timer(fired(TimerEvent::Start), secs(5));
    let out = c.handle_locker(locker::Response::Activity, secs(6));
    assert_eq!(
        out,
        vec![
            Command::Timer(timer::Request::Reset(TimerEvent::Blank)),
            Command::Locker(locker::Request::Stop),
            Command::Signal(Signal::Active(false)),
        ]
    );
    assert_eq!(c.started_at(), None);
}

#[test]
fn activity_never_dismisses_a_locked_saver() {
    let mut c = Coordinator::new(true);
    c.handle_request(Request::Lock, secs(5));
    let out = c.handle_locker(locker::Response::Activity, secs(500));
    assert_eq!(
        out,
        vec![
            Command::Timer(timer::Request::Reset(TimerEvent::Blank)),
            Command::Timer(timer::Request::Reset(TimerEvent::Idle)),
        ]
    );
    assert_eq!(c.started_at(), Some(secs(5)));
    assert_eq!(c.locked_at(), Some(secs(5)));
}

#[test]
fn activity_wakes_a_blanked_monitor() {
    let mut c = Coordinator::new(true);
    c.handle_timer(fired(TimerEvent::Blank), secs(30));
    assert_eq!(c.blanked_at(), Some(secs(30)));
    let out = c.handle_locker(locker::Response::Activity, secs(40));
    assert_eq!(
        out,
        vec![
            Command::Timer(timer::Request::Reset(TimerEvent::Blank)),
            Command::Locker(locker::Request::Power(true)),
            Command::Timer(timer::Request::Reset(TimerEvent::Idle)),
        ]
    );
    assert_eq!(c.blanked_at(), None);
}

#[test]
fn success_unlocks_and_failure_changes_nothing() {
    let mut c = Coordinator::new(true);
    c.handle_request(Request::Lock, secs(5));
    let locked = seen(&c);
    assert_eq!(c.started_at(), Some(secs(5)));
    assert_eq!(c.locked_at(), Some(secs(5)));

    let out = c.handle_auth(auth::Response::Failure);
    assert_eq!(
        out,
        vec![
            Command::Locker(locker::Request::Auth(false)),
            Command::Signal(Signal::AuthenticationRequest(false)),
        ]
    );
    assert_eq!(seen(&c), locked);

    let out = c.handle_auth(auth::Response::Success);
    assert_eq!(
        out,
        vec![
            Command::Locker(locker::Request::Auth(true)),
            Command::Locker(locker::Request::Stop),
            Command::Timer(timer::Request::Restart),
            Command::Signal(Signal::AuthenticationRequest(false)),
            Command::Signal(Signal::Active(false)),
        ]
    );
    assert_eq!(c.started_at(), None);
    assert_eq!(c.locked_at(), None);
}

#[test]
fn lock_request_starts_then_locks() {
    let mut c = Coordinator::new(true);
    let out = c.handle_request(Request::Lock, secs(9));
    assert_eq!(
        out,
        vec![
            Command::Locker(locker::Request::Start),
            Command::Signal(Signal::Active(true)),
            Command::Locker(locker::Request::Lock),
        ]
    );
    assert_eq!(c.started_at(), Some(secs(9)));
    assert_eq!(c.locked_at(), Some(secs(9)));
}

#[test]
fn lock_request_on_a_shown_saver_only_locks() {
    let mut c = Coordinator::new(true);
    c.handle_request(Request::SetActive(true), secs(2));
    let out = c.handle_request(Request::Lock, secs(9));
    assert_eq!(out, vec![Command::Locker(locker::Request::Lock)]);
    assert_eq!(c.started_at(), Some(secs(2)));
    assert_eq!(c.locked_at(), Some(secs(9)));
}

#[test]
fn lock_request_on_a_locked_session_does_nothing() {
    let mut c = Coordinator::new(true);
    c.handle_request(Request::Lock, secs(2));
    let out = c.handle_request(Request::Lock, secs(9));
    assert_eq!(out, vec![]);
    assert_eq!(c.started_at(), Some(secs(2)));
    assert_eq!(c.locked_at(), Some(secs(2)));
}

#[test]
fn lock_is_never_stamped_before_the_start() {
    // A clock reading that runs backwards does not put the lock before the
    // start.
    let mut c = Coordinator::new(true);
    c.handle_request(Request::SetActive(true), secs(10));
    c.handle_request(Request::Lock, secs(4));
    assert_eq!(c.started_at(), Some(secs(10)));
    assert_eq!(c.locked_at(), Some(secs(10)));
    assert!(consistent(&c));

    let mut c = Coordinator::new(true);
    c.handle_request(Request::SetActive(true), secs(10));
    c.handle_timer(fired(TimerEvent::Lock), secs(4));
    assert_eq!(c.locked_at(), Some(secs(10)));
    assert!(consistent(&c));
}

#[test]
fn cycle_is_ignored() {
    let mut c = Coordinator::new(true);
    let before = seen(&c);
    assert_eq!(c.handle_request(Request::Cycle, secs(1)), vec![]);
    assert_eq!(seen(&c), before);
}

#[test]
fn simulated_activity_is_forwarded_to_the_locker() {
    let mut c = Coordinator::new(true);
    c.handle_request(Request::SetActive(true), secs(1));
    let before = seen(&c);
    let out = c.handle_request(Request::SimulateUserActivity, secs(100));
    assert_eq!(out, vec![Command::Locker(locker::Request::Activity)]);
    assert_eq!(seen(&c), before);
}

#[test]
fn inhibit_answers_with_a_fresh_cookie() {
    let mut c = Coordinator::new(true);
    let mut cookies: Vec<u32> = Vec::new();
    for _ in 0..64 {
        let out = c.handle_request(inhibit(), secs(0));
        match out.as_slice() {
            [Command::Respond(Response::Inhibit(cookie))] => {
                assert!(!cookies.contains(cookie));
                assert!(c.inhibitors().contains(*cookie));
                cookies.push(*cookie);
            }
            other => panic!("unexpected answer {:?}", other),
        }
    }
    assert!(c.throttlers().is_empty());
    assert!(c.suspenders().is_empty());
}

#[test]
fn throttle_and_suspend_keep_their_own_cookies() {
    let mut c = Coordinator::new(true);
    let out = c.handle_request(throttle(), secs(0));
    let t = match out.as_slice() {
        [Command::Respond(Response::Throttle(cookie))] => *cookie,
        other => panic!("unexpected answer {:?}", other),
    };
    let out = c.handle_request(suspend(), secs(0));
    let s = match out.as_slice() {
        [Command::Respond(Response::Suspend(cookie))] => *cookie,
        other => panic!("unexpected answer {:?}", other),
    };
    assert!(c.throttlers().contains(t));
    assert!(c.suspenders().contains(s));
    assert!(c.inhibitors().is_empty());

    // A throttle does not hold the saver off.
    let out = c.handle_timer(fired(TimerEvent::Start), secs(10));
    assert_eq!(
        out,
        vec![Command::Locker(locker::Request::Start), Command::Signal(Signal::Active(true))]
    );

    assert_eq!(c.handle_request(Request::UnThrottle(t), secs(11)), vec![]);
    assert_eq!(c.handle_request(Request::Resume(s), secs(11)), vec![]);
    assert!(c.throttlers().is_empty());
    assert!(c.suspenders().is_empty());
}

#[test]
fn released_cookie_is_absent() {
    let mut c = Coordinator::new(true);
    let cookie = cookie_in(&c.handle_request(inhibit(), secs(0)));
    assert!(c.inhibitors().contains(cookie));
    assert_eq!(c.handle_request(Request::UnInhibit(cookie), secs(1)), vec![]);
    assert!(!c.inhibitors().contains(cookie));
    assert!(c.inhibitors().is_empty());

    let cookie = cookie_in(&c.handle_request(throttle(), secs(2)));
    assert_eq!(c.handle_request(Request::UnThrottle(cookie), secs(3)), vec![]);
    assert!(!c.throttlers().contains(cookie));
}

#[test]
fn unmatched_release_is_a_no_op() {
    let mut c = Coordinator::new(true);
    let held = cookie_in(&c.handle_request(inhibit(), secs(0)));
    let other = held.wrapping_add(1);
    let before = seen(&c);
    assert_eq!(c.handle_request(Request::UnInhibit(other), secs(1)), vec![]);
    assert_eq!(c.handle_request(Request::UnThrottle(held), secs(1)), vec![]);
    assert_eq!(c.handle_request(Request::Resume(held), secs(1)), vec![]);
    assert_eq!(seen(&c), before);
    assert!(c.inhibitors().contains(held));
    assert!(!c.inhibitors().contains(other));
    // A second release of the same cookie is a no-op too.
    assert_eq!(c.handle_request(Request::UnInhibit(held), secs(2)), vec![]);
    let released = seen(&c);
    assert_eq!(c.handle_request(Request::UnInhibit(held), secs(3)), vec![]);
    assert_eq!(seen(&c), released);
}

#[test]
fn set_active_ignores_inhibitors() {
    let mut c = Coordinator::new(true);
    c.handle_request(inhibit(), secs(0));
    let out = c.handle_request(Request::SetActive(true), secs(1));
    assert_eq!(
        out,
        vec![Command::Locker(locker::Request::Start), Command::Signal(Signal::Active(true))]
    );
    assert_eq!(c.started_at(), Some(secs(1)));
    // Once shown, showing again does nothing.
    assert_eq!(c.handle_request(Request::SetActive(true), secs(2)), vec![]);
    assert_eq!(c.started_at(), Some(secs(1)));
}

#[test]
fn set_inactive_stops_an_unlocked_saver_only() {
    let mut c = Coordinator::new(true);
    assert_eq!(c.handle_request(Request::SetActive(false), secs(0)), vec![]);

    c.handle_request(Request::SetActive(true), secs(1));
    let out = c.handle_request(Request::SetActive(false), secs(1));
    assert_eq!(
        out,
        vec![Command::Locker(locker::Request::Stop), Command::Signal(Signal::Active(false))]
    );
    assert_eq!(c.started_at(), None);

    c.handle_request(Request::Lock, secs(2));
    assert_eq!(c.handle_request(Request::SetActive(false), secs(3)), vec![]);
    assert_eq!(c.started_at(), Some(secs(2)));
    assert_eq!(c.locked_at(), Some(secs(2)));
}

#[test]
fn get_active_follows_set_active() {
    for active in [true, false] {
        for shown_before in [true, false] {
            let mut c = Coordinator::new(true);
            if shown_before {
                c.handle_request(Request::SetActive(true), secs(0));
            }
            c.handle_request(Request::SetActive(active), secs(1));
            let before = seen(&c);
            let out = c.handle_request(Request::GetActive, secs(1));
            assert_eq!(out, vec![Command::Respond(Response::Active(active))]);
            assert_eq!(seen(&c), before);
        }
    }
}

#[test]
fn a_locked_session_stays_active() {
    let mut c = Coordinator::new(true);
    c.handle_request(Request::Lock, secs(0));
    c.handle_request(Request::SetActive(false), secs(1));
    let out = c.handle_request(Request::GetActive, secs(1));
    assert_eq!(out, vec![Command::Respond(Response::Active(true))]);
}

#[test]
fn time_queries_ask_the_timer() {
    let mut c = Coordinator::new(true);
    let before = seen(&c);
    assert_eq!((GET_ACTIVE_TIME, GET_SESSION_IDLE, GET_SESSION_IDLE_TIME), (1, 2, 3));
    assert_eq!(
        c.handle_request(Request::GetActiveTime, secs(1)),
        vec![Command::Timer(timer::Request::Report(GET_ACTIVE_TIME))]
    );
    assert_eq!(
        c.handle_request(Request::GetSessionIdle, secs(1)),
        vec![Command::Timer(timer::Request::Report(GET_SESSION_IDLE))]
    );
    assert_eq!(
        c.handle_request(Request::GetSessionIdleTime, secs(1)),
        vec![Command::Timer(timer::Request::Report(GET_SESSION_IDLE_TIME))]
    );
    assert_eq!(seen(&c), before);
}

#[test]
fn reports_are_projected_by_id() {
    let mut c = Coordinator::new(true);
    let before = seen(&c);
    let report = |id: u64, started_at: Option<Moment>| {
        timer::Response::Report(Report { id, started_at, idle_since: secs(100) })
    };
    let now = millis(107_900);
    assert_eq!(
        c.handle_timer(report(GET_ACTIVE_TIME, Some(secs(103))), now),
        vec![Command::Respond(Response::ActiveTime(4))]
    );
    assert_eq!(
        c.handle_timer(report(GET_ACTIVE_TIME, None), now),
        vec![Command::Respond(Response::ActiveTime(0))]
    );
    assert_eq!(
        c.handle_timer(report(GET_SESSION_IDLE, None), now),
        vec![Command::Respond(Response::SessionIdle(true))]
    );
    assert_eq!(
        c.handle_timer(report(GET_SESSION_IDLE_TIME, None), now),
        vec![Command::Respond(Response::SessionIdleTime(7))]
    );
    // An id that no query uses is dropped.
    assert_eq!(c.handle_timer(report(0, Some(secs(103))), now), vec![]);
    assert_eq!(c.handle_timer(report(4, Some(secs(103))), now), vec![]);
    assert_eq!(seen(&c), before);
}

#[test]
fn session_is_idle_from_five_seconds_on() {
    assert_eq!(SESSION_IDLE_AFTER, 5);
    let mut c = Coordinator::new(true);
    let report =
        timer::Response::Report(Report { id: GET_SESSION_IDLE, started_at: None, idle_since: secs(10) });
    assert_eq!(
        c.handle_timer(report, millis(14_999)),
        vec![Command::Respond(Response::SessionIdle(false))]
    );
    assert_eq!(
        c.handle_timer(report, secs(15)),
        vec![Command::Respond(Response::SessionIdle(true))]
    );
}

#[test]
fn sleep_notice_locks_the_session() {
    let mut c = Coordinator::new(true);
    c.handle_request(inhibit(), secs(0));
    let notice = std::time::SystemTime::now();
    let out = c.handle_request(Request::PrepareForSleep(Some(notice)), secs(3));
    assert_eq!(
        out,
        vec![
            Command::Locker(locker::Request::Start),
            Command::Signal(Signal::Active(true)),
            Command::Locker(locker::Request::Lock),
        ]
    );
    assert_eq!(c.started_at(), Some(secs(3)));
    assert_eq!(c.locked_at(), Some(secs(3)));
}

#[test]
fn waking_resets_deadlines_and_powers_up() {
    let mut c = Coordinator::new(true);
    let out = c.handle_request(Request::PrepareForSleep(None), secs(3));
    assert_eq!(
        out,
        vec![
            Command::Timer(timer::Request::Reset(TimerEvent::Idle)),
            Command::Timer(timer::Request::Reset(TimerEvent::Blank)),
        ]
    );

    c.handle_request(Request::Lock, secs(4));
    c.handle_timer(fired(TimerEvent::Blank), secs(5));
    assert_eq!(c.blanked_at(), Some(secs(5)));
    let out = c.handle_request(Request::PrepareForSleep(None), secs(6));
    assert_eq!(
        out,
        vec![
            Command::Timer(timer::Request::Reset(TimerEvent::Idle)),
            Command::Timer(timer::Request::Reset(TimerEvent::Blank)),
            Command::Locker(locker::Request::Power(true)),
        ]
    );
    assert_eq!(c.blanked_at(), None);
    assert_eq!(c.locked_at(), Some(secs(4)));
}

#[test]
fn heartbeat_sanitizes_the_display() {
    let mut c = Coordinator::new(true);
    let before = seen(&c);
    let out = c.handle_timer(fired(TimerEvent::Heartbeat), secs(1));
    assert_eq!(out, vec![Command::Locker(locker::Request::Sanitize)]);
    assert_eq!(seen(&c), before);
}

#[test]
fn idle_firing_means_nothing() {
    let mut c = Coordinator::new(true);
    let before = seen(&c);
    assert_eq!(c.handle_timer(fired(TimerEvent::Idle), secs(1)), vec![]);
    assert_eq!(seen(&c), before);
}

#[test]
fn timer_start_shows_the_saver_once() {
    let mut c = Coordinator::new(true);
    let out = c.handle_timer(fired(TimerEvent::Start), secs(60));
    assert_eq!(
        out,
        vec![Command::Locker(locker::Request::Start), Command::Signal(Signal::Active(true))]
    );
    assert_eq!(c.started_at(), Some(secs(60)));
    // A second firing while the saver is shown leaves it as it is.
    assert_eq!(c.handle_timer(fired(TimerEvent::Start), secs(120)), vec![]);
    assert_eq!(c.started_at(), Some(secs(60)));
}

#[test]
fn inhibitors_defer_start_and_blank() {
    let mut c = Coordinator::new(true);
    c.handle_request(inhibit(), secs(0));
    let before = seen(&c);
    assert_eq!(
        c.handle_timer(fired(TimerEvent::Start), secs(10)),
        vec![Command::Timer(timer::Request::Reset(TimerEvent::Idle))]
    );
    assert_eq!(
        c.handle_timer(fired(TimerEvent::Blank), secs(10)),
        vec![Command::Timer(timer::Request::Reset(TimerEvent::Blank))]
    );
    assert_eq!(seen(&c), before);
    assert_eq!(c.started_at(), None);
    assert_eq!(c.blanked_at(), None);
}

#[test]
fn timer_lock_locks_a_shown_saver_despite_inhibitors() {
    let mut c = Coordinator::new(true);
    c.handle_request(inhibit(), secs(0));
    c.handle_request(Request::SetActive(true), secs(1));
    let out = c.handle_timer(fired(TimerEvent::Lock), secs(6));
    assert_eq!(out, vec![Command::Locker(locker::Request::Lock)]);
    assert_eq!(c.locked_at(), Some(secs(6)));
}

#[test]
fn timer_lock_without_a_saver_is_ignored() {
    let mut c = Coordinator::new(true);
    let before = seen(&c);
    assert_eq!(c.handle_timer(fired(TimerEvent::Lock), secs(6)), vec![]);
    assert_eq!(seen(&c), before);
    assert_eq!(c.locked_at(), None);
}

#[test]
fn blank_needs_a_display_that_can_power_down() {
    let mut with = Coordinator::new(true);
    assert_eq!(
        with.handle_timer(fired(TimerEvent::Blank), secs(30)),
        vec![Command::Locker(locker::Request::Power(false))]
    );
    assert_eq!(with.blanked_at(), Some(secs(30)));

    let mut without = Coordinator::new(false);
    assert_eq!(without.handle_timer(fired(TimerEvent::Blank), secs(30)), vec![]);
    assert_eq!(without.blanked_at(), None);
}

#[test]
fn accepts_says_whether_a_cookie_is_left() {
    let c = Coordinator::new(true);
    assert!(c.accepts(&Input::Server(inhibit())));
    assert!(c.accepts(&Input::Server(throttle())));
    assert!(c.accepts(&Input::Server(suspend())));
    assert!(c.accepts(&Input::Server(Request::Lock)));
    assert!(c.accepts(&Input::Auth(auth::Response::Success)));
    assert!(c.accepts(&Input::Locker(locker::Response::Activity)));
    assert!(c.accepts(&Input::Timer(fired(TimerEvent::Start))));
}

#[test]
fn handle_routes_each_source() {
    let mut c = Coordinator::new(true);
    assert_eq!(
        c.handle(Input::Timer(fired(TimerEvent::Start)), secs(60)),
        vec![Command::Locker(locker::Request::Start), Command::Signal(Signal::Active(true))]
    );
    assert_eq!(
        c.handle(Input::Server(Request::GetActive), secs(61)),
        vec![Command::Respond(Response::Active(true))]
    );
    assert_eq!(
        c.handle(Input::Locker(locker::Response::Password(String::from("pw"))), secs(62)),
        vec![
            Command::Auth(auth::Request::Authenticate(String::from("pw"))),
            Command::Signal(Signal::AuthenticationRequest(true)),
        ]
    );
    assert_eq!(
        c.handle(Input::Auth(auth::Response::Failure), secs(63)),
        vec![
            Command::Locker(locker::Request::Auth(false)),
            Command::Signal(Signal::AuthenticationRequest(false)),
        ]
    );
    let out = c.handle(Input::Server(inhibit()), secs(64));
    let cookie = cookie_in(&out);
    assert!(c.inhibitors().contains(cookie));
}

#[test]
fn state_stays_consistent_under_any_inputs() {
    // A fixed but arbitrary walk through all kinds of input, with a clock
    // that also jumps backwards.
    let mut seed: u64 = 0x2545_f491_4f6c_dd1d;
    let mut next = move || {
        seed ^= seed << 13;
        seed ^= seed >> 7;
        seed ^= seed << 17;
        seed
    };
    for dpms in [false, true] {
        let mut c = Coordinator::new(dpms);
        let mut held: Vec<u32> = Vec::new();
        for _ in 0..4_000 {
            let now = millis(next() % 100_000);
            let input = match next() % 18 {
                0 => Input::Locker(locker::Response::Activity),
                1 => Input::Locker(locker::Response::Password(String::from("x"))),
                2 => Input::Auth(auth::Response::Success),
                3 => Input::Auth(auth::Response::Failure),
                4 => Input::Server(Request::Lock),
                5 => Input::Server(Request::SetActive(true)),
                6 => Input::Server(Request::SetActive(false)),
                7 => Input::Server(inhibit()),
                8 => Input::Server(Request::UnInhibit(held.pop().unwrap_or(9))),
                9 => Input::Server(Request::PrepareForSleep(Some(std::time::SystemTime::now()))),
                10 => Input::Server(Request::PrepareForSleep(None)),
                11 => Input::Timer(fired(TimerEvent::Start)),
                12 => Input::Timer(fired(TimerEvent::Lock)),
                13 => Input::Timer(fired(TimerEvent::Blank)),
                14 => Input::Timer(fired(TimerEvent::Heartbeat)),
                15 => Input::Server(Request::SimulateUserActivity),
                16 => Input::Server(Request::GetActive),
                _ => Input::Timer(fired(TimerEvent::Idle)),
            };
            assert!(c.accepts(&input));
            let inhibited = !c.inhibitors().is_empty();
            let from_timer = matches!(input, Input::Timer(_));
            let (started, blanked) = (c.started_at(), c.blanked_at());
            let out = c.handle(input, now);
            if let [Command::Respond(Response::Inhibit(cookie))] = out.as_slice() {
                assert!(!held.contains(cookie));
                held.push(*cookie);
            }
            assert!(consistent(&c));
            assert_eq!(c.dpms(), dpms);
            if inhibited && from_timer {
                assert!(started.is_some() || c.started_at().is_none());
                assert!(blanked.is_some() || c.blanked_at().is_none());
            }
        }
    }
}
