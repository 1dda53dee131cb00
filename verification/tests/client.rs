use screenruster::client::{message, Action, Arguments, Outgoing, REPLY_TIMEOUT};
use screenruster::server::dispatch::{Interface, Method};

fn origin() -> Arguments {
    Arguments::Origin { application: "screenruster", reason: "requested by user" }
}

#[test]
fn actions_map_to_method_calls() {
    assert_eq!(REPLY_TIMEOUT, 5_000);
    let expected = vec![
        (Action::Lock, Method::Lock, Arguments::Nothing, None),
        (Action::Activate, Method::SetActive, Arguments::Active(true), None),
        (Action::Deactivate, Method::SimulateUserActivity, Arguments::Nothing, None),
        (Action::Inhibit, Method::Inhibit, origin(), Some(5_000)),
        (Action::UnInhibit(42), Method::UnInhibit, Arguments::Cookie(42), None),
        (Action::Throttle, Method::Throttle, origin(), Some(5_000)),
        (Action::UnThrottle(u32::MAX), Method::UnThrottle, Arguments::Cookie(u32::MAX), None),
    ];
    for (action, method, arguments, wait) in expected {
        assert_eq!(
            message(action),
            Outgoing { interface: Interface::Compat, method, arguments, wait }
        );
    }
}

#[test]
fn every_action_calls_the_compat_interface() {
    for action in [
        Action::Lock,
        Action::Activate,
        Action::Deactivate,
        Action::Inhibit,
        Action::UnInhibit(0),
        Action::Throttle,
        Action::UnThrottle(0),
    ] {
        let outgoing = message(action);
        assert_eq!(outgoing.interface.name(), "org.gnome.ScreenSaver");
        assert_eq!(outgoing.interface.path(), "/org/gnome/ScreenSaver");
        assert_eq!(outgoing.method.interface(), Interface::Compat);
    }
}
