use screenruster::server::{Request, Response, Server, Signal};
use std::sync::mpsc::channel;

#[test]
fn responses_and_signals_reach_the_other_end() {
    let (_requests, receiver) = channel::<Request>();
    let (sender, responses) = channel::<Response>();
    let (signals, broadcast) = channel::<Signal>();
    let server = Server::new(receiver, sender, signals);

    assert!(server.response(Response::Inhibit(7)).is_ok());
    assert!(server.response(Response::Active(true)).is_ok());
    assert!(server.signal(Signal::Active(true)).is_ok());
    assert!(server.signal(Signal::AuthenticationRequest(false)).is_ok());

    // In the order in which they were sent.
    assert_eq!(responses.try_recv(), Ok(Response::Inhibit(7)));
    assert_eq!(responses.try_recv(), Ok(Response::Active(true)));
    assert!(responses.try_recv().is_err());
    assert_eq!(broadcast.try_recv(), Ok(Signal::Active(true)));
    assert_eq!(broadcast.try_recv(), Ok(Signal::AuthenticationRequest(false)));
    assert!(broadcast.try_recv().is_err());
}

#[test]
fn a_failed_send_hands_the_message_back() {
    let (_requests, receiver) = channel::<Request>();
    let (sender, responses) = channel::<Response>();
    let (signals, broadcast) = channel::<Signal>();
    let server = Server::new(receiver, sender, signals);
    drop(responses);
    drop(broadcast);

    match server.response(Response::SessionIdleTime(9)) {
        Err(refused) => assert_eq!(refused.0, Response::SessionIdleTime(9)),
        Ok(()) => panic!("sent to nobody"),
    }
    match server.signal(Signal::SessionIdle(true)) {
        Err(refused) => assert_eq!(refused.0, Signal::SessionIdle(true)),
        Ok(()) => panic!("sent to nobody"),
    }
}

#[test]
fn requests_arrive_through_the_receiver() {
    let (requests, receiver) = channel::<Request>();
    let (sender, _responses) = channel::<Response>();
    let (signals, _broadcast) = channel::<Signal>();
    let server = Server::new(receiver, sender, signals);

    requests.send(Request::Lock).unwrap();
    requests.send(Request::UnInhibit(3)).unwrap();
    assert_eq!(server.receiver().try_recv(), Ok(Request::Lock));
    assert_eq!(server.receiver().try_recv(), Ok(Request::UnInhibit(3)));
    assert!(server.receiver().try_recv().is_err());
}
