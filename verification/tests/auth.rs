use screenruster::auth::{Response, Verdict};

#[test]
fn only_an_accepted_secret_succeeds() {
    assert_eq!(Response::of(Verdict::Accepted), Response::Success);
    assert_eq!(Response::of(Verdict::Rejected), Response::Failure);
}

#[test]
fn an_unavailable_service_is_a_failure() {
    assert_eq!(Response::of(Verdict::Unavailable), Response::Failure);
}
