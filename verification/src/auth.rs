//! The authenticator as the coordinator sees it: the worker that checks a
//! secret against the system's identity service.

use vstd::prelude::*;

verus! {

/// What the coordinator asks of the authenticator.
#[derive(Debug, PartialEq, Eq)]
pub enum Request {
    /// Check this secret.
    Authenticate(String),
}

/// The authenticator's answer to one request.
#[derive(Debug, Clone, Copy, PartialEq, Eq, Structural)]
pub enum Response {
    /// The secret was accepted.
    Success,
    /// The secret was refused, or could not be checked.
    Failure,
}

/// What the identity service said of one secret.
#[derive(Debug, Clone, Copy, PartialEq, Eq, Structural)]
pub enum Verdict {
    /// The secret is the user's.
    Accepted,
    /// The secret is not the user's.
    Rejected,
    /// The service could not be asked.
    Unavailable,
}

/// The answer that a verdict amounts to: success when the secret was
/// accepted, failure when it was rejected and also when the service could
/// not be asked.
pub open spec fn answer_to(verdict: Verdict) -> Response {
    if verdict == Verdict::Accepted {
        Response::Success
    } else {
        Response::Failure
    }
}

impl Response {
    /// The answer to send to the coordinator for one request, given what
    /// the identity service said.
    pub fn of(verdict: Verdict) -> (response: Response)
        ensures
            response == answer_to(verdict),
    {
        match verdict {
            Verdict::Accepted => Response::Success,
            Verdict::Rejected | Verdict::Unavailable => Response::Failure,
        }
    }
}

} // verus!
