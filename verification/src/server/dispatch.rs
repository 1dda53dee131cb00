//! What the bus dispatcher decides: which request a method call becomes or
//! why it is refused, which response the caller then waits for and what it
//! is handed, how a signal goes out on the bus, and whether the bus names
//! were acquired.
//!
//! The bus threads decode messages into the plain values used here and
//! encode what comes back; nothing in this module touches the bus.

use crate::error::DBus;
use crate::server::{Request, Response, Signal};
use std::time::SystemTime;
use vstd::prelude::*;

verus! {

/// The two interfaces that the daemon publishes on the session bus.
#[derive(Debug, Clone, Copy, PartialEq, Eq, Structural)]
pub enum Interface {
    /// The screensaver interface that generic desktop clients speak.
    Compat,
    /// The daemon's own interface.
    Native,
}

/// The families of methods that the configuration can switch off.
#[derive(Debug, Clone, Copy, PartialEq, Eq, Structural)]
pub enum Family {
    Inhibit,
    Throttle,
    Suspend,
}

/// The methods that the daemon publishes.
#[derive(Debug, Clone, Copy, PartialEq, Eq, Structural)]
pub enum Method {
    Lock,
    Cycle,
    SimulateUserActivity,
    Inhibit,
    UnInhibit,
    Throttle,
    UnThrottle,
    SetActive,
    GetActive,
    GetActiveTime,
    GetSessionIdle,
    GetSessionIdleTime,
    Suspend,
    Resume,
}

/// The types of the values that methods take and hand back.
#[derive(Debug, Clone, Copy, PartialEq, Eq, Structural)]
pub enum Type {
    /// A string.
    Text,
    /// A cookie: an unsigned integer of 32 bits.
    Cookie,
    /// A boolean.
    Flag,
    /// A count of seconds: an unsigned integer of 64 bits.
    Seconds,
}

/// One argument or result in a method's declaration: its type, and its name
/// where the declaration gives one.
#[derive(Debug, Clone, Copy, PartialEq, Eq)]
pub struct Parameter {
    pub name: Option<&'static str>,
    pub kind: Type,
}

impl View for Parameter {
    type V = Declared;

    open spec fn view(&self) -> Declared {
        Declared {
            name: match self.name {
                Some(name) => Some(name@),
                None => None,
            },
            kind: self.kind,
        }
    }
}

/// A method call as it was decoded from the bus. An argument that the
/// message lacks, or holds with another type, is `None`.
#[derive(Debug, PartialEq, Eq)]
pub enum Call {
    Lock,
    Cycle,
    SimulateUserActivity,
    Inhibit { application: Option<String>, reason: Option<String> },
    UnInhibit { cookie: Option<u32> },
    Throttle { application: Option<String>, reason: Option<String> },
    UnThrottle { cookie: Option<u32> },
    SetActive { active: Option<bool> },
    GetActive,
    GetActiveTime,
    GetSessionIdle,
    GetSessionIdleTime,
    Suspend { application: Option<String>, reason: Option<String> },
    Resume { cookie: Option<u32> },
}

/// Why a method call is refused.
#[derive(Debug, Clone, Copy, PartialEq, Eq, Structural)]
pub enum MethodError {
    /// The method's family is switched off.
    Ignored(Family),
    /// An argument is missing.
    NoArg,
}

/// The kinds of response, one for each method that hands data back.
#[derive(Debug, Clone, Copy, PartialEq, Eq, Structural)]
pub enum Kind {
    Inhibit,
    Throttle,
    Suspend,
    Active,
    ActiveTime,
    SessionIdle,
    SessionIdleTime,
}

/// The one value that a method hands back to its caller.
#[derive(Debug, Clone, Copy, PartialEq, Eq, Structural)]
pub enum Payload {
    Cookie(u32),
    Flag(bool),
    Seconds(u64),
}

/// A signal as it goes out on the bus: the member's name and the one
/// argument, if the signal has one.
#[derive(Debug, Clone, Copy, PartialEq, Eq)]
pub struct Broadcast {
    pub member: &'static str,
    pub status: Option<bool>,
}

/// The families that the configuration switches off.
#[derive(Debug, Clone, Copy, PartialEq, Eq, Structural)]
pub struct Ignore {
    pub inhibit: bool,
    pub throttle: bool,
    pub suspend: bool,
}

/// How the bus answers a request for a name.
#[derive(Debug, Clone, Copy, PartialEq, Eq, Structural)]
pub enum NameReply {
    /// The name is now the caller's.
    PrimaryOwner,
    /// The caller waits in the queue for the name.
    InQueue,
    /// Another process owns the name and the caller did not ask to queue.
    Exists,
    /// The name was the caller's already.
    AlreadyOwner,
}

/// The name of an interface on the bus.
pub open spec fn interface_name(interface: Interface) -> Seq<char> {
    match interface {
        Interface::Compat => "org.gnome.ScreenSaver"@,
        Interface::Native => "meh.rust.ScreenSaver"@,
    }
}

/// The object path at which an interface is published.
pub open spec fn interface_path(interface: Interface) -> Seq<char> {
    match interface {
        Interface::Compat => "/org/gnome/ScreenSaver"@,
        Interface::Native => "/meh/rust/ScreenSaver"@,
    }
}

/// The name of a method on the bus.
pub open spec fn method_name(method: Method) -> Seq<char> {
    match method {
        Method::Lock => "Lock"@,
        Method::Cycle => "Cycle"@,
        Method::SimulateUserActivity => "SimulateUserActivity"@,
        Method::Inhibit => "Inhibit"@,
        Method::UnInhibit => "UnInhibit"@,
        Method::Throttle => "Throttle"@,
        Method::UnThrottle => "UnThrottle"@,
        Method::SetActive => "SetActive"@,
        Method::GetActive => "GetActive"@,
        Method::GetActiveTime => "GetActiveTime"@,
        Method::GetSessionIdle => "GetSessionIdle"@,
        Method::GetSessionIdleTime => "GetSessionIdleTime"@,
        Method::Suspend => "Suspend"@,
        Method::Resume => "Resume"@,
    }
}

/// The interface that publishes a method.
pub open spec fn interface_of(method: Method) -> Interface {
    match method {
        Method::Suspend | Method::Resume => Interface::Native,
        _ => Interface::Compat,
    }
}

/// The family that a method belongs to, if it belongs to one.
pub open spec fn family_of(method: Method) -> Option<Family> {
    match method {
        Method::Inhibit | Method::UnInhibit => Some(Family::Inhibit),
        Method::Throttle | Method::UnThrottle => Some(Family::Throttle),
        Method::Suspend | Method::Resume => Some(Family::Suspend),
        _ => None,
    }
}

/// The kind of response that a method's caller waits for, if it waits.
pub open spec fn awaited_by(method: Method) -> Option<Kind> {
    match method {
        Method::Inhibit => Some(Kind::Inhibit),
        Method::Throttle => Some(Kind::Throttle),
        Method::Suspend => Some(Kind::Suspend),
        Method::GetActive => Some(Kind::Active),
        Method::GetActiveTime => Some(Kind::ActiveTime),
        Method::GetSessionIdle => Some(Kind::SessionIdle),
        Method::GetSessionIdleTime => Some(Kind::SessionIdleTime),
        _ => None,
    }
}

/// One argument or result in a method's declaration, as a value of
/// specifications.
pub struct Declared {
    pub name: Option<Seq<char>>,
    pub kind: Type,
}

/// The arguments that a method declares, in order. The pair of strings
/// that says who asks and why goes unnamed.
pub open spec fn declared_arguments(method: Method) -> Seq<Declared> {
    match method {
        Method::Inhibit | Method::Throttle | Method::Suspend => seq![
            Declared { name: None, kind: Type::Text },
            Declared { name: None, kind: Type::Text },
        ],
        Method::UnInhibit | Method::UnThrottle | Method::Resume => seq![
            Declared { name: Some("cookie"@), kind: Type::Cookie },
        ],
        Method::SetActive => seq![Declared { name: Some("active"@), kind: Type::Flag }],
        _ => seq![],
    }
}

/// The result that a method declares, if it hands a value back. A cookie
/// goes unnamed.
pub open spec fn declared_result(method: Method) -> Option<Declared> {
    match method {
        Method::Inhibit | Method::Throttle | Method::Suspend => Some(
            Declared { name: None, kind: Type::Cookie },
        ),
        Method::GetActive => Some(Declared { name: Some("active"@), kind: Type::Flag }),
        Method::GetActiveTime => Some(Declared { name: Some("time"@), kind: Type::Seconds }),
        Method::GetSessionIdle => Some(Declared { name: Some("idle"@), kind: Type::Flag }),
        Method::GetSessionIdleTime => Some(Declared { name: Some("time"@), kind: Type::Seconds }),
        _ => None,
    }
}

/// The type of the value that a method hands back, if it hands one back.
pub open spec fn result_type(method: Method) -> Option<Type> {
    match declared_result(method) {
        Some(declared) => Some(declared.kind),
        None => None,
    }
}

/// The type of a payload.
pub open spec fn payload_type(payload: Payload) -> Type {
    match payload {
        Payload::Cookie(_) => Type::Cookie,
        Payload::Flag(_) => Type::Flag,
        Payload::Seconds(_) => Type::Seconds,
    }
}

/// The methods that the daemon publishes, in the order in which it
/// declares them.
pub open spec fn published() -> Seq<Method> {
    seq![
        Method::Suspend,
        Method::Resume,
        Method::Lock,
        Method::Cycle,
        Method::SimulateUserActivity,
        Method::Inhibit,
        Method::UnInhibit,
        Method::Throttle,
        Method::UnThrottle,
        Method::SetActive,
        Method::GetActive,
        Method::GetActiveTime,
        Method::GetSessionIdle,
        Method::GetSessionIdleTime,
    ]
}

/// The method that was called.
pub open spec fn method_of(call: Call) -> Method {
    match call {
        Call::Lock => Method::Lock,
        Call::Cycle => Method::Cycle,
        Call::SimulateUserActivity => Method::SimulateUserActivity,
        Call::Inhibit { .. } => Method::Inhibit,
        Call::UnInhibit { .. } => Method::UnInhibit,
        Call::Throttle { .. } => Method::Throttle,
        Call::UnThrottle { .. } => Method::UnThrottle,
        Call::SetActive { .. } => Method::SetActive,
        Call::GetActive => Method::GetActive,
        Call::GetActiveTime => Method::GetActiveTime,
        Call::GetSessionIdle => Method::GetSessionIdle,
        Call::GetSessionIdleTime => Method::GetSessionIdleTime,
        Call::Suspend { .. } => Method::Suspend,
        Call::Resume { .. } => Method::Resume,
    }
}

/// The request that a call stands for, if all its arguments are there.
pub open spec fn request_of(call: Call) -> Option<Request> {
    match call {
        Call::Lock => Some(Request::Lock),
        Call::Cycle => Some(Request::Cycle),
        Call::SimulateUserActivity => Some(Request::SimulateUserActivity),
        Call::Inhibit { application: Some(application), reason: Some(reason) } => Some(
            Request::Inhibit { application, reason },
        ),
        Call::UnInhibit { cookie: Some(cookie) } => Some(Request::UnInhibit(cookie)),
        Call::Throttle { application: Some(application), reason: Some(reason) } => Some(
            Request::Throttle { application, reason },
        ),
        Call::UnThrottle { cookie: Some(cookie) } => Some(Request::UnThrottle(cookie)),
        Call::SetActive { active: Some(active) } => Some(Request::SetActive(active)),
        Call::GetActive => Some(Request::GetActive),
        Call::GetActiveTime => Some(Request::GetActiveTime),
        Call::GetSessionIdle => Some(Request::GetSessionIdle),
        Call::GetSessionIdleTime => Some(Request::GetSessionIdleTime),
        Call::Suspend { application: Some(application), reason: Some(reason) } => Some(
            Request::Suspend { application, reason },
        ),
        Call::Resume { cookie: Some(cookie) } => Some(Request::Resume(cookie)),
        _ => None,
    }
}

/// Whether `ignore` switches `family` off.
pub open spec fn ignores(ignore: Ignore, family: Family) -> bool {
    match family {
        Family::Inhibit => ignore.inhibit,
        Family::Throttle => ignore.throttle,
        Family::Suspend => ignore.suspend,
    }
}

/// What becomes of a call: it is refused if its family is switched off,
/// whatever its arguments; else refused if an argument is missing; else it
/// is the request it stands for.
pub open spec fn dispatched(call: Call, ignore: Ignore) -> Result<Request, MethodError> {
    match family_of(method_of(call)) {
        Some(family) if ignores(ignore, family) => Err(MethodError::Ignored(family)),
        _ => match request_of(call) {
            Some(request) => Ok(request),
            None => Err(MethodError::NoArg),
        },
    }
}

/// The kind of response that the caller behind a request waits for, if it
/// waits.
pub open spec fn awaited(request: Request) -> Option<Kind> {
    match request {
        Request::Inhibit { .. } => Some(Kind::Inhibit),
        Request::Throttle { .. } => Some(Kind::Throttle),
        Request::Suspend { .. } => Some(Kind::Suspend),
        Request::GetActive => Some(Kind::Active),
        Request::GetActiveTime => Some(Kind::ActiveTime),
        Request::GetSessionIdle => Some(Kind::SessionIdle),
        Request::GetSessionIdleTime => Some(Kind::SessionIdleTime),
        _ => None,
    }
}

/// The kind of a response.
pub open spec fn kind_of(response: Response) -> Kind {
    match response {
        Response::Inhibit(_) => Kind::Inhibit,
        Response::Throttle(_) => Kind::Throttle,
        Response::Suspend(_) => Kind::Suspend,
        Response::Active(_) => Kind::Active,
        Response::ActiveTime(_) => Kind::ActiveTime,
        Response::SessionIdle(_) => Kind::SessionIdle,
        Response::SessionIdleTime(_) => Kind::SessionIdleTime,
    }
}

/// The value that a response carries.
pub open spec fn payload_of(response: Response) -> Payload {
    match response {
        Response::Inhibit(cookie) => Payload::Cookie(cookie),
        Response::Throttle(cookie) => Payload::Cookie(cookie),
        Response::Suspend(cookie) => Payload::Cookie(cookie),
        Response::Active(status) => Payload::Flag(status),
        Response::ActiveTime(seconds) => Payload::Seconds(seconds),
        Response::SessionIdle(status) => Payload::Flag(status),
        Response::SessionIdleTime(seconds) => Payload::Seconds(seconds),
    }
}

/// The member under which a signal goes out.
pub open spec fn signal_member(signal: Signal) -> Seq<char> {
    match signal {
        Signal::Active(_) => "ActiveChanged"@,
        Signal::SessionIdle(_) => "SessionIdleChanged"@,
        Signal::AuthenticationRequest(true) => "AuthenticationRequestBegin"@,
        Signal::AuthenticationRequest(false) => "AuthenticationRequestEnd"@,
    }
}

/// The argument with which a signal goes out, if it has one.
pub open spec fn signal_status(signal: Signal) -> Option<bool> {
    match signal {
        Signal::Active(status) => Some(status),
        Signal::SessionIdle(status) => Some(status),
        Signal::AuthenticationRequest(_) => None,
    }
}

/// The words in which a call to a switched-off family is refused. The
/// throttle family answers in the words of the inhibit family.
pub open spec fn refusal_text(family: Family) -> Seq<char> {
    match family {
        Family::Inhibit => "Inhibit is ignored"@,
        Family::Throttle => "Inhibit is ignored"@,
        Family::Suspend => "Suspend is ignored"@,
    }
}

/// The name of a family in the configuration.
pub open spec fn family_name(family: Family) -> Seq<char> {
    match family {
        Family::Inhibit => "inhibit"@,
        Family::Throttle => "throttle"@,
        Family::Suspend => "suspend"@,
    }
}

/// Whether one of `names` is the configuration's name of `family`.
pub open spec fn names_family(names: Seq<String>, family: Family) -> bool {
    exists|i: int| 0 <= i < names.len() && #[trigger] names[i]@ == family_name(family)
}

/// The interface that announces an imminent sleep on the system bus.
pub open spec fn sleep_interface() -> Seq<char> {
    "org.freedesktop.login1.Manager"@
}

/// The member that announces an imminent sleep on the system bus.
pub open spec fn sleep_member() -> Seq<char> {
    "PrepareForSleep"@
}

/// The match rule that selects the sleep announcement on the system bus.
pub open spec fn sleep_rule() -> Seq<char> {
    "path='/org/freedesktop/login1',interface='org.freedesktop.login1.Manager',member='PrepareForSleep'"@
}

/// The request that a signal from the system bus stands for: the sleep
/// announcement with its argument becomes `PrepareForSleep`, with the time
/// of the notice when the system goes to sleep and without when it wakes;
/// anything else is nothing to the daemon.
pub open spec fn sleep_request(
    interface: Seq<char>,
    member: Seq<char>,
    status: Option<bool>,
    now: SystemTime,
) -> Option<Request> {
    match status {
        Some(asleep) if interface == sleep_interface() && member == sleep_member() => Some(
            Request::PrepareForSleep(
                if asleep {
                    Some(now)
                } else {
                    None
                },
            ),
        ),
        _ => None,
    }
}

/// Every method is among the published ones.
pub proof fn lemma_published_is_complete()
    ensures
        forall|method: Method| published().contains(method),
{
    let all = published();
    assert forall|method: Method| all.contains(method) by {
        let at: int = match method {
            Method::Suspend => 0,
            Method::Resume => 1,
            Method::Lock => 2,
            Method::Cycle => 3,
            Method::SimulateUserActivity => 4,
            Method::Inhibit => 5,
            Method::UnInhibit => 6,
            Method::Throttle => 7,
            Method::UnThrottle => 8,
            Method::SetActive => 9,
            Method::GetActive => 10,
            Method::GetActiveTime => 11,
            Method::GetSessionIdle => 12,
            Method::GetSessionIdleTime => 13,
        };
        assert(all[at] == method);
    }
}

/// A call that is not refused becomes a request whose caller waits for
/// exactly what the method called waits for.
pub proof fn lemma_request_waits_as_its_method(call: Call, ignore: Ignore)
    ensures
        dispatched(call, ignore) matches Ok(request) ==> awaited(request) == awaited_by(
            method_of(call),
        ),
{
}

/// A method waits for a response exactly if it declares a result, and the
/// response that it waits for carries a value of the declared type.
pub proof fn lemma_payload_has_the_declared_type(method: Method, response: Response)
    ensures
        awaited_by(method) is Some <==> result_type(method) is Some,
        awaited_by(method) == Some(kind_of(response)) ==> result_type(method) == Some(
            payload_type(payload_of(response)),
        ),
{
}

/// Whether two strings hold the same text.
fn same_text(a: &str, b: &str) -> (same: bool)
    ensures
        same == (a@ == b@),
{
    a.to_owned() == b.to_owned()
}

impl Interface {
    /// The interface's name on the bus, which is also the bus name that the
    /// daemon acquires for it.
    pub fn name(&self) -> (name: &'static str)
        ensures
            name@ == interface_name(*self),
    {
        match self {
            Interface::Compat => "org.gnome.ScreenSaver",
            Interface::Native => "meh.rust.ScreenSaver",
        }
    }

    /// The object path at which the interface is published.
    pub fn path(&self) -> (path: &'static str)
        ensures
            path@ == interface_path(*self),
    {
        match self {
            Interface::Compat => "/org/gnome/ScreenSaver",
            Interface::Native => "/meh/rust/ScreenSaver",
        }
    }
}

impl Family {
    /// The family's name in the configuration.
    pub fn name(&self) -> (name: &'static str)
        ensures
            name@ == family_name(*self),
    {
        match self {
            Family::Inhibit => "inhibit",
            Family::Throttle => "throttle",
            Family::Suspend => "suspend",
        }
    }

    /// The words in which a call to this family is refused while the family
    /// is switched off.
    pub fn refusal(&self) -> (text: &'static str)
        ensures
            text@ == refusal_text(*self),
    {
        match self {
            Family::Inhibit => "Inhibit is ignored",
            Family::Throttle => "Inhibit is ignored",
            Family::Suspend => "Suspend is ignored",
        }
    }
}

impl Method {
    /// The method's name on the bus.
    pub fn name(&self) -> (name: &'static str)
        ensures
            name@ == method_name(*self),
    {
        match self {
            Method::Lock => "Lock",
            Method::Cycle => "Cycle",
            Method::SimulateUserActivity => "SimulateUserActivity",
            Method::Inhibit => "Inhibit",
            Method::UnInhibit => "UnInhibit",
            Method::Throttle => "Throttle",
            Method::UnThrottle => "UnThrottle",
            Method::SetActive => "SetActive",
            Method::GetActive => "GetActive",
            Method::GetActiveTime => "GetActiveTime",
            Method::GetSessionIdle => "GetSessionIdle",
            Method::GetSessionIdleTime => "GetSessionIdleTime",
            Method::Suspend => "Suspend",
            Method::Resume => "Resume",
        }
    }

    /// The interface that publishes the method.
    pub fn interface(&self) -> (interface: Interface)
        ensures
            interface == interface_of(*self),
    {
        match self {
            Method::Suspend | Method::Resume => Interface::Native,
            _ => Interface::Compat,
        }
    }

    /// The family that the method belongs to, if it belongs to one.
    pub fn family(&self) -> (family: Option<Family>)
        ensures
            family == family_of(*self),
    {
        match self {
            Method::Inhibit | Method::UnInhibit => Some(Family::Inhibit),
            Method::Throttle | Method::UnThrottle => Some(Family::Throttle),
            Method::Suspend | Method::Resume => Some(Family::Suspend),
            _ => None,
        }
    }

    /// The methods that the daemon publishes, in the order in which it
    /// declares them.
    pub fn all() -> (methods: Vec<Method>)
        ensures
            methods@ == published(),
            forall|method: Method| methods@.contains(method),
    {
        let mut methods: Vec<Method> = Vec::new();
        methods.push(Method::Suspend);
        methods.push(Method::Resume);
        methods.push(Method::Lock);
        methods.push(Method::Cycle);
        methods.push(Method::SimulateUserActivity);
        methods.push(Method::Inhibit);
        methods.push(Method::UnInhibit);
        methods.push(Method::Throttle);
        methods.push(Method::UnThrottle);
        methods.push(Method::SetActive);
        methods.push(Method::GetActive);
        methods.push(Method::GetActiveTime);
        methods.push(Method::GetSessionIdle);
        methods.push(Method::GetSessionIdleTime);
        proof {
            assert(methods@ =~= published());
            lemma_published_is_complete();
        }
        methods
    }

    /// The arguments that the method declares, in order.
    pub fn arguments(&self) -> (parameters: Vec<Parameter>)
        ensures
            parameters@.len() == declared_arguments(*self).len(),
            forall|i: int|
                0 <= i < parameters@.len() ==> (#[trigger] parameters@[i])@ == declared_arguments(
                    *self,
                )[i],
    {
        let mut parameters: Vec<Parameter> = Vec::new();
        match self {
            Method::Inhibit | Method::Throttle | Method::Suspend => {
                parameters.push(Parameter { name: None, kind: Type::Text });
                parameters.push(Parameter { name: None, kind: Type::Text });
            },
            Method::UnInhibit | Method::UnThrottle | Method::Resume => {
                parameters.push(Parameter { name: Some("cookie"), kind: Type::Cookie });
            },
            Method::SetActive => {
                parameters.push(Parameter { name: Some("active"), kind: Type::Flag });
            },
            _ => {},
        }
        parameters
    }

    /// The result that the method declares, if it hands a value back.
    pub fn result(&self) -> (parameter: Option<Parameter>)
        ensures
            match parameter {
                Some(parameter) => declared_result(*self) == Some(parameter@),
                None => declared_result(*self) is None,
            },
    {
        match self {
            Method::Inhibit | Method::Throttle | Method::Suspend => Some(
                Parameter { name: None, kind: Type::Cookie },
            ),
            Method::GetActive => Some(Parameter { name: Some("active"), kind: Type::Flag }),
            Method::GetActiveTime => Some(Parameter { name: Some("time"), kind: Type::Seconds }),
            Method::GetSessionIdle => Some(Parameter { name: Some("idle"), kind: Type::Flag }),
            Method::GetSessionIdleTime => Some(
                Parameter { name: Some("time"), kind: Type::Seconds },
            ),
            _ => None,
        }
    }

    /// The kind of response that the method's caller waits for, if it
    /// waits.
    pub fn awaits(&self) -> (kind: Option<Kind>)
        ensures
            kind == awaited_by(*self),
    {
        match self {
            Method::Inhibit => Some(Kind::Inhibit),
            Method::Throttle => Some(Kind::Throttle),
            Method::Suspend => Some(Kind::Suspend),
            Method::GetActive => Some(Kind::Active),
            Method::GetActiveTime => Some(Kind::ActiveTime),
            Method::GetSessionIdle => Some(Kind::SessionIdle),
            Method::GetSessionIdleTime => Some(Kind::SessionIdleTime),
            _ => None,
        }
    }
}

impl Call {
    /// The method that was called.
    pub fn method(&self) -> (method: Method)
        ensures
            method == method_of(*self),
    {
        match self {
            Call::Lock => Method::Lock,
            Call::Cycle => Method::Cycle,
            Call::SimulateUserActivity => Method::SimulateUserActivity,
            Call::Inhibit { .. } => Method::Inhibit,
            Call::UnInhibit { .. } => Method::UnInhibit,
            Call::Throttle { .. } => Method::Throttle,
            Call::UnThrottle { .. } => Method::UnThrottle,
            Call::SetActive { .. } => Method::SetActive,
            Call::GetActive => Method::GetActive,
            Call::GetActiveTime => Method::GetActiveTime,
            Call::GetSessionIdle => Method::GetSessionIdle,
            Call::GetSessionIdleTime => Method::GetSessionIdleTime,
            Call::Suspend { .. } => Method::Suspend,
            Call::Resume { .. } => Method::Resume,
        }
    }
}

impl Ignore {
    /// No family is switched off.
    pub fn nothing() -> (ignore: Ignore)
        ensures
            ignore == (Ignore { inhibit: false, throttle: false, suspend: false }),
    {
        Ignore { inhibit: false, throttle: false, suspend: false }
    }

    /// The families that the configuration's list `names` switches off: a
    /// family is off exactly when its name is in the list. Other names in
    /// the list mean nothing.
    pub fn from_names(names: &Vec<String>) -> (ignore: Ignore)
        ensures
            ignore.inhibit == names_family(names@, Family::Inhibit),
            ignore.throttle == names_family(names@, Family::Throttle),
            ignore.suspend == names_family(names@, Family::Suspend),
    {
        let mut ignore = Ignore { inhibit: false, throttle: false, suspend: false };
        let mut seen: usize = 0;
        while seen < names.len()
            invariant
                seen <= names.len(),
                ignore.inhibit == names_family(names@.take(seen as int), Family::Inhibit),
                ignore.throttle == names_family(names@.take(seen as int), Family::Throttle),
                ignore.suspend == names_family(names@.take(seen as int), Family::Suspend),
            decreases names.len() - seen,
        {
            let name = names[seen].as_str();
            let is_inhibit = same_text(name, Family::Inhibit.name());
            let is_throttle = same_text(name, Family::Throttle.name());
            let is_suspend = same_text(name, Family::Suspend.name());
            proof {
                lemma_names_one_more(names@, seen as int, Family::Inhibit);
                lemma_names_one_more(names@, seen as int, Family::Throttle);
                lemma_names_one_more(names@, seen as int, Family::Suspend);
            }
            ignore.inhibit = ignore.inhibit || is_inhibit;
            ignore.throttle = ignore.throttle || is_throttle;
            ignore.suspend = ignore.suspend || is_suspend;
            seen = seen + 1;
        }
        assert(names@.take(seen as int) =~= names@);
        ignore
    }

    /// Whether `family` is switched off.
    pub fn ignores(&self, family: Family) -> (off: bool)
        ensures
            off == ignores(*self, family),
    {
        match family {
            Family::Inhibit => self.inhibit,
            Family::Throttle => self.throttle,
            Family::Suspend => self.suspend,
        }
    }
}

/// A family is named among the first `seen + 1` names exactly when it is
/// named among the first `seen` or by the one after them.
proof fn lemma_names_one_more(names: Seq<String>, seen: int, family: Family)
    requires
        0 <= seen < names.len(),
    ensures
        names_family(names.take(seen + 1), family) <==> (names_family(names.take(seen), family)
            || names[seen]@ == family_name(family)),
{
    let shorter = names.take(seen);
    let longer = names.take(seen + 1);
    if names_family(shorter, family) {
        let i = choose|i: int|
            0 <= i < shorter.len() && #[trigger] shorter[i]@ == family_name(family);
        assert(longer[i]@ == family_name(family));
    }
    if names[seen]@ == family_name(family) {
        assert(longer[seen]@ == family_name(family));
    }
    if names_family(longer, family) {
        let i = choose|i: int|
            0 <= i < longer.len() && #[trigger] longer[i]@ == family_name(family);
        if i < seen {
            assert(shorter[i]@ == family_name(family));
        }
    }
}

/// Decides what becomes of a method call: the request to send to the
/// coordinator, or the reason to refuse the call.
pub fn dispatch(call: Call, ignore: &Ignore) -> (decision: Result<Request, MethodError>)
    ensures
        decision == dispatched(call, *ignore),
{
    if let Some(family) = call.method().family() {
        if ignore.ignores(family) {
            return Err(MethodError::Ignored(family));
        }
    }
    match call {
        Call::Lock => Ok(Request::Lock),
        Call::Cycle => Ok(Request::Cycle),
        Call::SimulateUserActivity => Ok(Request::SimulateUserActivity),
        Call::Inhibit { application: Some(application), reason: Some(reason) } => Ok(
            Request::Inhibit { application, reason },
        ),
        Call::UnInhibit { cookie: Some(cookie) } => Ok(Request::UnInhibit(cookie)),
        Call::Throttle { application: Some(application), reason: Some(reason) } => Ok(
            Request::Throttle { application, reason },
        ),
        Call::UnThrottle { cookie: Some(cookie) } => Ok(Request::UnThrottle(cookie)),
        Call::SetActive { active: Some(active) } => Ok(Request::SetActive(active)),
        Call::GetActive => Ok(Request::GetActive),
        Call::GetActiveTime => Ok(Request::GetActiveTime),
        Call::GetSessionIdle => Ok(Request::GetSessionIdle),
        Call::GetSessionIdleTime => Ok(Request::GetSessionIdleTime),
        Call::Suspend { application: Some(application), reason: Some(reason) } => Ok(
            Request::Suspend { application, reason },
        ),
        Call::Resume { cookie: Some(cookie) } => Ok(Request::Resume(cookie)),
        _ => Err(MethodError::NoArg),
    }
}

/// The kind of response that the dispatcher must wait for after it sent
/// `request`, if any.
pub fn awaits(request: &Request) -> (kind: Option<Kind>)
    ensures
        kind == awaited(*request),
{
    match request {
        Request::Inhibit { .. } => Some(Kind::Inhibit),
        Request::Throttle { .. } => Some(Kind::Throttle),
        Request::Suspend { .. } => Some(Kind::Suspend),
        Request::GetActive => Some(Kind::Active),
        Request::GetActiveTime => Some(Kind::ActiveTime),
        Request::GetSessionIdle => Some(Kind::SessionIdle),
        Request::GetSessionIdleTime => Some(Kind::SessionIdleTime),
        _ => None,
    }
}

/// The kind of a response.
pub fn kind(response: &Response) -> (kind: Kind)
    ensures
        kind == kind_of(*response),
{
    match response {
        Response::Inhibit(_) => Kind::Inhibit,
        Response::Throttle(_) => Kind::Throttle,
        Response::Suspend(_) => Kind::Suspend,
        Response::Active(_) => Kind::Active,
        Response::ActiveTime(_) => Kind::ActiveTime,
        Response::SessionIdle(_) => Kind::SessionIdle,
        Response::SessionIdleTime(_) => Kind::SessionIdleTime,
    }
}

/// Whether `response` is of the kind that the dispatcher waits for.
pub fn pairs(awaited: Kind, response: &Response) -> (paired: bool)
    ensures
        paired == (kind_of(*response) == awaited),
{
    kind(response) == awaited
}

/// The value to hand to the caller that waited for a response of kind
/// `awaited`, now that `response` has arrived. A response of another kind
/// breaks the pairing of requests and responses and is not accepted here.
pub fn reply(awaited: Kind, response: Response) -> (payload: Payload)
    requires
        kind_of(response) == awaited,
    ensures
        payload == payload_of(response),
{
    match response {
        Response::Inhibit(cookie) => Payload::Cookie(cookie),
        Response::Throttle(cookie) => Payload::Cookie(cookie),
        Response::Suspend(cookie) => Payload::Cookie(cookie),
        Response::Active(status) => Payload::Flag(status),
        Response::ActiveTime(seconds) => Payload::Seconds(seconds),
        Response::SessionIdle(status) => Payload::Flag(status),
        Response::SessionIdleTime(seconds) => Payload::Seconds(seconds),
    }
}

/// How `signal` goes out on the bus.
pub fn broadcast(signal: Signal) -> (message: Broadcast)
    ensures
        message.member@ == signal_member(signal),
        message.status == signal_status(signal),
{
    match signal {
        Signal::Active(status) => Broadcast { member: "ActiveChanged", status: Some(status) },
        Signal::SessionIdle(status) => Broadcast {
            member: "SessionIdleChanged",
            status: Some(status),
        },
        Signal::AuthenticationRequest(true) => Broadcast {
            member: "AuthenticationRequestBegin",
            status: None,
        },
        Signal::AuthenticationRequest(false) => Broadcast {
            member: "AuthenticationRequestEnd",
            status: None,
        },
    }
}

/// Whether a bus name was acquired. With another owner in place the daemon
/// must not start.
pub fn acquired(reply: NameReply) -> (outcome: Result<(), DBus>)
    ensures
        outcome == if reply == NameReply::Exists {
            Err::<(), DBus>(DBus::AlreadyRegistered)
        } else {
            Ok::<(), DBus>(())
        },
{
    match reply {
        NameReply::Exists => Err(DBus::AlreadyRegistered),
        _ => Ok(()),
    }
}

/// Whether both bus names were acquired: the daemon starts only with both.
pub fn startup(compat: NameReply, native: NameReply) -> (outcome: Result<(), DBus>)
    ensures
        outcome is Ok <==> compat != NameReply::Exists && native != NameReply::Exists,
        outcome is Err ==> outcome == Err::<(), DBus>(DBus::AlreadyRegistered),
{
    match acquired(compat) {
        Ok(()) => acquired(native),
        Err(error) => Err(error),
    }
}

/// The match rule with which to subscribe to the sleep announcement on the
/// system bus.
pub fn sleep_match() -> (rule: &'static str)
    ensures
        rule@ == sleep_rule(),
{
    "path='/org/freedesktop/login1',interface='org.freedesktop.login1.Manager',member='PrepareForSleep'"
}

/// The request that a signal seen on the system bus stands for, if it
/// stands for one. `now` is the time of the notice.
pub fn watch(interface: &str, member: &str, status: Option<bool>, now: SystemTime) -> (request:
    Option<Request>)
    ensures
        request == sleep_request(interface@, member@, status, now),
{
    match status {
        Some(asleep) => {
            if same_text(interface, "org.freedesktop.login1.Manager") && same_text(
                member,
                "PrepareForSleep",
            ) {
                if asleep {
                    Some(Request::PrepareForSleep(Some(now)))
                } else {
                    Some(Request::PrepareForSleep(None))
                }
            } else {
                None
            }
        },
        None => None,
    }
}

} // verus!
