//! The seam between the framework and the daemon that uses it.
//!
//! Everything here is a concrete type: a wire contract must be describable
//! without depending on the server that happens to serve it.
use crate::call::{Authorization, Call};
use crate::caller::Caller;
use crate::text::same_text;
use serde_json::Value;
use vstd::prelude::*;

verus! {

/// One thing the daemon can be asked to do over HTTP.
///
/// `object` and `method` are carried so that the audit trail and an authorizer
/// can name the call in the words the contract uses.
#[derive(Debug, Clone, Copy, PartialEq, Eq)]
pub struct Route {
    /// The request target this route answers, e.g. `/v1/status`.
    pub api_path: &'static str,
    /// The noun the call acts on, in the contract's own spelling.
    pub object: &'static str,
    /// The verb, in the contract's own spelling.
    pub method: &'static str,
    /// Whether the call is gated, and under which action id.
    pub authorization: Authorization,
}

/// What a route asks for, without the path that asked.
pub open spec fn call_of(route: Route) -> Call {
    Call {
        object: route.object,
        method: route.method,
        authorization: route.authorization,
    }
}

impl Route {
    /// The call an authorizer decides on.
    pub fn call(&self) -> (call: Call)
        ensures
            call == call_of(*self),
    {
        Call { object: self.object, method: self.method, authorization: self.authorization }
    }
}

/// The HTTP method of a request, reduced to what routing needs.
#[derive(Debug, Clone, Copy, PartialEq, Eq, Structural)]
pub enum HttpVerb {
    /// `GET`.
    Get,
    /// `POST`.
    Post,
    /// Any other method.
    Other,
}

/// The verb a method token stands for. Case matters, as it does in HTTP.
pub open spec fn verb_of(token: Seq<char>) -> HttpVerb {
    if token == "GET"@ {
        HttpVerb::Get
    } else if token == "POST"@ {
        HttpVerb::Post
    } else {
        HttpVerb::Other
    }
}

impl HttpVerb {
    /// Classify a request line's method token.
    pub fn parse(token: &str) -> (verb: Self)
        ensures
            verb == verb_of(token@),
    {
        if same_text(token, "GET") {
            HttpVerb::Get
        } else if same_text(token, "POST") {
            HttpVerb::Post
        } else {
            HttpVerb::Other
        }
    }
}

/// A failure, already encoded in the service's own error envelope.
#[derive(Debug, PartialEq, Eq)]
pub struct WireError {
    /// The HTTP status to answer with.
    pub status: u16,
    /// The response body, already serialized.
    pub body: String,
}

impl WireError {
    /// A failure with a status and an already-encoded body.
    pub fn new(status: u16, body: String) -> (error: Self)
        ensures
            error.status == status,
            error.body@ == body@,
    {
        WireError { status, body }
    }
}

impl Clone for WireError {
    fn clone(&self) -> (copy: Self)
        ensures
            copy == *self,
    {
        WireError { status: self.status, body: self.body.clone() }
    }
}

/// A failure the framework produced before, or instead of, reaching the
/// service.
#[derive(Debug, Clone, Copy, PartialEq, Eq, Structural)]
pub enum FrameworkErrorKind {
    /// No route answers this target.
    NotFound,
    /// The request could not be read, parsed, or made sense of.
    InvalidInput,
    /// The authorizer refused the call.
    Unauthorized,
    /// The target exists but not for this HTTP method.
    MethodNotAllowed,
    /// Headers or body exceeded the configured ceiling.
    PayloadTooLarge,
    /// The framework itself failed, e.g. a reply that would not serialize.
    Internal,
}

/// The status a daemon with no opinion would use.
pub open spec fn conventional(kind: FrameworkErrorKind) -> u16 {
    match kind {
        FrameworkErrorKind::NotFound => 404,
        FrameworkErrorKind::InvalidInput => 400,
        FrameworkErrorKind::Unauthorized => 403,
        FrameworkErrorKind::MethodNotAllowed => 405,
        FrameworkErrorKind::PayloadTooLarge => 413,
        FrameworkErrorKind::Internal => 500,
    }
}

impl FrameworkErrorKind {
    /// The status a daemon with no opinion would use. Offered to services, and
    /// used by nothing in the framework itself.
    pub fn conventional_status(self) -> (status: u16)
        ensures
            status == conventional(self),
    {
        match self {
            FrameworkErrorKind::NotFound => 404,
            FrameworkErrorKind::InvalidInput => 400,
            FrameworkErrorKind::Unauthorized => 403,
            FrameworkErrorKind::MethodNotAllowed => 405,
            FrameworkErrorKind::PayloadTooLarge => 413,
            FrameworkErrorKind::Internal => 500,
        }
    }
}

/// What a daemon built on this framework has to say for itself.
///
/// The framework calls `resolve` to turn a request target into a [`Route`],
/// `dispatch` to run it, and `encode_framework_error` for every failure it
/// produced on its own. It knows nothing else.
///
/// Beside each method stands what the service may answer, in its own terms. A
/// service that says nothing about itself may answer anything.
pub trait Service: Send + Sync + 'static {
    /// Whether the service may give this name.
    open spec fn names_itself(&self, name: Seq<char>) -> bool {
        true
    }

    /// Whether the service may report this version.
    open spec fn reports_version(&self, version: Seq<char>) -> bool {
        true
    }

    /// Whether the service may resolve a request target to this route.
    open spec fn resolves(
        &self,
        verb: HttpVerb,
        api_path: Seq<char>,
        route: Option<Route>,
    ) -> bool {
        true
    }

    /// Whether a call may end this way.
    open spec fn dispatches(
        &self,
        route: Route,
        request: Value,
        caller: Caller,
        outcome: Result<Value, WireError>,
    ) -> bool {
        true
    }

    /// Whether the service may put a failure this way.
    open spec fn encodes(
        &self,
        kind: FrameworkErrorKind,
        message: Seq<char>,
        failure: WireError,
    ) -> bool {
        true
    }

    /// The daemon's name. Prefixes every audit line, and answers the version
    /// path.
    fn name(&self) -> (name: &'static str)
        ensures
            self.names_itself(name@),
    ;

    /// The daemon's version, as the version path should report it.
    fn version(&self) -> (version: &'static str)
        ensures
            self.reports_version(version@),
    ;

    /// The route for a request target, or `None` if this service serves none.
    fn resolve(&self, verb: HttpVerb, api_path: &str) -> (route: Option<Route>)
        ensures
            self.resolves(verb, api_path@, route),
    ;

    /// Run a resolved, authorized call.
    ///
    /// `request` is the parsed JSON body, or JSON's `null` when the request
    /// carried none. `caller` is the kernel's answer, read before the first
    /// request byte.
    fn dispatch(&self, route: Route, request: &Value, caller: &Caller) -> (outcome: Result<
        Value,
        WireError,
    >)
        ensures
            self.dispatches(route, *request, *caller, outcome),
    ;

    /// Encode a framework-generated failure in this service's error envelope.
    fn encode_framework_error(
        &self,
        kind: FrameworkErrorKind,
        message: &str,
    ) -> (failure: WireError)
        ensures
            self.encodes(kind, message@, failure),
    ;
}

/// `GET` and `POST` are told by their tokens, to the letter, and every other
/// token is neither.
pub proof fn verbs_are_told_apart_by_their_tokens(token: Seq<char>)
    ensures
        verb_of(token) is Get <==> token == "GET"@,
        verb_of(token) is Post <==> token == "POST"@,
        verb_of(token) is Other <==> token != "GET"@ && token != "POST"@,
{
    reveal_strlit("GET");
    reveal_strlit("POST");
    assert("GET"@.len() != "POST"@.len());
}

/// The call that a route asks for goes by the route's own object, method and
/// tag, whatever path leads to it.
pub proof fn a_route_asks_for_its_own_call(route: Route)
    ensures
        call_of(route).object == route.object,
        call_of(route).method == route.method,
        call_of(route).authorization == route.authorization,
{
}

/// The status for each kind of failure is an error status, and no two kinds
/// share one.
pub proof fn conventional_statuses(kind: FrameworkErrorKind, other: FrameworkErrorKind)
    ensures
        kind is NotFound ==> conventional(kind) == 404,
        kind is InvalidInput ==> conventional(kind) == 400,
        kind is Unauthorized ==> conventional(kind) == 403,
        kind is MethodNotAllowed ==> conventional(kind) == 405,
        kind is PayloadTooLarge ==> conventional(kind) == 413,
        kind is Internal ==> conventional(kind) == 500,
        400 <= conventional(kind) < 600,
        conventional(kind) == conventional(other) ==> kind == other,
{
}

/// A failure has the status and the body it was made with, and a token is the
/// verb it spells.
pub proof fn parts_are_as_they_were_given(
    status: u16,
    body: String,
    failure: WireError,
    token: &str,
    verb: HttpVerb,
    route: Route,
    call: Call,
)
    requires
        call_ensures(WireError::new, (status, body), failure),
        call_ensures(HttpVerb::parse, (token,), verb),
        call_ensures(Route::call, (&route,), call),
    ensures
        failure.status == status,
        failure.body@ == body@,
        verb is Get <==> token@ == "GET"@,
        verb is Post <==> token@ == "POST"@,
        call.object == route.object,
        call.method == route.method,
        call.authorization == route.authorization,
{
    verbs_are_told_apart_by_their_tokens(token@);
}

}
