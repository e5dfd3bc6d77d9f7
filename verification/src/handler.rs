//! The pipeline: resolve, authorize, parse, audit, dispatch.
//!
//! Split from the socket so that a daemon's routing and its policy can be
//! exercised without a file descriptor, and taken in stages so that the order
//! is stated once, in one place:
//!
//! 1. **resolve** — the service turns a target into a route, or does not.
//! 2. **authorize** — before the body is even parsed, so that a refusal costs
//!    nothing and a malformed payload cannot influence the decision.
//! 3. **parse** — invalid JSON is the client's error, and it is reported
//!    without the service ever seeing it.
//! 4. **audit** — the line is there to be written before the call runs, so that
//!    an operation that never returns is still on the record.
//! 5. **dispatch**.
//!
//! [`Handler::respond`] is the first three, [`Handler::begin`] the fourth and
//! [`Handler::dispatch`] the fifth; [`Handler::conclude`] makes a reply of what
//! came out.
use crate::audit::{self, Announcement, Operation};
use crate::authorization::{Authorizer, Denial};
use crate::call::{Authorization, Call};
use crate::caller::{self, Account, AccountView, Caller};
use crate::json;
use crate::service::{self, FrameworkErrorKind, HttpVerb, Route, Service, WireError};
use crate::text::{self, chars_of, same_text, trim};
use crate::time::Instant;
use serde_json::Value;
use std::sync::Arc;
use vstd::prelude::*;
use vstd::string::StringExecFns;

verus! {

/// A status and a body, ready to be framed as an HTTP response.
#[derive(Debug, PartialEq, Eq)]
pub struct Reply {
    /// The HTTP status.
    pub status: u16,
    /// The response body, already serialized.
    pub body: String,
}

impl Clone for Reply {
    fn clone(&self) -> (copy: Self)
        ensures
            copy == *self,
    {
        Reply { status: self.status, body: self.body.clone() }
    }
}

impl Reply {
    /// A failure as the service encoded it.
    pub fn of_failure(failure: WireError) -> (reply: Self)
        ensures
            reply == (Reply { status: failure.status, body: failure.body }),
    {
        Reply { status: failure.status, body: failure.body }
    }
}

/// The two parties a pipeline stands between.
struct Seams<S, A> {
    service: S,
    authorizer: A,
}

/// The request pipeline, with no socket attached.
pub struct Handler {
    seams: Seams<Arc<dyn Service>, Arc<dyn Authorizer>>,
    health_path: &'static str,
    version_path: &'static str,
}

impl Clone for Handler {
    fn clone(&self) -> (copy: Self)
        ensures
            copy.serves() == self.serves(),
            copy.consults() == self.consults(),
            copy.health_at() == self.health_at(),
            copy.version_at() == self.version_at(),
    {
        let service = Arc::clone(&self.seams.service);
        let authorizer = Arc::clone(&self.seams.authorizer);
        let seams = Seams { service, authorizer };
        Handler { seams, health_path: self.health_path, version_path: self.version_path }
    }
}

/// A call that was resolved, authorized and parsed, and has not run.
pub struct PendingCall {
    route: Route,
    request: Value,
    caller: Caller,
}

/// What a call is about.
pub struct CallView {
    /// The route that was resolved.
    pub route: Route,
    /// The request's JSON body.
    pub request: Value,
    /// The party the call is attributed to.
    pub caller: Caller,
}

/// The uid whose account is to be named when a call is put on the record: the
/// caller's, where it has one and the call is audited.
pub open spec fn account_wanted(call: CallView) -> Option<u32> {
    match call.route.authorization {
        Authorization::Policy(_) => caller::uid_of(call.caller),
        Authorization::Unprivileged => None,
    }
}

/// Whether an account is the one that is wanted for a call: that of the
/// caller's own uid, and none where none is wanted.
pub open spec fn attributed(call: CallView, account: Option<AccountView>) -> bool {
    match account_wanted(call) {
        Some(uid) => account matches Some(known) && known.uid == uid,
        None => account is None,
    }
}

/// What an account that there may be holds.
pub open spec fn account_in(account: Option<&Account>) -> Option<AccountView> {
    match account {
        Some(account) => Some(account@),
        None => None,
    }
}

/// The name in an account that there may be.
pub open spec fn name_in(account: Option<AccountView>) -> Option<Seq<char>> {
    match account {
        Some(account) => account.name,
        None => None,
    }
}

impl View for PendingCall {
    type V = CallView;

    closed spec fn view(&self) -> CallView {
        CallView { route: self.route, request: self.request, caller: self.caller }
    }
}

/// What a request amounts to before anything has run.
pub enum Step {
    /// It is answered as it is.
    Answer(Reply),
    /// A call is to be run for it.
    Dispatch(PendingCall),
}

/// A call that is to be announced, where it is audited, and then run.
pub struct RunningCall {
    call: PendingCall,
    announcement: Option<Announcement>,
}

/// A call that is about to run, and its place in the audit trail.
pub struct RunningView {
    /// What the call is about.
    pub call: CallView,
    /// What is to be announced, if the call is audited.
    pub announcement: Option<audit::AnnouncementView>,
}

impl View for RunningCall {
    type V = RunningView;

    closed spec fn view(&self) -> RunningView {
        RunningView {
            call: self.call@,
            announcement: audit::announced(self.announcement),
        }
    }
}

/// A call that has run.
pub struct FinishedCall {
    outcome: Result<Value, WireError>,
    operation: Option<Operation>,
}

/// How a call ended, and its place in the audit trail.
pub struct FinishedView {
    /// What the service answered.
    pub outcome: Result<Value, WireError>,
    /// The audited operation, if the call is audited.
    pub operation: Option<audit::OperationView>,
}

impl View for FinishedCall {
    type V = FinishedView;

    closed spec fn view(&self) -> FinishedView {
        FinishedView {
            outcome: self.outcome,
            operation: audit::view_of(self.operation),
        }
    }
}

/// The `{"ok": …}` envelope around a JSON text.
pub open spec fn envelope(content: Seq<char>) -> Seq<char> {
    "{\"ok\":"@ + content + "}"@
}

/// What the health path answers.
pub open spec fn health_content() -> Seq<char> {
    "{\"healthy\":true}"@
}

/// What the version path answers.
pub open spec fn version_content(name: Seq<char>, version: Seq<char>) -> Seq<char> {
    "{\"name\":"@ + json::json_quoted(name) + ",\"version\":"@ + json::json_quoted(version) + "}"@
}

/// Whether a reply is a success with this content.
pub open spec fn is_success(reply: Reply, content: Seq<char>) -> bool {
    reply.status == 200 && reply.body@ == envelope(content)
}

/// What a request body holds: JSON's `null` where it is blank, and else the
/// value it spells, if it spells one.
pub open spec fn request_content(body: Seq<char>) -> Result<Seq<char>, Seq<char>> {
    if text::trimmed(body).len() == 0 {
        Ok("null"@)
    } else {
        match json::json_decoded(body) {
            Ok(content) => Ok(content),
            Err(error) => Err("invalid JSON request payload: "@ + error),
        }
    }
}

/// The failure for a target that nothing answers. A verb the framework does
/// not route on is not allowed, rather than not found: the target may well
/// exist.
pub open spec fn unrouted_kind(verb: HttpVerb) -> FrameworkErrorKind {
    if verb == HttpVerb::Other {
        FrameworkErrorKind::MethodNotAllowed
    } else {
        FrameworkErrorKind::NotFound
    }
}

/// What a client is told about a target that nothing answers.
pub open spec fn unrouted_text(verb: HttpVerb, api_path: Seq<char>) -> Seq<char> {
    if verb == HttpVerb::Other {
        "unsupported method for "@ + api_path
    } else {
        "unknown API path: "@ + api_path
    }
}

impl Handler {
    /// The service this pipeline dispatches to.
    pub closed spec fn serves(&self) -> &Arc<dyn Service> {
        &self.seams.service
    }

    /// The authorizer this pipeline consults.
    pub closed spec fn consults(&self) -> &Arc<dyn Authorizer> {
        &self.seams.authorizer
    }

    /// The path that answers whether the daemon is healthy.
    pub closed spec fn health_at(&self) -> Seq<char> {
        self.health_path@
    }

    /// The path that answers which daemon this is.
    pub closed spec fn version_at(&self) -> Seq<char> {
        self.version_path@
    }

    /// Whether a reply is the service's own encoding of a failure that the
    /// framework produced.
    pub open spec fn reports(
        &self,
        kind: FrameworkErrorKind,
        message: Seq<char>,
        reply: Reply,
    ) -> bool {
        exists|failure: WireError|
            {
                &&& #[trigger] self.serves().encodes(kind, message, failure)
                &&& reply.status == failure.status
                &&& reply.body@ == failure.body@
            }
    }

    /// Whether the authorizer may let this caller make the call.
    pub open spec fn admits(&self, route: Route, caller: Caller) -> bool {
        self.consults().decides(service::call_of(route), caller, Ok(()))
    }

    /// Whether a step is what follows for an authorized call with this body.
    pub open spec fn proceeds(
        &self,
        route: Route,
        body: Result<Seq<char>, Seq<char>>,
        caller: Caller,
        step: Step,
    ) -> bool {
        match body {
            Err(message) => step matches Step::Answer(reply) && self.reports(
                FrameworkErrorKind::InvalidInput,
                message,
                reply,
            ),
            Ok(content) => step matches Step::Dispatch(call) && call@.route == route
                && json::json_content(call@.request) == content && call@.caller == caller,
        }
    }

    /// Whether a step is what follows for a resolved call under a decision.
    pub open spec fn decided(
        &self,
        route: Route,
        decision: Result<(), Denial>,
        body: Seq<char>,
        caller: Caller,
        step: Step,
    ) -> bool {
        match decision {
            Err(denial) => step matches Step::Answer(reply) && self.reports(
                FrameworkErrorKind::Unauthorized,
                denial.reason@,
                reply,
            ),
            Ok(()) => self.proceeds(route, request_content(body), caller, step),
        }
    }

    /// Whether a step is what follows for a target that resolved this way.
    pub open spec fn routed(
        &self,
        verb: HttpVerb,
        api_path: Seq<char>,
        route: Option<Route>,
        body: Seq<char>,
        caller: Caller,
        step: Step,
    ) -> bool {
        match route {
            None => step matches Step::Answer(reply) && self.reports(
                unrouted_kind(verb),
                unrouted_text(verb, api_path),
                reply,
            ),
            Some(route) => exists|decision: Result<(), Denial>|
                #[trigger] self.consults().decides(service::call_of(route), caller, decision)
                    && self.decided(route, decision, body, caller, step),
        }
    }

    /// Whether a step is what follows for a request.
    pub open spec fn responds(
        &self,
        verb: HttpVerb,
        api_path: Seq<char>,
        body: Seq<char>,
        caller: Caller,
        step: Step,
    ) -> bool {
        if verb == HttpVerb::Get && api_path == self.health_at() {
            step matches Step::Answer(reply) && is_success(reply, health_content())
        } else if verb == HttpVerb::Get && api_path == self.version_at() {
            exists|name: Seq<char>, version: Seq<char>|
                {
                    &&& #[trigger] self.serves().names_itself(name)
                    &&& #[trigger] self.serves().reports_version(version)
                    &&& step matches Step::Answer(reply) && is_success(
                        reply,
                        version_content(name, version),
                    )
                }
        } else {
            exists|route: Option<Route>|
                #[trigger] self.serves().resolves(verb, api_path, route) && self.routed(
                    verb,
                    api_path,
                    route,
                    body,
                    caller,
                    step,
                )
        }
    }

    /// Assemble a pipeline.
    pub fn new(
        service: Arc<dyn Service>,
        authorizer: Arc<dyn Authorizer>,
        health_path: &'static str,
        version_path: &'static str,
    ) -> (handler: Self)
        ensures
            handler.serves() == &service,
            handler.consults() == &authorizer,
            handler.health_at() == health_path@,
            handler.version_at() == version_path@,
    {
        let seams = Seams { service, authorizer };
        Handler { seams, health_path, version_path }
    }

    /// The service this pipeline dispatches to.
    pub fn service(&self) -> (service: &Arc<dyn Service>)
        ensures
            service == self.serves(),
    {
        &self.seams.service
    }

    /// Decide what becomes of one request, up to the point where a call would
    /// run.
    ///
    /// `request_body` is the raw body; an empty or blank one dispatches as
    /// JSON's `null`, so a route that takes no arguments does not have to be
    /// called with `{}`.
    pub fn respond(
        &self,
        verb: HttpVerb,
        api_path: &str,
        request_body: &str,
        caller: &Caller,
    ) -> (step: Step)
        ensures
            self.responds(verb, api_path@, request_body@, *caller, step),
    {
        // Health and version are the framework's, and they are answered before
        // anything else: a liveness probe that has to resolve, authorize and
        // dispatch is a liveness probe that reports on the router.
        if verb == HttpVerb::Get {
            if same_text(api_path, self.health_path) {
                return Step::Answer(self.ok_text("{\"healthy\":true}"));
            }
            if same_text(api_path, self.version_path) {
                let name = self.seams.service.name();
                let version = self.seams.service.version();
                assert(self.serves().names_itself(name@));
                assert(self.serves().reports_version(version@));
                return Step::Answer(self.version_reply(name, version));
            }
        }
        let resolved = self.seams.service.resolve(verb, api_path);
        assert(self.serves().resolves(verb, api_path@, resolved));
        self.route(verb, api_path, resolved, request_body, caller)
    }

    /// Go on with a target, as far as the service resolved it.
    pub fn route(
        &self,
        verb: HttpVerb,
        api_path: &str,
        resolved: Option<Route>,
        request_body: &str,
        caller: &Caller,
    ) -> (step: Step)
        ensures
            self.routed(verb, api_path@, resolved, request_body@, *caller, step),
    {
        match resolved {
            None => Step::Answer(self.unrouted(verb, api_path)),
            Some(route) => {
                let decision = self.seams.authorizer.authorize(route.call(), caller);
                assert(self.consults().decides(service::call_of(route), *caller, decision));
                self.decide(route, decision, request_body, caller)
            },
        }
    }

    /// Go on with a call, as far as the authorizer let it through.
    pub fn decide(
        &self,
        route: Route,
        decision: Result<(), Denial>,
        request_body: &str,
        caller: &Caller,
    ) -> (step: Step)
        ensures
            self.decided(route, decision, request_body@, *caller, step),
    {
        match decision {
            Err(denial) => Step::Answer(
                self.framework_error(FrameworkErrorKind::Unauthorized, denial.reason.as_str()),
            ),
            Ok(()) => self.proceed(route, parse_request(request_body), caller),
        }
    }

    /// Go on with an authorized call, as far as its body could be parsed.
    pub fn proceed(
        &self,
        route: Route,
        parsed: Result<Value, String>,
        caller: &Caller,
    ) -> (step: Step)
        ensures
            match parsed {
                Err(message) => step matches Step::Answer(reply) && self.reports(
                    FrameworkErrorKind::InvalidInput,
                    message@,
                    reply,
                ),
                Ok(request) => step matches Step::Dispatch(call) && call@ == (CallView {
                    route,
                    request,
                    caller: *caller,
                }),
            },
    {
        match parsed {
            Err(message) => Step::Answer(
                self.framework_error(FrameworkErrorKind::InvalidInput, message.as_str()),
            ),
            Ok(request) => Step::Dispatch(PendingCall { route, request, caller: caller.clone() }),
        }
    }

    /// Put a call that is about to run on the record. Its
    /// [announcement](RunningCall::announcement) is to be written before it is
    /// dispatched.
    pub fn begin(&self, call: PendingCall, account: Option<&Account>) -> (running: RunningCall)
        requires
            attributed(call@, account_in(account)),
        ensures
            running@.call == call@,
            exists|name: Seq<char>| #[trigger]
                self.serves().names_itself(name) && running@.announcement
                    == audit::route_announcement(
                    name,
                    call@.route,
                    call@.caller,
                    name_in(account_in(account)),
                ),
    {
        let name = self.seams.service.name();
        assert(self.serves().names_itself(name@));
        let known = match account {
            Some(account) => account.name(),
            None => None,
        };
        let announcement = Operation::begin(name, call.route, &call.caller, known);
        RunningCall { call, announcement }
    }

    /// Run a call whose announcement, if it has one, was written by `now`. The
    /// time that the call takes counts from there.
    pub fn dispatch(&self, running: RunningCall, now: Instant) -> (finished: FinishedCall)
        requires
            self.admits(running@.call.route, running@.call.caller),
        ensures
            self.serves().dispatches(
                running@.call.route,
                running@.call.request,
                running@.call.caller,
                finished@.outcome,
            ),
            finished@.operation == audit::started_in(running@.announcement, now),
    {
        let operation = match running.announcement {
            Some(announcement) => Some(announcement.written(now)),
            None => None,
        };
        let outcome = self.seams.service.dispatch(
            running.call.route,
            &running.call.request,
            &running.call.caller,
        );
        FinishedCall { outcome, operation }
    }

    /// The reply to a call that has run, and the line to write about it where
    /// it is audited.
    pub fn conclude(&self, finished: FinishedCall, now: Instant) -> (conclusion: (
        Reply,
        Option<String>,
    ))
        ensures
            match finished@.outcome {
                Ok(value) => is_success(conclusion.0, json::json_content(value)),
                Err(failure) => conclusion.0.status == failure.status && conclusion.0.body@
                    == failure.body@,
            },
            text::text_in(conclusion.1) == match finished@.operation {
                Some(operation) => audit::end_line(
                    operation,
                    match finished@.outcome {
                        Ok(_) => None,
                        Err(failure) => Some(audit::failure_text(failure)),
                    },
                    now,
                ),
                None => None,
            },
    {
        let line = match finished.operation {
            Some(operation) => match &finished.outcome {
                Ok(_) => operation.finish(None, now),
                Err(failure) => operation.finish(Some(failure), now),
            },
            None => None,
        };
        let reply = match finished.outcome {
            Ok(value) => self.ok(&value),
            Err(failure) => Reply::of_failure(failure),
        };
        (reply, line)
    }

    /// Answer a target that nothing serves.
    fn unrouted(&self, verb: HttpVerb, api_path: &str) -> (reply: Reply)
        ensures
            self.reports(unrouted_kind(verb), unrouted_text(verb, api_path@), reply),
    {
        if verb == HttpVerb::Other {
            let mut message = "unsupported method for ".to_owned();
            message.append(api_path);
            self.framework_error(FrameworkErrorKind::MethodNotAllowed, message.as_str())
        } else {
            let mut message = "unknown API path: ".to_owned();
            message.append(api_path);
            self.framework_error(FrameworkErrorKind::NotFound, message.as_str())
        }
    }

    /// The `{"ok": …}` envelope around a JSON text.
    fn ok_text(&self, content: &str) -> (reply: Reply)
        ensures
            is_success(reply, content@),
    {
        let mut body = "{\"ok\":".to_owned();
        body.append(content);
        body.append("}");
        Reply { status: 200, body }
    }

    /// The `{"ok": …}` envelope around what a reply was encoded to. A reply
    /// the daemon built and cannot serialize is the daemon's fault, and it is
    /// reported as one rather than as a truncated 200.
    pub fn ok_encoded(&self, encoded: Result<String, String>) -> (reply: Reply)
        ensures
            match encoded {
                Ok(content) => is_success(reply, content@),
                Err(error) => self.reports(
                    FrameworkErrorKind::Internal,
                    "the reply could not be encoded: "@ + error@,
                    reply,
                ),
            },
    {
        match encoded {
            Ok(content) => self.ok_text(content.as_str()),
            Err(error) => {
                let mut message = "the reply could not be encoded: ".to_owned();
                message.append(error.as_str());
                self.framework_error(FrameworkErrorKind::Internal, message.as_str())
            },
        }
    }

    /// The `{"ok": …}` envelope: the one piece of wire shape the framework
    /// owns, because a success has no error kind for the service to classify.
    pub fn ok(&self, value: &Value) -> (reply: Reply)
        ensures
            is_success(reply, json::json_content(*value)),
    {
        self.ok_encoded(json::encode(value))
    }

    /// What the version path answers.
    fn version_reply(&self, name: &str, version: &str) -> (reply: Reply)
        ensures
            is_success(reply, version_content(name@, version@)),
    {
        let mut content = "{\"name\":".to_owned();
        match json::encode(&json::string(name)) {
            Ok(quoted) => {
                content.append(quoted.as_str());
            },
            Err(error) => {
                return self.ok_encoded(Err(error));
            },
        }
        content.append(",\"version\":");
        match json::encode(&json::string(version)) {
            Ok(quoted) => {
                content.append(quoted.as_str());
            },
            Err(error) => {
                return self.ok_encoded(Err(error));
            },
        }
        content.append("}");
        self.ok_text(content.as_str())
    }

    /// Ask the service to encode a failure the framework produced.
    pub fn framework_error(&self, kind: FrameworkErrorKind, message: &str) -> (reply: Reply)
        ensures
            self.reports(kind, message@, reply),
    {
        let failure = self.seams.service.encode_framework_error(kind, message);
        assert(self.serves().encodes(kind, message@, failure));
        Reply::of_failure(failure)
    }
}

impl PendingCall {
    /// The party the call is attributed to.
    pub fn caller(&self) -> (caller: &Caller)
        ensures
            *caller == self@.caller,
    {
        &self.caller
    }

    /// The uid whose account is to be named when the call is put on the
    /// record: the caller's, where it has one and the call is audited.
    pub fn account_wanted(&self) -> (uid: Option<u32>)
        ensures
            uid == account_wanted(self@),
    {
        match self.route.authorization {
            Authorization::Policy(_) => self.caller.uid(),
            Authorization::Unprivileged => None,
        }
    }
}

impl RunningCall {
    /// The line to write before the call runs, if it is audited.
    pub fn announcement(&self) -> (line: Option<String>)
        ensures
            text::text_in(line) == match self@.announcement {
                Some(announcement) => audit::begin_line(announcement),
                None => None,
            },
    {
        match &self.announcement {
            Some(announcement) => announcement.line(),
            None => None,
        }
    }
}

/// A blank body is `null`, not a parse error.
pub fn parse_request(request_body: &str) -> (parsed: Result<Value, String>)
    ensures
        match parsed {
            Ok(value) => request_content(request_body@) == Ok::<Seq<char>, Seq<char>>(
                json::json_content(value),
            ),
            Err(message) => request_content(request_body@) == Err::<Seq<char>, Seq<char>>(message@),
        },
{
    let chars = chars_of(request_body);
    if trim(chars.as_slice()).len() == 0 {
        return Ok(json::null());
    }
    payload(json::decode(request_body))
}

/// A payload as it was decoded; one that is no JSON is said to be invalid.
pub fn payload(decoded: Result<Value, String>) -> (parsed: Result<Value, String>)
    ensures
        match decoded {
            Ok(value) => parsed == Ok::<Value, String>(value),
            Err(error) => parsed matches Err(message) && message@
                == "invalid JSON request payload: "@ + error@,
        },
{
    match decoded {
        Ok(value) => Ok(value),
        Err(error) => {
            let mut message = "invalid JSON request payload: ".to_owned();
            message.append(error.as_str());
            Err(message)
        },
    }
}

/// The health path is answered whatever the service and the authorizer would
/// have said, and always the same.
pub proof fn health_is_the_frameworks_own(
    handler: Handler,
    body: Seq<char>,
    caller: Caller,
    step: Step,
)
    requires
        handler.responds(HttpVerb::Get, handler.health_at(), body, caller, step),
    ensures
        step matches Step::Answer(reply) && is_success(reply, health_content()),
{
}

/// The version path is answered without resolving or authorizing anything,
/// unless it is the health path as well.
pub proof fn version_is_the_frameworks_own(
    handler: Handler,
    body: Seq<char>,
    caller: Caller,
    step: Step,
)
    requires
        handler.version_at() != handler.health_at(),
        handler.responds(HttpVerb::Get, handler.version_at(), body, caller, step),
    ensures
        exists|name: Seq<char>, version: Seq<char>|
            #![trigger version_content(name, version)]
            {
                &&& handler.serves().names_itself(name)
                &&& handler.serves().reports_version(version)
                &&& step matches Step::Answer(reply) && is_success(
                    reply,
                    version_content(name, version),
                )
            },
{
    let (name, version) = choose|name: Seq<char>, version: Seq<char>|
        {
            &&& #[trigger] handler.serves().names_itself(name)
            &&& #[trigger] handler.serves().reports_version(version)
            &&& step matches Step::Answer(reply) && is_success(
                reply,
                version_content(name, version),
            )
        };
    assert(is_success(step->Answer_0, version_content(name, version)));
}

/// A call that is to be run was resolved by the service, let through by the
/// authorizer and parsed, and it is run for the caller that asked.
pub proof fn only_admitted_calls_are_dispatched(
    handler: Handler,
    verb: HttpVerb,
    api_path: Seq<char>,
    body: Seq<char>,
    caller: Caller,
    call: PendingCall,
)
    requires
        handler.responds(verb, api_path, body, caller, Step::Dispatch(call)),
    ensures
        handler.serves().resolves(verb, api_path, Some(call@.route)),
        handler.admits(call@.route, caller),
        request_content(body) == Ok::<Seq<char>, Seq<char>>(json::json_content(call@.request)),
        call@.caller == caller,
{
    let step = Step::Dispatch(call);
    let route = choose|route: Option<Route>|
        #[trigger] handler.serves().resolves(verb, api_path, route) && handler.routed(
            verb,
            api_path,
            route,
            body,
            caller,
            step,
        );
    let decision = choose|decision: Result<(), Denial>|
        #[trigger] handler.consults().decides(service::call_of(route->0), caller, decision)
            && handler.decided(route->0, decision, body, caller, step);
    assert(decision is Ok);
    assert(decision->Ok_0 == ());
    assert(decision == Ok::<(), Denial>(()));
    assert(route == Some(call@.route));
}

/// A caller that the authorizer turns away gets the refusal that it gave for
/// the route asked for, in the service's own words for it, whatever the body
/// says: a refused call never reaches the service, and a malformed payload is
/// not even looked at.
pub proof fn refusal_precedes_parsing(
    handler: Handler,
    verb: HttpVerb,
    api_path: Seq<char>,
    body: Seq<char>,
    caller: Caller,
    step: Step,
)
    requires
        !(verb == HttpVerb::Get && api_path == handler.health_at()),
        !(verb == HttpVerb::Get && api_path == handler.version_at()),
        forall|route: Option<Route>| #[trigger]
            handler.serves().resolves(verb, api_path, route) ==> route is Some,
        forall|route: Route, decision: Result<(), Denial>|
            #![trigger handler.serves().resolves(verb, api_path, Some(route)),
                handler.consults().decides(service::call_of(route), caller, decision)]
            handler.serves().resolves(verb, api_path, Some(route)) && handler.consults().decides(
                service::call_of(route),
                caller,
                decision,
            ) ==> decision is Err,
        handler.responds(verb, api_path, body, caller, step),
    ensures
        exists|reply: Reply, route: Route, denial: Denial|
            #![trigger handler.reports(FrameworkErrorKind::Unauthorized, denial.reason@, reply),
                handler.consults().decides(service::call_of(route), caller, Err(denial))]
            step == Step::Answer(reply) && handler.serves().resolves(verb, api_path, Some(route))
                && handler.consults().decides(service::call_of(route), caller, Err(denial))
                && handler.reports(FrameworkErrorKind::Unauthorized, denial.reason@, reply),
{
    let route = choose|route: Option<Route>|
        #[trigger] handler.serves().resolves(verb, api_path, route) && handler.routed(
            verb,
            api_path,
            route,
            body,
            caller,
            step,
        );
    let decision = choose|decision: Result<(), Denial>|
        #[trigger] handler.consults().decides(service::call_of(route->0), caller, decision)
            && handler.decided(route->0, decision, body, caller, step);
    assert(handler.reports(
        FrameworkErrorKind::Unauthorized,
        decision->Err_0.reason@,
        step->Answer_0,
    ));
}

/// A body that is no JSON is never handed to the service.
pub proof fn invalid_json_is_never_dispatched(
    handler: Handler,
    verb: HttpVerb,
    api_path: Seq<char>,
    body: Seq<char>,
    caller: Caller,
    step: Step,
)
    requires
        request_content(body) is Err,
        handler.responds(verb, api_path, body, caller, step),
    ensures
        step is Answer,
{
}

/// A target that the service does not resolve is answered with a failure, and
/// the kind of it depends on the verb alone.
pub proof fn unresolved_targets_are_told_apart_by_verb(
    handler: Handler,
    verb: HttpVerb,
    api_path: Seq<char>,
    body: Seq<char>,
    caller: Caller,
    step: Step,
)
    requires
        !(verb == HttpVerb::Get && api_path == handler.health_at()),
        !(verb == HttpVerb::Get && api_path == handler.version_at()),
        forall|route: Option<Route>| #[trigger]
            handler.serves().resolves(verb, api_path, route) ==> route is None,
        handler.responds(verb, api_path, body, caller, step),
    ensures
        step matches Step::Answer(reply) && handler.reports(
            if verb == HttpVerb::Other {
                FrameworkErrorKind::MethodNotAllowed
            } else {
                FrameworkErrorKind::NotFound
            },
            unrouted_text(verb, api_path),
            reply,
        ),
{
}

/// A body of nothing but blanks, or of nothing at all, is JSON's `null`.
pub proof fn blank_body_is_null(blank: Seq<char>)
    requires
        forall|i: int| 0 <= i < blank.len() ==> text::is_blank(#[trigger] blank[i]),
    ensures
        request_content(blank) == Ok::<Seq<char>, Seq<char>>("null"@),
{
    text::trimmed_of_blanks(blank);
}

/// A success is a 200, and its body is the content under the one key `ok`.
pub proof fn a_success_is_wrapped_in_ok(reply: Reply, content: Seq<char>)
    ensures
        is_success(reply, content) <==> reply.status == 200 && reply.body@ == "{\"ok\":"@ + content
            + seq!['}'],
{
    reveal_strlit("}");
    assert("}"@ =~= seq!['}']);
}

/// The health path answers every caller alike, whatever the body says.
pub proof fn health_in_full(handler: Handler, body: Seq<char>, caller: Caller, step: Step)
    requires
        handler.responds(HttpVerb::Get, handler.health_at(), body, caller, step),
    ensures
        step matches Step::Answer(reply) && reply.status == 200 && reply.body@
            == "{\"ok\":{\"healthy\":true}}"@,
{
    reveal_strlit("{\"ok\":");
    reveal_strlit("{\"healthy\":true}");
    reveal_strlit("}");
    reveal_strlit("{\"ok\":{\"healthy\":true}}");
    assert("{\"ok\":"@ + "{\"healthy\":true}"@ + "}"@ =~= "{\"ok\":{\"healthy\":true}}"@);
}

/// The version path answers with the service's own name and version, each as
/// JSON writes a string.
pub proof fn version_in_full(handler: Handler, body: Seq<char>, caller: Caller, step: Step)
    requires
        handler.version_at() != handler.health_at(),
        handler.responds(HttpVerb::Get, handler.version_at(), body, caller, step),
    ensures
        exists|name: Seq<char>, version: Seq<char>|
            #![trigger json::json_quoted(name), json::json_quoted(version)]
            {
                &&& handler.serves().names_itself(name)
                &&& handler.serves().reports_version(version)
                &&& step matches Step::Answer(reply) && reply.status == 200 && reply.body@
                    == "{\"ok\":{\"name\":"@ + json::json_quoted(name) + ",\"version\":"@
                    + json::json_quoted(version) + "}}"@
            },
{
    let (name, version) = choose|name: Seq<char>, version: Seq<char>|
        {
            &&& #[trigger] handler.serves().names_itself(name)
            &&& #[trigger] handler.serves().reports_version(version)
            &&& step matches Step::Answer(reply) && is_success(
                reply,
                version_content(name, version),
            )
        };
    reveal_strlit("{\"ok\":");
    reveal_strlit("{\"name\":");
    reveal_strlit("{\"ok\":{\"name\":");
    reveal_strlit("}");
    reveal_strlit("}}");
    assert("{\"ok\":"@ + "{\"name\":"@ =~= "{\"ok\":{\"name\":"@);
    assert("}"@ + "}"@ =~= "}}"@);
    let named = json::json_quoted(name);
    let dated = json::json_quoted(version);
    assert(step->Answer_0.body@ =~= "{\"ok\":{\"name\":"@ + named + ",\"version\":"@ + dated
        + "}}"@);
}

/// A body of blanks alone is JSON's `null`. Any other is what JSON makes of it,
/// or else an invalid payload for the reason that JSON gives.
pub proof fn a_body_is_what_json_makes_of_it(body: Seq<char>)
    ensures
        text::trimmed(body).len() == 0 ==> request_content(body) == Ok::<Seq<char>, Seq<char>>(
            "null"@,
        ),
        text::trimmed(body).len() > 0 ==> match json::json_decoded(body) {
            Ok(content) => request_content(body) == Ok::<Seq<char>, Seq<char>>(content),
            Err(error) => request_content(body) == Err::<Seq<char>, Seq<char>>(
                "invalid JSON request payload: "@ + error,
            ),
        },
{
}

/// A failure that the framework reports is one that the service encoded for
/// this kind and these words, with its status and its body as they are.
pub proof fn a_failure_is_reported_as_the_service_encodes_it(
    handler: Handler,
    kind: FrameworkErrorKind,
    message: Seq<char>,
    reply: Reply,
)
    requires
        handler.reports(kind, message, reply),
    ensures
        exists|failure: WireError| #[trigger]
            handler.serves().encodes(kind, message, failure) && reply.status == failure.status
                && reply.body@ == failure.body@,
{
}

/// Every request that is not the framework's own is what the service resolved
/// it to, and goes on with that.
pub proof fn a_request_goes_by_its_resolution(
    handler: Handler,
    verb: HttpVerb,
    api_path: Seq<char>,
    body: Seq<char>,
    caller: Caller,
    step: Step,
)
    requires
        verb != HttpVerb::Get || (api_path != handler.health_at() && api_path
            != handler.version_at()),
        handler.responds(verb, api_path, body, caller, step),
    ensures
        exists|route: Option<Route>|
            #[trigger] handler.serves().resolves(verb, api_path, route) && handler.routed(
                verb,
                api_path,
                route,
                body,
                caller,
                step,
            ),
{
}

/// A target that was not resolved is answered as not found, or as not allowed
/// under a verb that is not routed on, and the answer names the target. One
/// that was is decided on by the authorizer, under the route's own object,
/// method and tag and for the caller that asked.
pub proof fn a_resolution_goes_by_the_authorizer(
    handler: Handler,
    verb: HttpVerb,
    api_path: Seq<char>,
    resolved: Option<Route>,
    body: Seq<char>,
    caller: Caller,
    step: Step,
)
    requires
        handler.routed(verb, api_path, resolved, body, caller, step),
    ensures
        resolved is None && verb is Other ==> (step matches Step::Answer(reply) && handler.reports(
            FrameworkErrorKind::MethodNotAllowed,
            "unsupported method for "@ + api_path,
            reply,
        )),
        resolved is None && !(verb is Other) ==> (step matches Step::Answer(reply)
            && handler.reports(
            FrameworkErrorKind::NotFound,
            "unknown API path: "@ + api_path,
            reply,
        )),
        resolved matches Some(route) ==> exists|decision: Result<(), Denial>|
            #[trigger] handler.consults().decides(
                Call {
                    object: route.object,
                    method: route.method,
                    authorization: route.authorization,
                },
                caller,
                decision,
            ) && handler.decided(route, decision, body, caller, step),
{
    if let Some(route) = resolved {
        let decision = choose|decision: Result<(), Denial>|
            #[trigger] handler.consults().decides(service::call_of(route), caller, decision)
                && handler.decided(route, decision, body, caller, step);
        assert(service::call_of(route) == (Call {
            object: route.object,
            method: route.method,
            authorization: route.authorization,
        }));
        assert(handler.consults().decides(
            Call {
                object: route.object,
                method: route.method,
                authorization: route.authorization,
            },
            caller,
            decision,
        ));
    }
}

/// What was decided is carried out. A call that was refused is answered with
/// the refusal's own words. A call that was let through is run for its caller,
/// with the route that was resolved and with what JSON makes of the body,
/// whatever and however long that is; only a body that is no JSON is answered
/// instead.
pub proof fn a_decision_is_carried_out(
    handler: Handler,
    route: Route,
    decision: Result<(), Denial>,
    body: Seq<char>,
    caller: Caller,
    step: Step,
)
    requires
        handler.decided(route, decision, body, caller, step),
    ensures
        decision matches Err(denial) ==> (step matches Step::Answer(reply) && handler.reports(
            FrameworkErrorKind::Unauthorized,
            denial.reason@,
            reply,
        )),
        decision is Ok && text::trimmed(body).len() == 0 ==> (step matches Step::Dispatch(call)
            && call@.route == route && call@.caller == caller && json::json_content(call@.request)
            == "null"@),
        decision is Ok && text::trimmed(body).len() > 0 ==> match json::json_decoded(body) {
            Ok(content) => step matches Step::Dispatch(call) && call@.route == route && call@.caller
                == caller && json::json_content(call@.request) == content,
            Err(error) => step matches Step::Answer(reply) && handler.reports(
                FrameworkErrorKind::InvalidInput,
                "invalid JSON request payload: "@ + error,
                reply,
            ),
        },
{
}

/// A call that the service resolves and the authorizer lets through, with a
/// body that is JSON, is always run: nothing else about a request keeps it from
/// being so.
pub proof fn an_admitted_call_is_always_dispatched(
    handler: Handler,
    verb: HttpVerb,
    api_path: Seq<char>,
    route: Route,
    body: Seq<char>,
    content: Seq<char>,
    caller: Caller,
    step: Step,
)
    requires
        verb != HttpVerb::Get || (api_path != handler.health_at() && api_path
            != handler.version_at()),
        forall|resolved: Option<Route>| #[trigger]
            handler.serves().resolves(verb, api_path, resolved) ==> resolved == Some(route),
        forall|decision: Result<(), Denial>| #[trigger]
            handler.consults().decides(service::call_of(route), caller, decision) ==> decision is Ok,
        text::trimmed(body).len() > 0,
        json::json_decoded(body) == Ok::<Seq<char>, Seq<char>>(content),
        handler.responds(verb, api_path, body, caller, step),
    ensures
        step matches Step::Dispatch(call) && call@.route == route && call@.caller == caller
            && json::json_content(call@.request) == content,
{
}

/// A caller is let through where the authorizer may let it make the route's own
/// call, and only there.
pub proof fn whom_the_authorizer_lets_through(handler: Handler, route: Route, caller: Caller)
    ensures
        handler.admits(route, caller) <==> handler.consults().decides(
            Call {
                object: route.object,
                method: route.method,
                authorization: route.authorization,
            },
            caller,
            Ok(()),
        ),
{
}

/// The account that is wanted for a call is that of its own caller's uid, and
/// it is wanted of every gated call by a peer and of no other.
pub proof fn whose_account_is_wanted(call: CallView, account: Option<AccountView>)
    ensures
        account_wanted(call) is Some <==> call.route.authorization is Policy && call.caller is Peer,
        account_wanted(call) matches Some(uid) ==> (call.caller matches Caller::Peer {
            uid: own,
            ..
        } && own == uid),
        attributed(call, account) <==> if call.route.authorization is Policy && call.caller is Peer {
            account matches Some(known) && Some(known.uid) == caller::uid_of(call.caller)
        } else {
            account is None
        },
{
}

/// An account that is known goes by its name, and without one there is none.
pub proof fn an_account_goes_by_its_name(account: &Account, known: AccountView)
    ensures
        account_in(Some(account)) == Some(account@),
        account_in(None) is None,
        name_in(Some(known)) == known.name,
        name_in(None) is None,
{
}

/// A call that was parsed is run with what was parsed, for the caller that
/// asked, on the route that was resolved; one that could not be parsed is
/// answered as invalid, in the words for it.
pub proof fn what_was_parsed_is_run(
    handler: Handler,
    route: Route,
    parsed: Result<Value, String>,
    caller: Caller,
    step: Step,
)
    requires
        call_ensures(Handler::proceed, (&handler, route, parsed, &caller), step),
    ensures
        parsed matches Ok(request) ==> (step matches Step::Dispatch(call) && call@.route == route
            && call@.request == request && call@.caller == caller),
        parsed matches Err(message) ==> (step matches Step::Answer(reply) && handler.reports(
            FrameworkErrorKind::InvalidInput,
            message@,
            reply,
        )),
{
}

/// A payload is the value it was decoded to, and one that is no JSON is said to
/// be invalid for the decoder's reason. A failure that the service encoded is
/// the reply, as it is.
pub proof fn payloads_and_failures_are_passed_on(
    decoded: Result<Value, String>,
    parsed: Result<Value, String>,
    failure: WireError,
    reply: Reply,
)
    requires
        call_ensures(payload, (decoded,), parsed),
        call_ensures(Reply::of_failure, (failure,), reply),
    ensures
        decoded matches Ok(value) ==> parsed == Ok::<Value, String>(value),
        decoded matches Err(error) ==> (parsed matches Err(message) && message@
            == "invalid JSON request payload: "@ + error@),
        reply.status == failure.status,
        reply.body == failure.body,
{
}

/// What came of a call is the reply, and the line about it says so: a value is
/// a success and reported as one, and a failure is the service's own and
/// reported with its status and its words. Without an operation there is no
/// line.
pub proof fn a_conclusion_is_what_came_of_the_call(
    handler: Handler,
    finished: FinishedCall,
    now: Instant,
    reply: Reply,
    line: Option<String>,
)
    requires
        call_ensures(Handler::conclude, (&handler, finished, now), (reply, line)),
    ensures
        finished@.outcome matches Ok(value) ==> reply.status == 200 && reply.body@ == "{\"ok\":"@
            + json::json_content(value) + "}"@,
        finished@.outcome matches Err(failure) ==> reply.status == failure.status && reply.body@
            == failure.body@,
        finished@.operation is None ==> line is None,
        finished@.operation matches Some(operation) ==> text::text_in(line) == audit::end_line(
            operation,
            match finished@.outcome {
                Ok(_) => None,
                Err(failure) => Some(audit::failure_text(failure)),
            },
            now,
        ),
{
}

/// A reply that was encoded is a success with that content, and one that could
/// not be is the daemon's own failure, for the encoder's reason.
pub proof fn a_reply_that_cannot_be_encoded_is_no_success(
    handler: Handler,
    encoded: Result<String, String>,
    reply: Reply,
)
    requires
        call_ensures(Handler::ok_encoded, (&handler, encoded), reply),
    ensures
        encoded matches Ok(content) ==> reply.status == 200 && reply.body@ == "{\"ok\":"@ + content@
            + "}"@,
        encoded matches Err(error) ==> handler.reports(
            FrameworkErrorKind::Internal,
            "the reply could not be encoded: "@ + error@,
            reply,
        ),
{
}

}
