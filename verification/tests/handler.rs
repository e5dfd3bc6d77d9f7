//! The pipeline, without a socket.

use serde_json::Value;
use std::sync::atomic::{AtomicUsize, Ordering};
use std::sync::Arc;
use uds_policy::handler::{parse_request, payload, Step};
use uds_policy::{
    AllowSocketPeers, Authorization, Authorizer, Call, Caller, Denial, DenyAll, Duration,
    FrameworkErrorKind, Handler, HttpVerb, Instant, Reply, Route, Service, WireError,
};

const READ: Route = Route {
    api_path: "/v1/thing/read",
    object: "Thing",
    method: "Read",
    authorization: Authorization::Unprivileged,
};

const CHANGE: Route = Route {
    api_path: "/v1/thing/change",
    object: "Thing",
    method: "Change",
    authorization: Authorization::Policy("org.example.thing.change"),
};

#[derive(Debug, Default)]
struct EchoService {
    dispatches: AtomicUsize,
}

fn object(entries: Vec<(&str, Value)>) -> Value {
    let mut map = serde_json::Map::new();
    for (key, value) in entries {
        map.insert(key.to_owned(), value);
    }
    Value::Object(map)
}

impl Service for EchoService {
    fn name(&self) -> &'static str {
        "exampled"
    }

    fn version(&self) -> &'static str {
        "9.9.9"
    }

    fn resolve(&self, verb: HttpVerb, api_path: &str) -> Option<Route> {
        match (verb, api_path) {
            (HttpVerb::Get, "/v1/thing/read") => Some(READ),
            (HttpVerb::Post, "/v1/thing/change") => Some(CHANGE),
            _ => None,
        }
    }

    fn dispatch(
        &self,
        route: Route,
        request: &Value,
        _caller: &Caller,
    ) -> Result<Value, WireError> {
        self.dispatches.fetch_add(1, Ordering::SeqCst);
        if request.get("fail").is_some() {
            return Err(WireError::new(409, "taken".to_owned()));
        }
        Ok(object(vec![
            ("method", Value::from(route.method)),
            ("request", request.clone()),
        ]))
    }

    fn encode_framework_error(&self, kind: FrameworkErrorKind, message: &str) -> WireError {
        WireError::new(
            kind.conventional_status(),
            object(vec![(
                "error",
                object(vec![("message", Value::from(message))]),
            )])
            .to_string(),
        )
    }
}

fn handler(authorizer: Arc<dyn Authorizer>) -> (Handler, Arc<EchoService>) {
    let service = Arc::new(EchoService::default());
    let shared: Arc<dyn Service> = service.clone();
    let handler = Handler::new(shared, authorizer, "/v1/status", "/v1/version");
    (handler, service)
}

fn at(millis: u64) -> Instant {
    Instant::at(Duration::from_millis(millis))
}

/// A request answered to the end, with the journal lines it left behind.
fn answer_audited(
    handler: &Handler,
    verb: HttpVerb,
    api_path: &str,
    body: &str,
    caller: &Caller,
) -> (Reply, Vec<String>) {
    match handler.respond(verb, api_path, body, caller) {
        Step::Answer(reply) => (reply, Vec::new()),
        Step::Dispatch(call) => {
            assert_eq!(call.caller(), caller);
            let running = handler.begin(call, None);
            let mut lines: Vec<String> = running.announcement().into_iter().collect();
            let finished = handler.dispatch(running, at(1));
            let (reply, line) = handler.conclude(finished, at(3));
            lines.extend(line);
            (reply, lines)
        }
    }
}

fn answer(
    handler: &Handler,
    verb: HttpVerb,
    api_path: &str,
    body: &str,
    caller: &Caller,
) -> Reply {
    answer_audited(handler, verb, api_path, body, caller).0
}

#[test]
fn health_and_version_are_the_frameworks_own() {
    let (handler, _service) = handler(Arc::new(DenyAll));
    // DenyAll, and they still answer: a probe that has to be authorized reports
    // on the authorizer.
    let health = answer(&handler, HttpVerb::Get, "/v1/status", "", &Caller::InProcess);
    assert_eq!(health.status, 200);
    assert_eq!(health.body, r#"{"ok":{"healthy":true}}"#);

    let version = answer(&handler, HttpVerb::Get, "/v1/version", "", &Caller::InProcess);
    assert_eq!(version.status, 200);
    assert!(version.body.contains("exampled"), "{}", version.body);
    assert!(version.body.contains("9.9.9"), "{}", version.body);
    assert_eq!(version.body, r#"{"ok":{"name":"exampled","version":"9.9.9"}}"#);
}

#[test]
fn a_resolved_call_dispatches_inside_the_ok_envelope() {
    let (handler, _service) = handler(Arc::new(AllowSocketPeers));
    let reply = answer(
        &handler,
        HttpVerb::Post,
        "/v1/thing/change",
        r#"{"scope":"all"}"#,
        &Caller::InProcess,
    );
    assert_eq!(reply.status, 200);
    let decoded: Value = serde_json::from_str(&reply.body).expect("reply is not JSON");
    assert_eq!(decoded["ok"]["method"], "Change");
    assert_eq!(decoded["ok"]["request"]["scope"], "all");
}

#[test]
fn an_unresolved_path_is_not_found_and_an_unknown_verb_is_not_allowed() {
    let (handler, _service) = handler(Arc::new(AllowSocketPeers));
    assert_eq!(
        answer(&handler, HttpVerb::Post, "/v1/thing/nope", "{}", &Caller::InProcess).status,
        404
    );
    assert_eq!(
        answer(&handler, HttpVerb::Other, "/v1/thing/read", "", &Caller::InProcess).status,
        405
    );
}

/// The order matters more than the outcome: a refused call must not reach the
/// service at all, or a daemon's policy gate is advisory.
#[test]
fn a_refused_call_never_reaches_the_service() {
    let (handler, service) = handler(Arc::new(DenyAll));
    let reply = answer(&handler, HttpVerb::Post, "/v1/thing/change", "{}", &Caller::InProcess);
    assert_eq!(reply.status, 403);
    assert_eq!(service.dispatches.load(Ordering::SeqCst), 0);
    assert!(
        reply.body.contains("org.example.thing.change"),
        "{}",
        reply.body
    );
}

/// Authorization comes before parsing, so a malformed body is refused with the
/// authorization error rather than the parse error.
#[test]
fn authorization_precedes_parsing() {
    let (handler, _service) = handler(Arc::new(DenyAll));
    let reply = answer(&handler, HttpVerb::Post, "/v1/thing/change", "{", &Caller::InProcess);
    assert_eq!(reply.status, 403);
}

#[test]
fn invalid_json_is_the_clients_error() {
    let (handler, service) = handler(Arc::new(AllowSocketPeers));
    let reply = answer(&handler, HttpVerb::Post, "/v1/thing/change", "{", &Caller::InProcess);
    assert_eq!(reply.status, 400);
    assert_eq!(service.dispatches.load(Ordering::SeqCst), 0);
}

#[test]
fn a_blank_body_dispatches_as_null() {
    assert_eq!(parse_request(""), Ok(Value::Null));
    assert_eq!(parse_request("  \r\n "), Ok(Value::Null));
    let (handler, _service) = handler(Arc::new(AllowSocketPeers));
    let reply = answer(&handler, HttpVerb::Get, "/v1/thing/read", "", &Caller::InProcess);
    assert_eq!(reply.status, 200);
    let decoded: Value = serde_json::from_str(&reply.body).expect("reply is not JSON");
    assert_eq!(decoded["ok"]["request"], Value::Null);
}

#[derive(Debug)]
struct RootOnly;

impl Authorizer for RootOnly {
    fn authorize(&self, _call: Call, caller: &Caller) -> Result<(), Denial> {
        if caller.uid() == Some(0) {
            Ok(())
        } else {
            Err(Denial::new(format!("not root: {}", caller.describe(None))))
        }
    }
}

/// The authorizer is handed the caller. Without it a uid gate cannot be written
/// at all.
#[test]
fn the_authorizer_sees_the_caller() {
    let (handler, _service) = handler(Arc::new(RootOnly));
    let root = Caller::Peer {
        pid: 1,
        uid: 0,
        gid: 0,
    };
    let other = Caller::Peer {
        pid: 2,
        uid: 1000,
        gid: 1000,
    };
    assert_eq!(
        answer(&handler, HttpVerb::Get, "/v1/thing/read", "", &root).status,
        200
    );
    assert_eq!(
        answer(&handler, HttpVerb::Get, "/v1/thing/read", "", &other).status,
        403
    );
}

#[test]
fn framework_failures_are_in_the_services_own_words() {
    let (handler, _service) = handler(Arc::new(RootOnly));
    let told = |verb: HttpVerb, path: &str, body: &str, caller: &Caller| {
        let reply = answer(&handler, verb, path, body, caller);
        let decoded: Value = serde_json::from_str(&reply.body).expect("reply is not JSON");
        decoded["error"]["message"].as_str().unwrap_or("").to_owned()
    };
    let root = Caller::Peer { pid: 1, uid: 0, gid: 0 };
    assert_eq!(told(HttpVerb::Get, "/nope", "", &root), "unknown API path: /nope");
    assert_eq!(
        told(HttpVerb::Other, "/v1/status", "", &root),
        "unsupported method for /v1/status"
    );
    assert_eq!(
        told(HttpVerb::Get, "/v1/thing/read", "", &Caller::InProcess),
        "not root: in-process"
    );
    assert_eq!(
        told(HttpVerb::Post, "/v1/thing/change", "{", &root),
        "invalid JSON request payload: EOF while parsing an object at line 1 column 1"
    );
}

#[test]
fn health_is_asked_for_with_get_alone() {
    let (handler, _service) = handler(Arc::new(AllowSocketPeers));
    assert_eq!(
        answer(&handler, HttpVerb::Post, "/v1/status", "", &Caller::InProcess).status,
        404
    );
}

#[test]
fn a_services_failure_is_the_reply_as_it_is() {
    let (handler, service) = handler(Arc::new(AllowSocketPeers));
    let (reply, lines) = answer_audited(
        &handler,
        HttpVerb::Post,
        "/v1/thing/change",
        r#"{"fail":true}"#,
        &Caller::InProcess,
    );
    assert_eq!(reply, Reply { status: 409, body: "taken".to_owned() });
    assert_eq!(reply.clone(), reply);
    assert_eq!(service.dispatches.load(Ordering::SeqCst), 1);
    assert_eq!(
        lines,
        vec![
            "exampled: audit: begin /v1/thing/change action=org.example.thing.change \
             by=in-process",
            "exampled: audit: failed /v1/thing/change action=org.example.thing.change \
             by=in-process (2ms): status=409 taken",
        ]
    );
}

#[test]
fn a_read_leaves_no_line_and_a_change_leaves_two() {
    let (handler, _service) = handler(Arc::new(AllowSocketPeers));
    let (reply, lines) =
        answer_audited(&handler, HttpVerb::Get, "/v1/thing/read", "", &Caller::InProcess);
    assert_eq!(reply.status, 200);
    assert!(lines.is_empty());
    let (reply, lines) =
        answer_audited(&handler, HttpVerb::Post, "/v1/thing/change", "[1]", &Caller::InProcess);
    assert_eq!(reply.body, r#"{"ok":{"method":"Change","request":[1]}}"#);
    assert_eq!(
        lines,
        vec![
            "exampled: audit: begin /v1/thing/change action=org.example.thing.change \
             by=in-process",
            "exampled: audit: ok /v1/thing/change action=org.example.thing.change \
             by=in-process (2ms)",
        ]
    );
}

#[derive(Debug)]
struct QuotedService;

impl Service for QuotedService {
    fn name(&self) -> &'static str {
        "a\"b\\"
    }

    fn version(&self) -> &'static str {
        "1\n\u{8}\t\u{c}\r\u{0}\u{1f}\u{7f}/é"
    }

    fn resolve(&self, _verb: HttpVerb, _api_path: &str) -> Option<Route> {
        None
    }

    fn dispatch(
        &self,
        _route: Route,
        _request: &Value,
        _caller: &Caller,
    ) -> Result<Value, WireError> {
        Ok(Value::Null)
    }

    fn encode_framework_error(&self, kind: FrameworkErrorKind, message: &str) -> WireError {
        WireError::new(kind.conventional_status(), message.to_owned())
    }
}

#[test]
fn names_are_quoted_the_way_json_quotes() {
    let handler = Handler::new(Arc::new(QuotedService), Arc::new(DenyAll), "/h", "/v");
    assert_eq!(handler.service().name(), "a\"b\\");
    let version = answer(&handler, HttpVerb::Get, "/v", "", &Caller::InProcess);
    assert_eq!(
        version.body,
        "{\"ok\":{\"name\":\"a\\\"b\\\\\",\"version\":\"1\\n\\b\\t\\f\\r\\u0000\\u001f\u{7f}/é\"}}"
    );
}

#[test]
fn a_reply_that_cannot_be_encoded_is_the_daemons_fault() {
    let handler = Handler::new(Arc::new(QuotedService), Arc::new(DenyAll), "/h", "/v");
    assert_eq!(
        handler.ok_encoded(Err("recursion".to_owned())),
        Reply {
            status: 500,
            body: "the reply could not be encoded: recursion".to_owned(),
        }
    );
    assert_eq!(
        handler.ok_encoded(Ok("[]".to_owned())),
        Reply { status: 200, body: r#"{"ok":[]}"#.to_owned() }
    );
    assert_eq!(
        handler.ok(&Value::from(vec![1, 2])),
        Reply { status: 200, body: r#"{"ok":[1,2]}"#.to_owned() }
    );
}

#[test]
fn a_payload_is_what_it_decodes_to() {
    assert_eq!(parse_request(" {\"a\": [1, null]} ").map(|value| value.to_string()),
        Ok("{\"a\":[1,null]}".to_owned()));
    assert_eq!(payload(Ok(Value::Bool(true))), Ok(Value::Bool(true)));
    assert_eq!(
        payload(Err("why".to_owned())),
        Err("invalid JSON request payload: why".to_owned())
    );
    // A no-break space is blank, and a zero-width one is not.
    assert_eq!(parse_request("\u{a0}\u{3000}"), Ok(Value::Null));
    assert!(parse_request("\u{200b}").is_err());
}

#[test]
fn an_unparsed_call_is_not_dispatched() {
    let (handler, service) = handler(Arc::new(AllowSocketPeers));
    match handler.proceed(CHANGE, Err("bad".to_owned()), &Caller::InProcess) {
        Step::Answer(reply) => assert_eq!(reply.status, 400),
        Step::Dispatch(_) => panic!("dispatched"),
    }
    assert!(matches!(
        handler.proceed(READ, Ok(Value::Null), &Caller::InProcess),
        Step::Dispatch(_)
    ));
    assert_eq!(service.dispatches.load(Ordering::SeqCst), 0);
}

#[test]
fn each_answer_on_the_way_decides_for_itself() {
    let (handler, service) = handler(Arc::new(DenyAll));
    let status = |step: Step| match step {
        Step::Answer(reply) => Some(reply.status),
        Step::Dispatch(_) => None,
    };
    let me = Caller::InProcess;
    // What the service resolves to is taken as it is.
    assert_eq!(status(handler.route(HttpVerb::Get, "/x", None, "", &me)), Some(404));
    assert_eq!(status(handler.route(HttpVerb::Other, "/x", None, "", &me)), Some(405));
    assert_eq!(status(handler.route(HttpVerb::Get, "/x", Some(READ), "", &me)), Some(403));
    // So is what the authorizer decides.
    let denied = Err(Denial::new("no".to_owned()));
    assert_eq!(status(handler.decide(READ, denied, "", &me)), Some(403));
    assert_eq!(status(handler.decide(READ, Ok(()), "{", &me)), Some(400));
    assert_eq!(status(handler.decide(READ, Ok(()), "{}", &me)), None);
    assert_eq!(service.dispatches.load(Ordering::SeqCst), 0);
}

#[test]
fn a_copied_handler_serves_alike() {
    let (handler, service) = handler(Arc::new(AllowSocketPeers));
    let copy = handler.clone();
    assert_eq!(copy.service().name(), "exampled");
    assert_eq!(
        answer(&copy, HttpVerb::Get, "/v1/thing/read", "", &Caller::InProcess).status,
        200
    );
    assert_eq!(service.dispatches.load(Ordering::SeqCst), 1);
}

#[test]
fn an_audited_call_wants_the_account_of_its_caller() {
    let (handler, _service) = handler(Arc::new(AllowSocketPeers));
    let peer = Caller::Peer { pid: 1, uid: 1000, gid: 4 };
    for (route, caller, wanted) in [
        (READ, &peer, None),
        (CHANGE, &peer, Some(1000)),
        (CHANGE, &Caller::InProcess, None),
    ] {
        match handler.proceed(route, Ok(Value::Null), caller) {
            Step::Dispatch(call) => assert_eq!(call.account_wanted(), wanted),
            Step::Answer(_) => panic!("answered"),
        }
    }
}
