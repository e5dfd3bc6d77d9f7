//! Whole connections, without a socket.

use serde_json::Value;
use std::sync::Arc;
use uds_policy::caller::{looked_up, PeerCredentials};
use uds_policy::connection::{Connection, ConnectionEvent};
use uds_policy::exchange::{Event, Exchange};
use uds_policy::http::ReadStage;
use uds_policy::socket::Deadline;
use uds_policy::{
    AccountNames, AllowSocketPeers, Authorization, Authorizer, Caller, DenyAll, Duration, ErrorKind,
    FrameworkErrorKind, Handler, HttpVerb, Instant, IoError, Route, ServeOutcome, ServerConfig,
    Service, WireError,
};

struct ThingService;

impl Service for ThingService {
    fn name(&self) -> &'static str {
        "thingd"
    }

    fn version(&self) -> &'static str {
        "1"
    }

    fn resolve(&self, verb: HttpVerb, api_path: &str) -> Option<Route> {
        match (verb, api_path) {
            (HttpVerb::Post, "/v1/thing/change") => Some(Route {
                api_path: "/v1/thing/change",
                object: "Thing",
                method: "Change",
                authorization: Authorization::Policy("org.example.thing.change"),
            }),
            (HttpVerb::Get, "/v1/thing/read") => Some(Route {
                api_path: "/v1/thing/read",
                object: "Thing",
                method: "Read",
                authorization: Authorization::Unprivileged,
            }),
            _ => None,
        }
    }

    fn dispatch(
        &self,
        _route: Route,
        request: &Value,
        caller: &Caller,
    ) -> Result<Value, WireError> {
        Ok(Value::from(format!("{request} for {}", caller.describe(None))))
    }

    fn encode_framework_error(&self, kind: FrameworkErrorKind, message: &str) -> WireError {
        WireError::new(kind.conventional_status(), format!("{{\"error\":\"{message}\"}}"))
    }
}

fn handler(authorizer: Arc<dyn Authorizer>) -> Handler {
    Handler::new(Arc::new(ThingService), authorizer, "/v1/status", "/v1/version")
}

fn broken() -> IoError {
    let kind = ErrorKind::Host(std::io::ErrorKind::BrokenPipe);
    IoError { kind, message: "Broken pipe".to_owned() }
}

/// What a client saw, what the journal holds, and what it came to.
struct Seen {
    written: Vec<String>,
    journal: Vec<String>,
    outcome: ServeOutcome,
}

/// The peer that the kernel reports.
fn you() -> Result<PeerCredentials, String> {
    Ok(PeerCredentials { pid: 4711, uid: 1000, gid: 1000 })
}

/// Drive a connection on which the client sends `sent`, and then nothing.
fn drive(
    handler: &Handler,
    peer: Result<PeerCredentials, String>,
    sent: &str,
    write: fn() -> Result<(), IoError>,
) -> Seen {
    let mut rest = sent.as_bytes();
    let mut clock = 0;
    let mut written = Vec::new();
    let mut journal = Vec::new();
    let mut connection = Connection::new(&ServerConfig::new("/s"));
    assert!(matches!(connection, Connection::Accepted { .. }));
    connection = connection.step(handler, ConnectionEvent::PeerRead(peer));
    match &connection {
        Connection::Identified { identified, .. } => {
            assert_eq!(identified.deadline(), Deadline::Within(Duration::from_secs(30)));
        }
        _ => panic!("not identified"),
    }
    connection = connection.step(handler, ConnectionEvent::DeadlineSet(Ok(())));
    loop {
        let exchange = match &connection {
            Connection::Serving { exchange, .. } => exchange,
            Connection::Over(_) => break,
            _ => panic!("not serving"),
        };
        let event = match exchange {
            Exchange::Reading(reader) => match reader.stage() {
                ReadStage::Body(length) => {
                    if rest.len() < length {
                        Event::BodyRead(Err(IoError {
                            kind: ErrorKind::Host(std::io::ErrorKind::UnexpectedEof),
                            message: "failed to fill whole buffer".to_owned(),
                        }))
                    } else {
                        let (body, left) = rest.split_at(length);
                        rest = left;
                        Event::BodyRead(Ok(body.to_vec()))
                    }
                }
                _ => {
                    let end = rest.iter().position(|byte| *byte == b'\n');
                    let (line, left) = rest.split_at(end.map_or(rest.len(), |at| at + 1));
                    rest = left;
                    Event::LineRead(Ok(String::from_utf8(line.to_vec()).unwrap()))
                }
            },
            Exchange::Refusing { response, .. } => {
                written.push(response.clone());
                Event::Written(write())
            }
            Exchange::Identifying { call, .. } => {
                let account = call.account_wanted().map(|uid| {
                    AccountNames::new().remember(looked_up(uid, Ok(Some("you".to_owned()))))
                });
                Event::Identified(account)
            }
            Exchange::Announcing { running, .. } => {
                journal.extend(running.announcement());
                clock += 7;
                Event::Announced(Instant::at(Duration::from_millis(clock)))
            }
            Exchange::Returning { .. } => {
                clock += 5;
                Event::Clocked(Instant::at(Duration::from_millis(clock)))
            }
            Exchange::Reporting { report, .. } => {
                journal.extend(report.clone());
                Event::Said
            }
            Exchange::Answering { response, .. } => {
                written.push(response.clone());
                Event::Written(write())
            }
            Exchange::Over(_) => panic!("an exchange that is over ends its connection"),
        };
        connection = connection.step(handler, ConnectionEvent::Exchanged(event));
    }
    match connection {
        Connection::Over(outcome) => Seen { written, journal, outcome },
        _ => panic!("not over"),
    }
}

fn failed(outcome: &ServeOutcome) -> (Option<&str>, &str) {
    match outcome {
        ServeOutcome::Failed { context, error } => (context.as_deref(), error.message.as_str()),
        other => panic!("not a failure: {other:?}"),
    }
}

/// What the announcement took to write is no part of what the call took.
#[test]
fn a_change_is_audited_around_its_dispatch() {
    let seen = drive(
        &handler(Arc::new(AllowSocketPeers)),
        you(),
        "POST /v1/thing/change HTTP/1.1\r\ncontent-length: 2\r\n\r\n{}",
        || Ok(()),
    );
    assert!(matches!(seen.outcome, ServeOutcome::Answered));
    let body = r#"{"ok":"{} for uid 1000 gid 1000 pid 4711"}"#;
    assert_eq!(
        seen.written,
        vec![format!(
            "HTTP/1.1 200 OK\r\ncontent-type: application/json\r\ncontent-length: {}\r\n\
             connection: close\r\n\r\n{body}",
            body.len()
        )]
    );
    assert_eq!(
        seen.journal,
        vec![
            "thingd: audit: begin /v1/thing/change action=org.example.thing.change \
             by=you(uid 1000 gid 1000 pid 4711)",
            "thingd: audit: ok /v1/thing/change action=org.example.thing.change \
             by=you(uid 1000 gid 1000 pid 4711) (5ms)",
        ]
    );
}

#[test]
fn a_read_is_answered_without_a_line() {
    let seen = drive(
        &handler(Arc::new(AllowSocketPeers)),
        you(),
        "GET /v1/thing/read HTTP/1.0\r\n\r\n",
        || Ok(()),
    );
    assert!(matches!(seen.outcome, ServeOutcome::Answered));
    assert!(seen.written[0].ends_with(r#"{"ok":"null for uid 1000 gid 1000 pid 4711"}"#));
    assert!(seen.journal.is_empty());
}

#[test]
fn a_truncated_request_is_refused_and_fails() {
    let seen = drive(
        &handler(Arc::new(AllowSocketPeers)),
        you(),
        "POST /v1/thing/change HTTP/1.1\r\n",
        || Err(broken()),
    );
    let message = "client closed connection before completing HTTP request";
    assert_eq!(failed(&seen.outcome), (None, message));
    assert!(seen.written[0].starts_with("HTTP/1.1 400 Bad Request\r\n"));
    assert!(seen.written[0].ends_with(&format!("{{\"error\":\"{message}\"}}")));
}

#[test]
fn a_probe_is_not_answered() {
    let seen =
        drive(&handler(Arc::new(DenyAll)), you(), "", || Ok(()));
    assert!(matches!(seen.outcome, ServeOutcome::Probe));
    assert!(seen.written.is_empty());
    assert!(seen.journal.is_empty());
}

#[test]
fn a_refused_caller_is_answered_and_nothing_runs() {
    let seen = drive(
        &handler(Arc::new(DenyAll)),
        you(),
        "POST /v1/thing/change HTTP/1.1\r\ncontent-length: 1\r\n\r\n{",
        || Ok(()),
    );
    assert!(matches!(seen.outcome, ServeOutcome::Answered));
    assert!(seen.written[0].starts_with("HTTP/1.1 403 Forbidden\r\n"));
    assert!(seen.journal.is_empty());
}

#[test]
fn a_client_that_stopped_reading_is_named() {
    let seen = drive(
        &handler(Arc::new(AllowSocketPeers)),
        you(),
        "GET /v1/status HTTP/1.1\r\n\r\n",
        || Err(broken()),
    );
    assert_eq!(failed(&seen.outcome), (Some("GET /v1/status"), "Broken pipe"));
}

#[test]
fn a_body_that_stops_short_fails_without_an_answer() {
    let seen = drive(
        &handler(Arc::new(AllowSocketPeers)),
        you(),
        "POST /v1/thing/change HTTP/1.1\r\ncontent-length: 9\r\n\r\n{}",
        || Ok(()),
    );
    assert_eq!(failed(&seen.outcome), (None, "failed to fill whole buffer"));
    assert!(seen.written.is_empty());
}

#[test]
fn a_deadline_that_cannot_be_set_fails_the_connection() {
    let handler = handler(Arc::new(AllowSocketPeers));
    let connection = Connection::new(&ServerConfig::new("/s"))
        .step(&handler, ConnectionEvent::PeerRead(you()))
        .step(&handler, ConnectionEvent::DeadlineSet(Err(broken())));
    match connection {
        Connection::Over(outcome) => assert_eq!(failed(&outcome), (None, "Broken pipe")),
        _ => panic!("not over"),
    }
}

#[test]
fn a_line_that_cannot_be_read_fails_the_connection() {
    let handler = handler(Arc::new(AllowSocketPeers));
    let exchange = Exchange::new(&ServerConfig::new("/s"));
    match exchange.step(&handler, &Caller::InProcess, Event::LineRead(Err(broken()))) {
        Exchange::Over(outcome) => assert_eq!(failed(&outcome), (None, "Broken pipe")),
        _ => panic!("not over"),
    }
}

/// The kernel would not say who is calling: the call is still attributed, to a
/// caller that says why it could not be read.
#[test]
fn a_caller_that_could_not_be_read_is_kept_as_such() {
    let seen = drive(
        &handler(Arc::new(AllowSocketPeers)),
        Err("ENOTSOCK".to_owned()),
        "POST /v1/thing/change HTTP/1.1\r\n\r\n",
        || Ok(()),
    );
    assert!(matches!(seen.outcome, ServeOutcome::Answered));
    assert!(seen.written[0].ends_with(r#"{"ok":"null for unreadable (ENOTSOCK)"}"#));
    assert_eq!(
        seen.journal[0],
        "thingd: audit: begin /v1/thing/change action=org.example.thing.change \
         by=unreadable (ENOTSOCK)"
    );
}

/// The caller that was read at the start is the one that is served, whatever
/// the request claims.
#[test]
fn the_caller_of_a_connection_is_the_one_read_first() {
    let handler = handler(Arc::new(AllowSocketPeers));
    let connection = Connection::new(&ServerConfig::new("/s"))
        .step(&handler, ConnectionEvent::PeerRead(you()))
        .step(&handler, ConnectionEvent::DeadlineSet(Ok(())))
        .step(
            &handler,
            ConnectionEvent::Exchanged(Event::LineRead(Ok(
                "POST /v1/thing/change?uid=0 HTTP/1.1\r\n".to_owned()
            ))),
        );
    match connection {
        Connection::Serving { caller, .. } => {
            assert_eq!(caller, Caller::Peer { pid: 4711, uid: 1000, gid: 1000 });
        }
        _ => panic!("not serving"),
    }
}
