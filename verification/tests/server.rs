//! The server's configuration, and what its loop writes down.

use uds_policy::server::{
    accept_failure_line, idle_ceiling, outcome_line, ServeAction, ServeAnswer, ServeLoop,
};
use serde_json::Value;
use std::sync::atomic::{AtomicUsize, Ordering};
use std::sync::Arc;
use uds_policy::socket::lookup_group_gid;
use uds_policy::{
    Caller, DenyAll, Duration, ErrorKind, FrameworkErrorKind, Handler, HttpVerb, IoError, Route,
    ServeOutcome, ServerConfig, Service, WireError,
};

#[test]
fn server_the_default_config_is_the_shape_a_root_daemon_needs() {
    let config = ServerConfig::new("/run/example/api.sock").with_socket_group("example");
    assert_eq!(config.socket_mode, 0o660);
    assert_eq!(config.socket_group, Some("example"));
    assert_eq!(config.health_path, "/v1/status");
}

#[test]
fn server_a_group_that_exists_resolves_and_one_that_does_not_is_absent_rather_than_an_error() {
    let absent = lookup_group_gid("uds-daemon-no-such-group-9d1f").expect("the lookup failed");
    assert_eq!(absent, None, "a nonexistent group resolved to something");
}

#[test]
fn the_other_server_defaults() {
    let config = ServerConfig::new("/run/example/api.sock");
    assert_eq!(config.socket_path, "/run/example/api.sock");
    assert_eq!(config.socket_group, None);
    assert_eq!(config.version_path, "/v1/version");
    assert_eq!(config.request_read_timeout, Duration::from_secs(30));
    assert_eq!(config.max_header_bytes, 16_384);
    assert_eq!(config.max_body_bytes, 1_048_576);
    assert_eq!(config.longest_legitimate_request, Duration::from_secs(600));
    assert_eq!(config.clone().socket_path, config.socket_path);
}

#[test]
fn a_server_plans_its_socket() {
    let config = ServerConfig::new("/s").with_socket_group("g");
    let plan = config.plan("exampled");
    assert_eq!(plan.daemon, "exampled");
    assert_eq!(plan.socket_path, "/s");
    assert_eq!(plan.socket_mode, 0o660);
    assert_eq!(plan.socket_group, Some("g"));
    assert!(!plan.says_absent_group);
}

fn error(kind: ErrorKind, message: &str) -> IoError {
    IoError { kind, message: message.to_owned() }
}

#[test]
fn an_armed_accept_timeout_gives_an_idle_loop_three_intervals() {
    let interval = Duration::from_secs(30);
    assert_eq!(
        idle_ceiling("exampled", interval, Ok(())),
        (Some(Duration::from_secs(90)), None)
    );
    assert_eq!(
        idle_ceiling("exampled", interval, Err(error(ErrorKind::Other, "no such option"))),
        (
            None,
            Some("exampled: watchdog accept timeout unavailable: no such option".to_owned())
        )
    );
}

#[test]
fn only_a_failed_connection_leaves_a_line() {
    assert_eq!(outcome_line("exampled", &ServeOutcome::Answered), None);
    assert_eq!(outcome_line("exampled", &ServeOutcome::Probe), None);
    let broken = || error(ErrorKind::Other, "Broken pipe");
    assert_eq!(
        outcome_line("exampled", &ServeOutcome::Failed { context: None, error: broken() }),
        Some("exampled: request failed: Broken pipe".to_owned())
    );
    assert_eq!(
        outcome_line(
            "exampled",
            &ServeOutcome::Failed { context: Some("GET /x".to_owned()), error: broken() }
        ),
        Some("exampled: request failed: GET /x: Broken pipe".to_owned())
    );
}

#[test]
fn an_idle_wakeup_is_not_a_failed_accept() {
    for kind in [ErrorKind::WouldBlock, ErrorKind::TimedOut] {
        assert_eq!(accept_failure_line("exampled", true, &error(kind, "again")), None);
        assert_eq!(
            accept_failure_line("exampled", false, &error(kind, "again")),
            Some("exampled: accept failed: again".to_owned())
        );
    }
    assert_eq!(
        accept_failure_line("exampled", true, &error(ErrorKind::Other, "no descriptors")),
        Some("exampled: accept failed: no descriptors".to_owned())
    );
}

/// A service that takes its names in turn, and stays with the last.
struct Named {
    names: &'static [&'static str],
    asked: AtomicUsize,
}

impl Service for Named {
    fn name(&self) -> &'static str {
        let asked = self.asked.fetch_add(1, Ordering::Relaxed);
        self.names[asked.min(self.names.len() - 1)]
    }

    fn version(&self) -> &'static str {
        "1"
    }

    fn resolve(&self, _verb: HttpVerb, _api_path: &str) -> Option<Route> {
        None
    }

    fn dispatch(
        &self,
        _route: Route,
        _request: &Value,
        _caller: &Caller,
    ) -> Result<Value, WireError> {
        Ok(Value::Null)
    }

    fn encode_framework_error(&self, kind: FrameworkErrorKind, message: &str) -> WireError {
        WireError::new(kind.conventional_status(), message.to_owned())
    }
}

fn named(names: &'static [&'static str]) -> Handler {
    let service = Arc::new(Named { names, asked: AtomicUsize::new(0) });
    Handler::new(service, Arc::new(DenyAll), "/v1/status", "/v1/version")
}

fn exampled() -> Handler {
    named(&["exampled"])
}

fn serving(heartbeat: Option<Duration>) -> ServeLoop {
    let serving = ServeLoop::new(&ServerConfig::new("/s"), heartbeat);
    assert!(matches!(serving.action(), ServeAction::NotifyReady));
    serving
}

fn turned(serving: &ServeLoop) -> Option<String> {
    match serving.action() {
        ServeAction::Turn(line) => line.clone(),
        _ => panic!("not a turn"),
    }
}

#[test]
fn a_loop_without_a_watchdog_goes_straight_to_accepting() {
    let mut serving = serving(None);
    serving.step(&exampled(), ServeAnswer::Notified);
    assert!(matches!(serving.action(), ServeAction::Accept));
    serving.step(&exampled(), ServeAnswer::Accepted(Err(error(ErrorKind::TimedOut, "again"))));
    assert_eq!(turned(&serving), Some("exampled: accept failed: again".to_owned()));
}

#[test]
fn a_loop_under_a_watchdog_arms_its_heartbeat_first() {
    let interval = Duration::from_secs(5);
    let mut serving = serving(Some(interval));
    serving.step(&exampled(), ServeAnswer::Notified);
    assert!(matches!(serving.action(), ServeAction::BoundAccept(span) if *span == interval));
    serving.step(&exampled(), ServeAnswer::AcceptBounded(Ok(())));
    match serving.action() {
        ServeAction::StartHeartbeat(span, liveness, line) => {
            assert_eq!(*span, interval);
            assert_eq!(liveness.idle_tick_ceiling, Some(Duration::from_secs(15)));
            assert_eq!(liveness.longest_bounded_call, Duration::from_secs(600));
            assert_eq!(liveness.longest_silent_stream, None);
            assert_eq!(*line, None);
        }
        _ => panic!("no heartbeat"),
    }
    serving.step(&exampled(), ServeAnswer::HeartbeatStarted);
    assert!(matches!(serving.action(), ServeAction::Accept));
    serving.step(&exampled(), ServeAnswer::Accepted(Err(error(ErrorKind::TimedOut, "again"))));
    assert_eq!(turned(&serving), None);
}

#[test]
fn a_watchdog_without_an_accept_timeout_trusts_an_idle_loop() {
    let mut serving = serving(Some(Duration::from_secs(5)));
    serving.step(&exampled(), ServeAnswer::Notified);
    serving.step(&exampled(), ServeAnswer::AcceptBounded(Err(error(ErrorKind::Other, "no"))));
    match serving.action() {
        ServeAction::StartHeartbeat(_, liveness, line) => {
            assert_eq!(liveness.idle_tick_ceiling, None);
            assert_eq!(
                *line,
                Some("exampled: watchdog accept timeout unavailable: no".to_owned())
            );
        }
        _ => panic!("no heartbeat"),
    }
}

/// A single client failing must not take down the daemon.
#[test]
fn the_loop_goes_on_after_whatever_happened() {
    let mut serving = serving(None);
    serving.step(&exampled(), ServeAnswer::Notified);
    for (outcome, line) in [
        (ServeOutcome::Answered, None),
        (ServeOutcome::Probe, None),
        (
            ServeOutcome::refused("too much".to_owned()),
            Some("exampled: request failed: too much".to_owned()),
        ),
    ] {
        assert!(matches!(serving.action(), ServeAction::Accept));
        serving.step(&exampled(), ServeAnswer::Accepted(Ok(())));
        assert!(matches!(serving.action(), ServeAction::Serve));
        serving.step(&exampled(), ServeAnswer::Served(outcome));
        assert_eq!(turned(&serving), line);
        serving.step(&exampled(), ServeAnswer::Turned);
    }
}

/// The service is asked for its name for each line, and for no other reason.
#[test]
fn each_line_is_written_under_the_name_of_the_moment() {
    let handler = named(&["first", "second"]);
    let mut serving = serving(None);
    serving.step(&handler, ServeAnswer::Notified);
    serving.step(&handler, ServeAnswer::Accepted(Ok(())));
    serving.step(&handler, ServeAnswer::Served(ServeOutcome::Answered));
    assert_eq!(turned(&serving), None);
    serving.step(&handler, ServeAnswer::Turned);
    for line in ["first: accept failed: again", "second: accept failed: again"] {
        let again = error(ErrorKind::TimedOut, "again");
        serving.step(&handler, ServeAnswer::Accepted(Err(again)));
        assert_eq!(turned(&serving), Some(line.to_owned()));
        serving.step(&handler, ServeAnswer::Turned);
    }
}
