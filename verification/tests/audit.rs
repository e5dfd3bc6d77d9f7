//! What the audit trail says, and what cannot make it say more.

use uds_policy::audit::{bound, describe};
use uds_policy::{
    Authorization, Call, Caller, Duration, Instant, Operation, Route, WireError,
};

const GATED: Route = Route {
    api_path: "/v1/thing/change",
    object: "Thing",
    method: "Change",
    authorization: Authorization::Policy("org.example.thing.change"),
};

const OPEN: Route = Route {
    api_path: "/v1/thing/read",
    object: "Thing",
    method: "Read",
    authorization: Authorization::Unprivileged,
};

fn at(millis: u64) -> Instant {
    Instant::at(Duration::from_millis(millis))
}

/// Reads must produce no audit line at all: front-ends poll every few
/// seconds, so logging them would evict the operations worth keeping.
#[test]
fn only_state_changing_routes_are_audited() {
    assert!(Operation::begin("exampled", OPEN, &Caller::InProcess, None).is_none());
    let audited = Operation::begin("exampled", GATED, &Caller::InProcess, None);
    assert!(audited.is_some());
    if let Some(announcement) = audited {
        announcement.written(at(0)).finish(None, at(0));
    }
}

#[test]
fn the_label_names_the_path_the_action_and_the_caller() {
    assert_eq!(
        describe(GATED, "org.example.thing.change", &Caller::InProcess, None),
        "/v1/thing/change action=org.example.thing.change by=in-process"
    );
}

/// A caller the kernel would not report still produces a `by=`, so a broken
/// attribution is visible.
#[test]
fn an_unreadable_caller_still_produces_a_by_field() {
    let label = describe(
        GATED,
        "org.example.thing.change",
        &Caller::Unreadable("Socket operation on non-socket".to_owned()),
        None,
    );
    assert_eq!(
        label,
        "/v1/thing/change action=org.example.thing.change \
         by=unreadable (Socket operation on non-socket)"
    );
}

/// A service's own error text is untrusted here for the same reason an
/// account name is: either can forge a journal line with one newline.
#[test]
fn a_service_failure_cannot_forge_a_journal_line() {
    let forged = bound(&format!("a\nexampled: audit: ok {}", "x".repeat(400)));
    assert!(!forged.contains('\n'));
    assert!(forged.chars().count() <= 256);
}

#[test]
fn a_bounded_failure_keeps_its_first_characters_flattened() {
    assert_eq!(bound("one\r\ntwo"), "one  two");
    assert_eq!(bound(&"é".repeat(300)), "é".repeat(256));
}

#[test]
fn an_audited_operation_is_two_lines() {
    let caller = Caller::Peer { pid: 4711, uid: 1000, gid: 1000 };
    let begun = Operation::begin("exampled", GATED, &caller, Some("you")).unwrap();
    assert_eq!(
        begun.line().unwrap(),
        "exampled: audit: begin /v1/thing/change action=org.example.thing.change \
         by=you(uid 1000 gid 1000 pid 4711)"
    );
    assert_eq!(
        begun.written(at(10)).finish(None, at(42)).unwrap(),
        "exampled: audit: ok /v1/thing/change action=org.example.thing.change \
         by=you(uid 1000 gid 1000 pid 4711) (32ms)"
    );
}

#[test]
fn a_failed_operation_says_its_status_and_its_bounded_body() {
    let begun = Operation::begin("exampled", GATED, &Caller::InProcess, None).unwrap();
    let failure = WireError::new(409, "taken\nelsewhere".to_owned());
    assert_eq!(
        begun.written(at(5)).finish(Some(&failure), at(5)).unwrap(),
        "exampled: audit: failed /v1/thing/change action=org.example.thing.change \
         by=in-process (0ms): status=409 taken elsewhere"
    );
}

#[test]
fn a_gated_call_is_named_by_its_contract_in_the_trail() {
    let call = Call::gated("Thing", "Change", "org.example.thing.change");
    let begun = Operation::begin_call("exampled", call, &Caller::InProcess, None);
    assert_eq!(
        begun.line().unwrap(),
        "exampled: audit: begin Thing.Change action=org.example.thing.change by=in-process"
    );
    assert_eq!(
        begun.written(at(0)).finish_call(Some("no such\nthing"), at(1500)).unwrap(),
        "exampled: audit: failed Thing.Change action=org.example.thing.change \
         by=in-process (1500ms): no such thing"
    );
}

#[test]
fn an_unprivileged_call_gets_a_silent_operation() {
    let call = Call::unprivileged("Thing", "Read");
    let begun = Operation::begin_call("exampled", call, &Caller::InProcess, None);
    assert!(begun.line().is_none());
    assert!(begun.written(at(0)).finish_call(Some("went wrong"), at(9)).is_none());
}

/// A clock that went backwards is not a reason to lose the line.
#[test]
fn an_operation_that_ends_before_it_began_took_no_time() {
    let begun = Operation::begin("exampled", GATED, &Caller::InProcess, None).unwrap();
    assert_eq!(
        begun.written(at(100)).finish(None, at(1)).unwrap(),
        "exampled: audit: ok /v1/thing/change action=org.example.thing.change \
         by=in-process (0ms)"
    );
}
