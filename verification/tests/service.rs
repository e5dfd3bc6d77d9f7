//! The seam between the framework and a daemon.

use uds_policy::{Authorization, FrameworkErrorKind, HttpVerb, Route, WireError};

#[test]
fn verbs_the_framework_routes_on_are_the_two_it_names() {
    assert_eq!(HttpVerb::parse("GET"), HttpVerb::Get);
    assert_eq!(HttpVerb::parse("POST"), HttpVerb::Post);
    assert_eq!(HttpVerb::parse("DELETE"), HttpVerb::Other);
    // Case-sensitive: HTTP methods are, and a lowercase `get` is a malformed
    // request line rather than a friendlier spelling.
    assert_eq!(HttpVerb::parse("get"), HttpVerb::Other);
}

#[test]
fn conventional_statuses_are_offered_but_not_imposed() {
    assert_eq!(FrameworkErrorKind::NotFound.conventional_status(), 404);
    assert_eq!(FrameworkErrorKind::Unauthorized.conventional_status(), 403);
    assert_eq!(
        FrameworkErrorKind::MethodNotAllowed.conventional_status(),
        405
    );
    assert_eq!(
        FrameworkErrorKind::PayloadTooLarge.conventional_status(),
        413
    );
}

#[test]
fn the_other_conventional_statuses() {
    assert_eq!(FrameworkErrorKind::InvalidInput.conventional_status(), 400);
    assert_eq!(FrameworkErrorKind::Internal.conventional_status(), 500);
}

#[test]
fn a_route_asks_for_the_call_its_contract_names() {
    let route = Route {
        api_path: "/v1/thing/change",
        object: "Thing",
        method: "Change",
        authorization: Authorization::Policy("org.example.thing.change"),
    };
    assert_eq!(route.call().to_string(), "Thing.Change");
    assert_eq!(route.call().action(), Some("org.example.thing.change"));
}

#[test]
fn a_wire_error_is_what_it_was_made_of() {
    let error = WireError::new(422, "{}".to_owned());
    assert_eq!(error.status, 422);
    assert_eq!(error.body, "{}");
    assert_eq!(error.clone(), error);
}
