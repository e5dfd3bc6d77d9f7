//! Calls and their names.

use uds_policy::{Authorization, Call};

fn change() -> Call {
    Call::gated("Thing", "Change", "org.example.thing.change")
}

fn read() -> Call {
    Call::unprivileged("Thing", "Read")
}

/// The rendered name is what an operator greps for, and it is assembled from
/// the contract's vocabulary.
#[test]
fn a_call_renders_as_its_contracts_own_name() {
    assert_eq!(change().to_string(), "Thing.Change");
    assert_eq!(
        Call::unprivileged("com.example.Thing", "Read").to_string(),
        "com.example.Thing.Read"
    );
}

#[test]
fn the_constructors_agree_with_the_tag_they_set() {
    assert_eq!(
        change().authorization,
        Authorization::Policy("org.example.thing.change")
    );
    assert_eq!(change().action(), Some("org.example.thing.change"));
    assert_eq!(read().authorization, Authorization::Unprivileged);
    assert_eq!(read().action(), None);
}
