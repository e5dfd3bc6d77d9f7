//! Who is let through.

use uds_policy::{AllowSocketPeers, Authorizer, Call, Caller, Denial, DenyAll, PeerGate};

fn gated() -> Call {
    Call::gated("Thing", "Change", "org.example.thing.change")
}

fn open() -> Call {
    Call::unprivileged("Thing", "Read")
}

fn peer(uid: u32, gid: u32) -> Caller {
    Caller::Peer { pid: 7, uid, gid }
}

#[test]
fn allow_socket_peers_admits_whatever_reached_the_socket() {
    assert!(AllowSocketPeers.authorize(gated(), &peer(1000, 1000)).is_ok());
    assert!(AllowSocketPeers.authorize(open(), &Caller::InProcess).is_ok());
}

/// The refusal must name the action, so an operator can see which policy is
/// missing rather than only that something was denied.
#[test]
fn deny_all_names_the_action_it_would_have_needed() {
    let denial = DenyAll
        .authorize(gated(), &peer(1000, 1000))
        .expect_err("DenyAll allowed a gated call");
    assert!(
        denial.reason.contains("org.example.thing.change"),
        "the refusal did not name the action: {}",
        denial.reason
    );
}

#[test]
fn a_peer_gate_admits_a_listed_uid_and_refuses_the_rest() {
    let gate = PeerGate::for_uids(&[1000]);
    assert!(gate.authorize(gated(), &peer(1000, 4)).is_ok());
    assert!(gate.authorize(gated(), &peer(1001, 4)).is_err());
}

#[test]
fn a_peer_gate_admits_a_listed_gid() {
    let gate = PeerGate::for_gids(&[970]);
    assert!(gate.authorize(open(), &peer(1001, 970)).is_ok());
    assert!(gate.authorize(open(), &peer(1001, 971)).is_err());
}

/// An empty gate must refuse everyone. The alternative, an empty list meaning
/// "unrestricted", turns a configuration mistake into an open socket.
#[test]
fn an_empty_peer_gate_refuses_everyone() {
    let gate = PeerGate::default();
    assert!(gate.authorize(gated(), &peer(0, 0)).is_err());
}

#[test]
fn an_unreadable_caller_is_refused_or_admitted_by_configuration() {
    let unreadable = Caller::Unreadable("Socket operation on non-socket".to_owned());
    let strict = PeerGate::for_uids(&[1000]);
    assert!(strict.authorize(gated(), &unreadable).is_err());

    let lenient = PeerGate {
        reject_unreadable_caller: false,
        ..PeerGate::for_uids(&[1000])
    };
    assert!(lenient.authorize(gated(), &unreadable).is_ok());
}

/// The refusal names the call in the contract's own words, so a denial line
/// and an audit line can be read side by side.
#[test]
fn a_refusal_names_the_call() {
    let denial = PeerGate::for_uids(&[1000])
        .authorize(gated(), &peer(1001, 4))
        .expect_err("an unlisted uid was admitted");
    assert!(denial.reason.contains("Thing.Change"), "{}", denial.reason);
}

#[test]
fn refusals_are_worded_for_an_operator() {
    assert_eq!(
        DenyAll.authorize(gated(), &Caller::InProcess),
        Err(Denial::new(
            "authorization required for org.example.thing.change before Thing.Change".to_owned()
        ))
    );
    assert_eq!(
        DenyAll.authorize(open(), &Caller::InProcess),
        Err(Denial::new("this daemon is not accepting calls: Thing.Read".to_owned()))
    );
    assert_eq!(
        PeerGate::for_uids(&[1, 2, 2]).authorize(open(), &peer(3, 4)),
        Err(Denial::new("uid 3 gid 4 may not call Thing.Read".to_owned()))
    );
    assert_eq!(
        PeerGate::default().authorize(open(), &Caller::Unreadable("why".to_owned())),
        Err(Denial::new(
            "the caller could not be identified (why), \
             and this daemon does not serve unidentified callers"
                .to_owned()
        ))
    );
}

#[test]
fn a_gate_lets_the_daemon_itself_through() {
    assert!(PeerGate::default().authorize(gated(), &Caller::InProcess).is_ok());
}

#[test]
fn a_gate_decides_alike_whatever_the_call() {
    let gate = PeerGate::for_gids(&[970, 971]);
    for uid in [0, 970] {
        for gid in [969, 970, 971, 972] {
            let caller = peer(uid, gid);
            assert_eq!(
                gate.authorize(gated(), &caller).is_ok(),
                gate.authorize(open(), &caller).is_ok()
            );
        }
    }
}

#[test]
fn a_copied_gate_decides_alike() {
    let gate = PeerGate::for_uids(&[5]);
    let copy = gate.clone();
    assert_eq!(copy.allowed_uids, gate.allowed_uids);
    assert!(copy.authorize(open(), &peer(5, 0)).is_ok());
    assert!(copy.authorize(open(), &peer(6, 0)).is_err());
}

#[test]
fn a_denial_becomes_a_refusal() {
    let denial = Denial::new("no".to_owned());
    assert_eq!(denial.clone().into_result(), Err(denial));
}
