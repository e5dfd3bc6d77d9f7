//! How a socket is taken.

use uds_policy::socket::{
    accept_timeout, is_settable, lookup_group_gid, resolved, BindAction, BindAnswer, Binding,
    Deadline,
};
use uds_policy::caller::PeerCredentials;
use uds_policy::{BindError, Caller, Duration, ErrorKind, IoError, SocketConfig};

#[test]
fn socket_the_default_config_is_the_shape_a_root_daemon_needs() {
    let config =
        SocketConfig::new("exampled", "/run/example/api.sock").with_socket_group("example");
    assert_eq!(config.socket_mode, 0o660);
    assert_eq!(config.socket_group, Some("example"));
    // Explicit rather than inherited: see the field.
    assert_eq!(config.request_read_timeout, Some(Duration::from_secs(30)));
}

/// Asking for a name that certainly does not exist is the portable half.
#[test]
fn socket_a_group_that_exists_resolves_and_one_that_does_not_is_absent_rather_than_an_error() {
    let absent = lookup_group_gid("uds-policy-no-such-group-9d1f").expect("the lookup failed");
    assert_eq!(absent, None, "a nonexistent group resolved to something");
}

#[test]
fn a_group_name_with_a_zero_in_it_is_absent() {
    assert_eq!(lookup_group_gid("root\0"), Ok(None));
}

#[test]
fn a_socket_config_can_be_changed() {
    let config = SocketConfig::new("exampled", "/s")
        .with_socket_mode(0o600)
        .with_request_read_timeout(None);
    assert_eq!(config.daemon, "exampled");
    assert_eq!(config.socket_path, "/s");
    assert_eq!(config.socket_mode, 0o600);
    assert_eq!(config.socket_group, None);
    assert_eq!(config.request_read_timeout, None);
    let copy = config.clone();
    assert_eq!(copy.socket_path, "/s");
    assert!(copy.plan().says_absent_group);
}

fn error(kind: ErrorKind, message: &str) -> IoError {
    IoError { kind, message: message.to_owned() }
}

fn binding(group: Option<&'static str>) -> Binding {
    let mut config = SocketConfig::new("exampled", "/s");
    if let Some(group) = group {
        config = config.with_socket_group(group);
    }
    Binding::new(config.plan())
}

fn probing() -> Binding {
    let mut binding = binding(None);
    assert!(matches!(binding.action(), BindAction::CheckPath));
    binding.step(BindAnswer::PathChecked(true));
    assert!(matches!(binding.action(), BindAction::Inspect));
    binding.step(BindAnswer::Inspected(Ok(true)));
    assert!(matches!(binding.action(), BindAction::Probe));
    binding
}

fn listening(group: Option<&'static str>) -> Binding {
    let mut binding = binding(group);
    binding.step(BindAnswer::PathChecked(false));
    assert!(matches!(binding.action(), BindAction::Listen));
    binding.step(BindAnswer::Listening(Ok(())));
    assert!(matches!(binding.action(), BindAction::SetMode(0o660)));
    binding
}

fn failure(binding: &Binding) -> String {
    match binding.action() {
        BindAction::Failed(error) => error.to_string(),
        other => panic!("not failed: {other:?}"),
    }
}

fn said(binding: &Binding) -> Option<String> {
    match binding.action() {
        BindAction::Bound(line) => line.clone(),
        other => panic!("not bound: {other:?}"),
    }
}

#[test]
fn a_file_that_is_no_socket_is_left_alone() {
    let mut binding = binding(None);
    binding.step(BindAnswer::PathChecked(true));
    binding.step(BindAnswer::Inspected(Ok(false)));
    assert!(matches!(binding.action(), BindAction::Failed(BindError::NotASocket(_))));
    assert_eq!(failure(&binding), "/s exists and is not a socket, so it was left alone");
}

#[test]
fn a_file_that_cannot_be_inspected_is_left_alone() {
    let mut binding = binding(None);
    binding.step(BindAnswer::PathChecked(true));
    binding.step(BindAnswer::Inspected(Err(error(ErrorKind::Other, "denied"))));
    assert!(matches!(binding.action(), BindAction::Failed(BindError::Io(_))));
    assert_eq!(failure(&binding), "denied");
}

#[test]
fn a_live_socket_is_left_alone() {
    let mut binding = probing();
    binding.step(BindAnswer::Probed(Ok(())));
    assert!(matches!(binding.action(), BindAction::Failed(BindError::AlreadyActive(_))));
    assert_eq!(failure(&binding), "a daemon is already serving /s");
}

#[test]
fn a_socket_that_cannot_be_checked_is_left_alone() {
    let denied = ErrorKind::Host(std::io::ErrorKind::PermissionDenied);
    for kind in [ErrorKind::WouldBlock, ErrorKind::TimedOut, ErrorKind::Other, denied] {
        let mut binding = probing();
        binding.step(BindAnswer::Probed(Err(error(kind, "denied"))));
        assert!(matches!(binding.action(), BindAction::Failed(BindError::Unverifiable(_, _))));
        assert_eq!(
            failure(&binding),
            "/s exists and could not be verified stale, so it was left alone: denied"
        );
    }
}

#[test]
fn a_socket_that_refuses_is_stale() {
    let mut binding = probing();
    binding.step(BindAnswer::Probed(Err(error(ErrorKind::ConnectionRefused, "refused"))));
    assert!(matches!(binding.action(), BindAction::RemoveStale));
    binding.step(BindAnswer::Removed(Ok(())));
    assert!(matches!(binding.action(), BindAction::Listen));
}

#[test]
fn a_stale_socket_that_cannot_be_removed_is_in_the_way() {
    let mut binding = probing();
    binding.step(BindAnswer::Probed(Err(error(ErrorKind::ConnectionRefused, "refused"))));
    binding.step(BindAnswer::Removed(Err(error(ErrorKind::Other, "read-only"))));
    assert_eq!(failure(&binding), "read-only");
}

#[test]
fn a_path_that_went_away_is_free() {
    let mut binding = probing();
    binding.step(BindAnswer::Probed(Err(error(ErrorKind::NotFound, "gone"))));
    assert!(matches!(binding.action(), BindAction::Listen));
}

#[test]
fn a_path_that_cannot_be_bound_is_an_error() {
    let mut binding = binding(None);
    binding.step(BindAnswer::PathChecked(false));
    binding.step(BindAnswer::Listening(Err(error(ErrorKind::NotFound, "no such directory"))));
    assert_eq!(failure(&binding), "no such directory");
}

#[test]
fn a_socket_nobody_can_open_is_removed_again() {
    let mut binding = listening(None);
    binding.step(BindAnswer::ModeSet(Err(error(ErrorKind::Other, "denied"))));
    assert!(matches!(binding.action(), BindAction::Discard(_)));
    binding.step(BindAnswer::Discarded);
    assert_eq!(failure(&binding), "denied");
}

#[test]
fn a_socket_without_a_group_is_bound_in_silence() {
    let mut binding = listening(None);
    binding.step(BindAnswer::ModeSet(Ok(())));
    assert_eq!(said(&binding), None);
    assert_eq!(binding.plan().socket_path, "/s");
}

#[test]
fn a_socket_is_given_to_its_group() {
    let mut binding = listening(Some("example"));
    binding.step(BindAnswer::ModeSet(Ok(())));
    assert!(matches!(binding.action(), BindAction::FindGroup("example")));
    binding.step(BindAnswer::GroupFound(Ok(Some(970))));
    assert!(matches!(binding.action(), BindAction::GiveToGroup(970)));
    binding.step(BindAnswer::GroupGiven(Ok(())));
    assert_eq!(said(&binding), None);
}

/// None of the ways in which a socket can miss its group is fatal, and none is
/// silent.
#[test]
fn a_group_that_was_not_given_is_a_line() {
    let found = || {
        let mut binding = listening(Some("example"));
        binding.step(BindAnswer::ModeSet(Ok(())));
        binding
    };
    let mut absent = found();
    absent.step(BindAnswer::GroupFound(Ok(None)));
    assert_eq!(
        said(&absent),
        Some(
            "exampled: there is no example group on this host, so /s keeps its own \
             group and only root can connect"
                .to_owned()
        )
    );
    let mut unresolved = found();
    unresolved.step(BindAnswer::GroupFound(Err(error(ErrorKind::Other, "no directory"))));
    assert_eq!(
        said(&unresolved),
        Some(
            "exampled: could not resolve the example group, so the socket keeps its \
             own group and unprivileged clients cannot connect: no directory"
                .to_owned()
        )
    );
    let mut not_given = found();
    not_given.step(BindAnswer::GroupFound(Ok(Some(970))));
    not_given.step(BindAnswer::GroupGiven(Err(error(ErrorKind::Other, "denied"))));
    assert_eq!(
        said(&not_given),
        Some(
            "exampled: could not give /s to the example group, \
             so unprivileged clients cannot connect: denied"
                .to_owned()
        )
    );
}

#[test]
fn a_server_passes_over_an_absent_group() {
    let mut binding = Binding::new(
        uds_policy::ServerConfig::new("/s").with_socket_group("example").plan("exampled"),
    );
    binding.step(BindAnswer::PathChecked(false));
    binding.step(BindAnswer::Listening(Ok(())));
    binding.step(BindAnswer::ModeSet(Ok(())));
    binding.step(BindAnswer::GroupFound(Ok(None)));
    assert_eq!(said(&binding), None);
}

#[test]
fn the_failure_behind_a_bind_error_can_be_had() {
    let cause = error(ErrorKind::Other, "denied");
    assert_eq!(BindError::from(cause.clone()).source(), Some(&cause));
    assert_eq!(
        BindError::Unverifiable("/s".to_owned(), cause.clone()).clone().source(),
        Some(&cause)
    );
    assert_eq!(BindError::AlreadyActive("/s".to_owned()).source(), None);
    assert_eq!(BindError::NotASocket("/s".to_owned()).source(), None);
}

#[test]
fn an_accept_timeout_is_seconds_and_microseconds() {
    assert_eq!(accept_timeout(&Duration::from_millis(1_500)), Ok((1, 500_000)));
    assert_eq!(accept_timeout(&Duration::new(2, 1_999)), Ok((2, 1)));
    assert_eq!(accept_timeout(&Duration::from_secs(0)), Ok((0, 0)));
    assert!(is_settable(&Duration::from_secs(60)));
    assert!(is_settable(&Duration::from_secs(9_223_372_036_853)));
    assert!(!is_settable(&Duration::from_secs(9_223_372_036_854)));
}

#[test]
fn an_accept_timeout_can_be_out_of_range() {
    let eternity = Duration::from_secs(u64::MAX);
    assert!(is_settable(&eternity));
    assert_eq!(
        accept_timeout(&eternity).map_err(|error| error.to_string()),
        Err("timeout out of range: out of range integral type conversion attempted".to_owned())
    );
}

/// Either `root` or `wheel` owns gid 0, depending on the distribution.
#[test]
fn the_group_database_is_asked() {
    let gid = |name: &str| lookup_group_gid(name).expect("the lookup failed");
    assert!(gid("root") == Some(0) || gid("wheel") == Some(0));
}

#[test]
fn a_failed_lookup_is_not_an_absent_group() {
    assert_eq!(resolved(Ok(Some(7))), Ok(Some(7)));
    assert_eq!(resolved(Ok(None)), Ok(None));
    let failed = resolved(Err(nix::errno::Errno::ENOENT)).unwrap_err();
    assert_eq!(failed.kind, ErrorKind::NotFound);
    assert!(failed.message.ends_with("(os error 2)"), "{}", failed.message);
    let failed = resolved(Err(nix::errno::Errno::EACCES)).unwrap_err();
    assert_eq!(failed.kind, ErrorKind::Host(std::io::ErrorKind::PermissionDenied));
    assert!(failed.message.ends_with("(os error 13)"), "{}", failed.message);
}

/// The caller comes first, then the configured deadline, then the connection.
#[test]
fn an_accepted_connection_is_identified_and_then_bounded() {
    let config = SocketConfig::new("exampled", "/s");
    let peer = || Ok(PeerCredentials { pid: 3, uid: 1, gid: 2 });
    let identified = config.accepted().peer_read(peer());
    assert_eq!(identified.deadline(), Deadline::Within(Duration::from_secs(30)));
    assert_eq!(
        identified.deadline_set(Ok(())),
        Ok(Caller::Peer { pid: 3, uid: 1, gid: 2 })
    );
    let denied = error(ErrorKind::Other, "denied");
    let identified = config.accepted().peer_read(peer());
    assert_eq!(identified.deadline_set(Err(denied.clone())), Err(denied));
}

/// No deadline is an explicit choice: the inherited one is cleared.
#[test]
fn no_deadline_clears_the_inherited_one() {
    let config = SocketConfig::new("exampled", "/s").with_request_read_timeout(None);
    let identified = config.accepted().peer_read(Err("why".to_owned()));
    assert_eq!(identified.deadline(), Deadline::Cleared);
    assert_eq!(
        identified.deadline_set(Ok(())),
        Ok(Caller::Unreadable("why".to_owned()))
    );
}
