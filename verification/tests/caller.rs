//! Who asked, and how they are written down.

use uds_policy::caller::{looked_up, lookup, sanitize, PeerCredentials};
use uds_policy::{AccountNames, Caller};

/// The line must name the caller in the shape an operator greps for.
#[test]
fn a_peer_is_rendered_with_its_numbers() {
    let caller = Caller::Peer {
        pid: 1421,
        uid: 4_294_967_294,
        gid: 4_294_967_293,
    };
    // A uid no account owns still answers the question, with numbers.
    assert_eq!(
        caller.to_string(&mut AccountNames::new()),
        "uid 4294967294 gid 4294967293 pid 1421"
    );
}

/// The framework never claims to know a caller it could not read.
#[test]
fn a_callerless_dispatch_has_no_numbers() {
    assert_eq!(Caller::InProcess.uid(), None);
    assert_eq!(Caller::InProcess.gid(), None);
    assert_eq!(Caller::InProcess.pid(), None);
    assert_eq!(Caller::InProcess.account_name(&mut AccountNames::new()), None);
}

/// An unreadable caller says so, with the reason.
#[test]
fn an_unreadable_caller_is_recorded_not_dropped() {
    let caller = Caller::Unreadable("Socket operation on non-socket".to_owned());
    assert_eq!(
        caller.to_string(&mut AccountNames::new()),
        "unreadable (Socket operation on non-socket)"
    );
}

#[test]
fn an_account_name_cannot_forge_a_journal_line() {
    let forged = sanitize(&format!("a\nexampled: audit: ok {}", "x".repeat(200)));
    assert!(!forged.contains('\n'), "a name can forge a journal line");
    assert!(forged.chars().count() <= 64, "a name is unbounded");
}

#[test]
fn a_short_name_is_kept_as_it_is() {
    assert_eq!(sanitize("root"), "root");
    assert_eq!(sanitize("a\rb\nc"), "a b c");
    assert_eq!(sanitize(&"ä".repeat(70)), "ä".repeat(64));
}

#[test]
fn the_kernels_answer_becomes_the_caller() {
    let peer = Caller::of_peer(Ok(PeerCredentials { pid: 3, uid: 1, gid: 2 }));
    assert_eq!(peer, Caller::Peer { pid: 3, uid: 1, gid: 2 });
    assert_eq!(peer.pid(), Some(3));
    assert_eq!(peer.uid(), Some(1));
    assert_eq!(peer.gid(), Some(2));
    assert_eq!(
        Caller::of_peer(Err("ENOTSOCK".to_owned())),
        Caller::Unreadable("ENOTSOCK".to_owned())
    );
}

#[test]
fn a_named_peer_is_rendered_with_its_name_before_its_numbers() {
    let caller = Caller::Peer { pid: -1, uid: 0, gid: 10 };
    assert_eq!(caller.describe(Some("root")), "root(uid 0 gid 10 pid -1)");
    assert_eq!(caller.describe(None), "uid 0 gid 10 pid -1");
    assert_eq!(Caller::InProcess.describe(Some("root")), "in-process");
}

/// uid 0 has an account everywhere.
#[test]
fn the_account_database_is_asked() {
    assert_eq!(lookup(0), looked_up(0, Ok(Some("root".to_owned()))));
    assert_eq!(lookup(0).found(), &Some(Some("root".to_owned())));
    assert_eq!(lookup(4_294_967_294).found(), &Some(None));
    let mut names = AccountNames::new();
    let root = Caller::Peer { pid: 1, uid: 0, gid: 0 };
    assert_eq!(root.account_name(&mut names), Some("root".to_owned()));
    assert_eq!(root.to_string(&mut names), "root(uid 0 gid 0 pid 1)");
}

/// What is remembered is what is answered, whatever the database would say.
#[test]
fn a_remembered_name_is_not_looked_up_again() {
    let mut names = AccountNames::new();
    assert_eq!(names.cached(0), None);
    let account = names.remember(looked_up(0, Ok(Some("toor\n".to_owned()))));
    assert_eq!(account.uid(), 0);
    assert_eq!(account.name(), Some("toor "));
    assert_eq!(names.cached(0), Some(account));
    assert_eq!(names.cached(1), None);
    assert_eq!(names.name_for_uid(0), Some("toor ".to_owned()));
}

#[test]
fn an_absent_account_is_remembered_and_a_failed_lookup_is_not() {
    let mut names = AccountNames::new();
    let failed = || Err(nix::errno::Errno::EIO);
    assert_eq!(names.remember(looked_up(0, failed())).into_name(), None);
    assert_eq!(names.cached(0), None);
    assert_eq!(names.remember(looked_up(0, Ok(None))).into_name(), None);
    assert_eq!(names.cached(0).unwrap().name(), None);
    assert_eq!(names.remember(looked_up(0, failed())).into_name(), None);
    assert_eq!(names.cached(0).unwrap().uid(), 0);
    assert_eq!(names.name_for_uid(0), None);
}

#[test]
fn a_copied_caller_is_the_same_caller() {
    for caller in [
        Caller::Peer { pid: 1, uid: 2, gid: 3 },
        Caller::Unreadable("why".to_owned()),
        Caller::InProcess,
    ] {
        assert_eq!(caller.clone(), caller);
    }
}

#[test]
fn the_two_ways_of_having_no_name_are_kept_apart() {
    assert_eq!(
        looked_up(7, Ok(Some("a\nb".to_owned()))).found(),
        &Some(Some("a b".to_owned()))
    );
    assert_eq!(looked_up(7, Ok(None)).found(), &Some(None));
    assert_eq!(looked_up(7, Err(nix::errno::Errno::EIO)).found(), &None);
}

#[test]
fn every_remembered_name_is_one_short_line() {
    let mut names = AccountNames::new();
    for (uid, name) in [(1, "a\r\nb".to_owned()), (2, "x".repeat(500)), (1, "c".to_owned())] {
        names.remember(looked_up(uid, Ok(Some(name))));
    }
    for (uid, kept) in [(1, "c".to_owned()), (2, "x".repeat(64))] {
        assert_eq!(names.name_for_uid(uid), Some(kept));
    }
}
