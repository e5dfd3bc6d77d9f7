//! Whether a named call may be run, and who says so.
//!
//! A daemon consults the [`Authorizer`] for every call, not only the gated
//! ones, and hands over the [`Caller`] the kernel reported. An authorizer that
//! saw only the call could decide whether a kind of call is allowed and never
//! whether this party may make it.
use crate::call::{self, Authorization, Call};
use crate::caller::Caller;
use crate::text::{self, decimal_text};
use std::collections::BTreeSet;
use vstd::prelude::*;
use vstd::string::StringExecFns;

verus! {

broadcast use vstd::std_specs::btree::group_btree_axioms;

/// Why a call was refused.
///
/// A string, because refusals are not classified here. The daemon decides how
/// one is reported on whatever wire it speaks.
#[derive(Debug, PartialEq, Eq)]
pub struct Denial {
    /// Operator-facing explanation. Reaches the client, so it must not carry
    /// anything the client should not learn.
    pub reason: String,
}

impl Clone for Denial {
    fn clone(&self) -> (copy: Self)
        ensures
            copy == *self,
    {
        Denial { reason: self.reason.clone() }
    }
}

impl Denial {
    /// A refusal with a reason.
    pub fn new(reason: String) -> (denial: Self)
        ensures
            denial == (Denial { reason }),
    {
        Denial { reason }
    }

    /// Sugar for the shape every refusing authorizer ends with.
    pub fn into_result(self) -> (refusal: Result<(), Self>)
        ensures
            refusal == Err::<(), Denial>(self),
    {
        Err(self)
    }
}

/// Decides whether a caller may make a call.
pub trait Authorizer: Send + Sync {
    /// What this authorizer may decide. One that decides by its arguments
    /// alone admits a single decision for each of them; one that consults
    /// something else admits as many as that something allows. An authorizer
    /// that says nothing about itself may decide anything.
    open spec fn decides(&self, call: Call, caller: Caller, decision: Result<(), Denial>) -> bool {
        true
    }

    /// Allow or refuse `call` for `caller`.
    ///
    /// Meant to be consulted after the call is named and before its arguments
    /// are parsed, so that a refusal costs nothing and reveals nothing about
    /// the payload.
    fn authorize(&self, call: Call, caller: &Caller) -> (decision: Result<(), Denial>)
        ensures
            self.decides(call, *caller, decision),
    ;
}

/// A decision, with a refusal given by its words.
pub open spec fn decision_text(decision: Result<(), Denial>) -> Option<Seq<char>> {
    match decision {
        Ok(()) => None,
        Err(denial) => Some(denial.reason@),
    }
}

/// Reaching the socket is the whole gate.
///
/// The right default for a daemon whose socket is `0660 root:<group>`, and the
/// wrong one for a daemon whose socket is world-writable.
#[derive(Debug, Clone, Copy)]
pub struct AllowSocketPeers;

impl Default for AllowSocketPeers {
    fn default() -> (authorizer: Self)
        ensures
            authorizer == AllowSocketPeers,
    {
        AllowSocketPeers
    }
}

impl Authorizer for AllowSocketPeers {
    open spec fn decides(&self, call: Call, caller: Caller, decision: Result<(), Denial>) -> bool {
        decision is Ok
    }

    fn authorize(&self, _call: Call, _caller: &Caller) -> (decision: Result<(), Denial>) {
        Ok(())
    }
}

/// Refuses everything, naming the action id it would have needed.
///
/// The safe default for a daemon whose real authorizer is not wired yet.
#[derive(Debug, Clone, Copy)]
pub struct DenyAll;

/// The words in which [`DenyAll`] refuses a call.
pub open spec fn blanket_refusal(call: Call) -> Seq<char> {
    match call.authorization {
        Authorization::Policy(action) => "authorization required for "@ + action@ + " before "@
            + call::call_name(call),
        Authorization::Unprivileged => "this daemon is not accepting calls: "@ + call::call_name(
            call,
        ),
    }
}

impl Default for DenyAll {
    fn default() -> (authorizer: Self)
        ensures
            authorizer == DenyAll,
    {
        DenyAll
    }
}

impl Authorizer for DenyAll {
    open spec fn decides(&self, call: Call, caller: Caller, decision: Result<(), Denial>) -> bool {
        decision_text(decision) == Some(blanket_refusal(call))
    }

    fn authorize(&self, call: Call, _caller: &Caller) -> (decision: Result<(), Denial>) {
        let reason = match call.authorization {
            Authorization::Policy(action) => {
                let mut reason = "authorization required for ".to_owned();
                reason.append(action);
                reason.append(" before ");
                reason.append(call.to_string().as_str());
                reason
            },
            Authorization::Unprivileged => {
                let mut reason = "this daemon is not accepting calls: ".to_owned();
                reason.append(call.to_string().as_str());
                reason
            },
        };
        Denial::new(reason).into_result()
    }
}

/// Allows only callers whose kernel-reported uid or gid is on a list.
///
/// A caller matches if its uid is in `allowed_uids` or its gid is in
/// `allowed_gids`; empty sets match nothing, so a gate configured with neither
/// refuses every peer rather than silently degrading to "allow all".
///
/// The gid is the caller's primary one, because that is the one gid the kernel
/// reports.
#[derive(Debug)]
pub struct PeerGate {
    /// User ids that may call.
    pub allowed_uids: BTreeSet<u32>,
    /// Group ids that may call.
    pub allowed_gids: BTreeSet<u32>,
    /// Whether a caller the kernel would not report is refused.
    pub reject_unreadable_caller: bool,
}

/// The words in which a gate refuses a caller, if it refuses it.
pub open spec fn gate_refusal(gate: PeerGate, call: Call, caller: Caller) -> Option<Seq<char>> {
    match caller {
        Caller::Peer { uid, gid, .. } => if gate.allowed_uids@.contains(uid)
            || gate.allowed_gids@.contains(gid) {
            None
        } else {
            Some(
                "uid "@ + text::decimal(uid as nat) + " gid "@ + text::decimal(gid as nat)
                    + " may not call "@ + call::call_name(call),
            )
        },
        Caller::InProcess => None,
        Caller::Unreadable(reason) => if gate.reject_unreadable_caller {
            Some(
                "the caller could not be identified ("@ + reason@
                    + "), and this daemon does not serve unidentified callers"@,
            )
        } else {
            None
        },
    }
}

/// The members of a list, each once.
fn set_of(members: &[u32]) -> (set: BTreeSet<u32>)
    ensures
        set@ == members@.to_set(),
{
    let mut set: BTreeSet<u32> = BTreeSet::new();
    let mut at: usize = 0;
    assert(set@ =~= members@.take(0).to_set());
    while at < members.len()
        invariant
            at <= members@.len(),
            set@ == members@.take(at as int).to_set(),
        decreases members@.len() - at,
    {
        set.insert(members[at]);
        proof {
            let some = members@.take(at as int);
            let more = members@.take(at + 1);
            assert(more =~= some.push(members@[at as int]));
            assert forall|member: u32|
                more.contains(member) == (some.contains(member) || member == members@[at as int])
                by {
                if some.contains(member) {
                    let i = some.index_of(member);
                    assert(more[i] == member);
                }
                if member == members@[at as int] {
                    assert(more[at as int] == member);
                }
            }
            assert(more.to_set() =~= some.to_set().insert(members@[at as int]));
        }
        at = at + 1;
    }
    assert(members@.take(at as int) =~= members@);
    set
}

impl Default for PeerGate {
    /// A gate with no names on it, which refuses unreadable callers as well:
    /// a call that cannot be attributed is one that cannot be audited.
    fn default() -> (gate: Self)
        ensures
            gate.allowed_uids@ == Set::<u32>::empty(),
            gate.allowed_gids@ == Set::<u32>::empty(),
            gate.reject_unreadable_caller,
    {
        PeerGate {
            allowed_uids: BTreeSet::new(),
            allowed_gids: BTreeSet::new(),
            reject_unreadable_caller: true,
        }
    }
}

impl Clone for PeerGate {
    fn clone(&self) -> (copy: Self)
        ensures
            copy.allowed_uids@ == self.allowed_uids@,
            copy.allowed_gids@ == self.allowed_gids@,
            copy.reject_unreadable_caller == self.reject_unreadable_caller,
    {
        PeerGate {
            allowed_uids: self.allowed_uids.clone(),
            allowed_gids: self.allowed_gids.clone(),
            reject_unreadable_caller: self.reject_unreadable_caller,
        }
    }
}

impl PeerGate {
    /// A gate that admits `uids`, refuses unreadable callers, and names no
    /// groups.
    pub fn for_uids(uids: &[u32]) -> (gate: Self)
        ensures
            gate.allowed_uids@ == uids@.to_set(),
            gate.allowed_gids@ == Set::<u32>::empty(),
            gate.reject_unreadable_caller,
    {
        PeerGate {
            allowed_uids: set_of(uids),
            allowed_gids: BTreeSet::new(),
            reject_unreadable_caller: true,
        }
    }

    /// A gate that admits `gids`, refuses unreadable callers, and names no
    /// users.
    pub fn for_gids(gids: &[u32]) -> (gate: Self)
        ensures
            gate.allowed_uids@ == Set::<u32>::empty(),
            gate.allowed_gids@ == gids@.to_set(),
            gate.reject_unreadable_caller,
    {
        PeerGate {
            allowed_uids: BTreeSet::new(),
            allowed_gids: set_of(gids),
            reject_unreadable_caller: true,
        }
    }
}

impl Authorizer for PeerGate {
    open spec fn decides(&self, call: Call, caller: Caller, decision: Result<(), Denial>) -> bool {
        decision_text(decision) == gate_refusal(*self, call, caller)
    }

    fn authorize(&self, call: Call, caller: &Caller) -> (decision: Result<(), Denial>) {
        match caller {
            Caller::Peer { uid, gid, .. } => {
                if self.allowed_uids.contains(uid) || self.allowed_gids.contains(gid) {
                    return Ok(());
                }
                let mut reason = "uid ".to_owned();
                reason.append(decimal_text(*uid as u128).as_str());
                reason.append(" gid ");
                reason.append(decimal_text(*gid as u128).as_str());
                reason.append(" may not call ");
                reason.append(call.to_string().as_str());
                Err(Denial::new(reason))
            },
            // The daemon calling itself has already passed every gate there is
            // by virtue of being the daemon.
            Caller::InProcess => Ok(()),
            Caller::Unreadable(unread) => {
                if self.reject_unreadable_caller {
                    let mut reason = "the caller could not be identified (".to_owned();
                    reason.append(unread.as_str());
                    reason.append("), and this daemon does not serve unidentified callers");
                    Err(Denial::new(reason))
                } else {
                    Ok(())
                }
            },
        }
    }
}

/// A gate admits exactly the peers whose uid or gid it lists.
pub proof fn gate_admits_exactly_the_listed(
    gate: PeerGate,
    call: Call,
    pid: i32,
    uid: u32,
    gid: u32,
    decision: Result<(), Denial>,
)
    requires
        gate.decides(call, Caller::Peer { pid, uid, gid }, decision),
    ensures
        decision is Ok <==> gate.allowed_uids@.contains(uid) || gate.allowed_gids@.contains(gid),
{
}

/// A gate that lists nobody refuses every peer, whatever the call.
pub proof fn empty_gate_refuses_every_peer(
    gate: PeerGate,
    call: Call,
    pid: i32,
    uid: u32,
    gid: u32,
    decision: Result<(), Denial>,
)
    requires
        gate.allowed_uids@ == Set::<u32>::empty(),
        gate.allowed_gids@ == Set::<u32>::empty(),
        gate.decides(call, Caller::Peer { pid, uid, gid }, decision),
    ensures
        decision is Err,
{
}

/// A daemon that calls itself is let through, whoever is listed.
pub proof fn gate_admits_the_daemon_itself(
    gate: PeerGate,
    call: Call,
    decision: Result<(), Denial>,
)
    requires
        gate.decides(call, Caller::InProcess, decision),
    ensures
        decision is Ok,
{
}

/// A caller that could not be read is refused exactly where a `PeerGate` is
/// configured to refuse it, whoever it lists.
pub proof fn gate_takes_unreadable_callers_by_configuration(
    gate: PeerGate,
    call: Call,
    reason: String,
    decision: Result<(), Denial>,
)
    requires
        gate.decides(call, Caller::Unreadable(reason), decision),
    ensures
        decision is Err <==> gate.reject_unreadable_caller,
{
}

/// What a gate decides does not depend on which call is made, only what it
/// says when it refuses does.
pub proof fn gate_looks_at_the_caller_alone(
    gate: PeerGate,
    one: Call,
    other: Call,
    caller: Caller,
    decision: Result<(), Denial>,
    again: Result<(), Denial>,
)
    requires
        gate.decides(one, caller, decision),
        gate.decides(other, caller, again),
    ensures
        decision is Ok <==> again is Ok,
{
}

/// [`DenyAll`] admits nobody, and [`AllowSocketPeers`] refuses nobody.
pub proof fn blanket_authorizers_make_no_exception(
    call: Call,
    caller: Caller,
    refusal: Result<(), Denial>,
    admission: Result<(), Denial>,
)
    requires
        DenyAll.decides(call, caller, refusal),
        AllowSocketPeers.decides(call, caller, admission),
    ensures
        refusal is Err,
        admission is Ok,
{
}

/// A gate's refusal of a peer names the peer and the call, and its refusal of a
/// caller that could not be read gives the reason for that.
pub proof fn a_gate_says_whom_it_refuses(
    gate: PeerGate,
    call: Call,
    caller: Caller,
    denial: Denial,
)
    requires
        gate.decides(call, caller, Err(denial)),
    ensures
        caller matches Caller::Peer { uid, gid, .. } ==> denial.reason@ == "uid "@ + text::decimal(
            uid as nat,
        ) + " gid "@ + text::decimal(gid as nat) + " may not call "@ + call.object@ + "."@
            + call.method@,
        caller matches Caller::Unreadable(reason) ==> denial.reason@
            == "the caller could not be identified ("@ + reason@
            + "), and this daemon does not serve unidentified callers"@,
        !(caller is InProcess),
{
    if let Caller::Peer { uid, gid, .. } = caller {
        let head = "uid "@ + text::decimal(uid as nat) + " gid "@ + text::decimal(gid as nat)
            + " may not call "@;
        assert(head + (call.object@ + "."@ + call.method@) =~= head + call.object@ + "."@
            + call.method@);
    }
}

/// [`DenyAll`] names the action that a gated call would have needed, and the
/// call.
pub proof fn a_blanket_refusal_names_the_call(call: Call, caller: Caller, denial: Denial)
    requires
        DenyAll.decides(call, caller, Err(denial)),
    ensures
        call.authorization matches Authorization::Policy(action) ==> denial.reason@
            == "authorization required for "@ + action@ + " before "@ + call.object@ + "."@
            + call.method@,
        call.authorization is Unprivileged ==> denial.reason@
            == "this daemon is not accepting calls: "@ + call.object@ + "."@ + call.method@,
{
    if let Authorization::Policy(action) = call.authorization {
        let head = "authorization required for "@ + action@ + " before "@;
        assert(head + (call.object@ + "."@ + call.method@) =~= head + call.object@ + "."@
            + call.method@);
    } else {
        let head = "this daemon is not accepting calls: "@;
        assert(head + (call.object@ + "."@ + call.method@) =~= head + call.object@ + "."@
            + call.method@);
    }
}

/// Who is listed decides, and nothing else about a peer does: two peers with
/// the same uid and gid are decided alike, whatever their pids and calls.
pub proof fn a_gate_knows_peers_by_their_ids(
    gate: PeerGate,
    one: Call,
    other: Call,
    pid: i32,
    other_pid: i32,
    uid: u32,
    gid: u32,
    decision: Result<(), Denial>,
    again: Result<(), Denial>,
)
    requires
        gate.decides(one, Caller::Peer { pid, uid, gid }, decision),
        gate.decides(other, Caller::Peer { pid: other_pid, uid, gid }, again),
    ensures
        decision is Ok <==> again is Ok,
{
}

/// A decision is an admission or a refusal in its own words.
pub proof fn a_decision_by_its_words(denial: Denial)
    ensures
        decision_text(Ok(())) is None,
        decision_text(Err(denial)) == Some(denial.reason@),
{
}

/// A gate made for users lets exactly those through, a gate made for groups
/// exactly the members of those by their primary group, and a gate made for
/// nobody nobody. None of them serves a caller that could not be read.
pub proof fn a_gate_is_for_whom_it_was_made(
    ids: &[u32],
    users: PeerGate,
    groups: PeerGate,
    nobody: PeerGate,
    call: Call,
    pid: i32,
    uid: u32,
    gid: u32,
    reason: String,
    user: Result<(), Denial>,
    member: Result<(), Denial>,
    anybody: Result<(), Denial>,
    unread: Result<(), Denial>,
)
    requires
        call_ensures(PeerGate::for_uids, (ids,), users),
        call_ensures(PeerGate::for_gids, (ids,), groups),
        call_ensures(<PeerGate as Default>::default, (), nobody),
        users.decides(call, Caller::Peer { pid, uid, gid }, user),
        groups.decides(call, Caller::Peer { pid, uid, gid }, member),
        nobody.decides(call, Caller::Peer { pid, uid, gid }, anybody),
        nobody.decides(call, Caller::Unreadable(reason), unread),
    ensures
        user is Ok <==> ids@.contains(uid),
        member is Ok <==> ids@.contains(gid),
        anybody is Err,
        unread is Err,
{
}

/// A gate that is asked decides as it was set up to.
pub proof fn a_gate_that_is_asked_decides(
    gate: PeerGate,
    call: Call,
    pid: i32,
    uid: u32,
    gid: u32,
    caller: Caller,
    decision: Result<(), Denial>,
)
    requires
        caller == (Caller::Peer { pid, uid, gid }),
        call_ensures(<PeerGate as Authorizer>::authorize, (&gate, call, &caller), decision),
    ensures
        decision is Ok <==> gate.allowed_uids@.contains(uid) || gate.allowed_gids@.contains(gid),
{
}

}
