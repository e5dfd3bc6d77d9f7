//! Who asked.
//!
//! Nothing in a request can establish who sent it: a header is a claim by the
//! party being identified. The kernel's answer about the peer of a socket is
//! not, and it is asked for once per connection, before the first request byte.
//!
//! A caller that cannot be read is recorded as such, with the reason, rather
//! than omitted. A trail whose gaps are invisible is worse than none.
use crate::text::{self, bounded_line, decimal_text, signed_decimal_text};
use std::collections::HashMap;
use vstd::prelude::*;
use vstd::string::StringExecFns;

verus! {

broadcast use vstd::std_specs::hash::group_hash_axioms;

/// How much of an account name reaches the journal.
///
/// A name comes from the host's account database, which may be a directory
/// that is not under this machine's control, so it is bounded and stripped of
/// line breaks: it must not be able to flood a small log or forge a line.
pub const MAX_CALLER_NAME_CHARS: usize = 64;

/// `nix::errno::Errno`, carried and never looked into.
#[verifier::external_type_specification]
#[verifier::external_body]
pub struct ExErrno(nix::errno::Errno);

/// Whether the host's account database may answer this when it is asked about
/// a uid: with a name, that nothing owns the uid, or not at all. Which of the
/// answers comes is the host's own business, and it may change its mind.
pub uninterp spec fn account_answer(uid: u32, answer: Option<Option<Seq<char>>>) -> bool;

/// `nix::unistd::User::from_uid`: the name of the account that owns a uid, if
/// one does. What comes back is an answer to the question about this uid; what
/// the answer is, is not claimed.
#[verifier::external_body]
fn account_of(uid: u32) -> (found: Result<Option<String>, nix::errno::Errno>)
    ensures
        account_answer(uid, answer_in(found)),
{
    nix::unistd::User::from_uid(nix::unistd::Uid::from_raw(uid)).map(
        |user| user.map(|account| account.name),
    )
}

/// What the kernel says about the peer of a connected socket.
#[derive(Debug, Clone, Copy, PartialEq, Eq, Structural)]
pub struct PeerCredentials {
    /// The peer's process id at `connect(2)` time.
    pub pid: i32,
    /// The peer's effective user id at `connect(2)` time.
    pub uid: u32,
    /// The peer's effective group id at `connect(2)` time.
    pub gid: u32,
}

/// The party a dispatched call is attributed to.
#[derive(Debug, PartialEq, Eq)]
pub enum Caller {
    /// The peer of a connected socket, as the kernel reports it.
    Peer {
        /// The peer's process id at `connect(2)` time.
        pid: i32,
        /// The peer's effective user id at `connect(2)` time.
        uid: u32,
        /// The peer's effective group id at `connect(2)` time.
        gid: u32,
    },
    /// A socket whose peer could not be read, and why.
    Unreadable(String),
    /// No socket at all: an in-process entry point or a test dispatching
    /// directly against a service.
    InProcess,
}

/// The caller that the kernel's answer about a peer stands for.
pub open spec fn caller_for(answer: Result<PeerCredentials, String>) -> Caller {
    match answer {
        Ok(peer) => Caller::Peer { pid: peer.pid, uid: peer.uid, gid: peer.gid },
        Err(reason) => Caller::Unreadable(reason),
    }
}

/// The uid of a caller that has one.
pub open spec fn uid_of(caller: Caller) -> Option<u32> {
    match caller {
        Caller::Peer { uid, .. } => Some(uid),
        _ => None,
    }
}

/// How a caller is written in a journal line, given the name of the account
/// behind its uid where there is one.
pub open spec fn caller_text(caller: Caller, account: Option<Seq<char>>) -> Seq<char> {
    match caller {
        Caller::Peer { pid, uid, gid } => {
            let numbers = "uid "@ + text::decimal(uid as nat) + " gid "@ + text::decimal(gid as nat)
                + " pid "@ + text::signed_decimal(pid as int);
            match account {
                Some(name) => name + "("@ + numbers + ")"@,
                None => numbers,
            }
        },
        Caller::Unreadable(reason) => "unreadable ("@ + reason@ + ")"@,
        Caller::InProcess => "in-process"@,
    }
}

/// An answer of the account database, over the name in it.
pub open spec fn answer_in(
    answer: Result<Option<String>, nix::errno::Errno>,
) -> Option<Option<Seq<char>>> {
    match answer {
        Ok(name) => Some(text::text_in(name)),
        Err(_) => None,
    }
}

/// The answer that a lookup gave, over the text it found.
pub open spec fn found_in(found: Option<Option<String>>) -> Option<Option<Seq<char>>> {
    match found {
        Some(name) => Some(text::text_in(name)),
        None => None,
    }
}

impl Clone for Caller {
    fn clone(&self) -> (copy: Self)
        ensures
            copy == *self,
    {
        match self {
            Caller::Peer { pid, uid, gid } => Caller::Peer { pid: *pid, uid: *uid, gid: *gid },
            Caller::Unreadable(reason) => Caller::Unreadable(reason.clone()),
            Caller::InProcess => Caller::InProcess,
        }
    }
}

impl Caller {
    /// The peer of an accepted connection, from the kernel's answer about it.
    ///
    /// Never fails: a daemon that refused to serve a request because it could
    /// not name the requester would trade an incomplete journal for an outage.
    /// The reason is carried into the line instead.
    pub fn of_peer(answer: Result<PeerCredentials, String>) -> (caller: Self)
        ensures
            caller == caller_for(answer),
    {
        match answer {
            Ok(peer) => Caller::Peer { pid: peer.pid, uid: peer.uid, gid: peer.gid },
            Err(reason) => Caller::Unreadable(reason),
        }
    }

    /// The peer's user id, when there is one.
    pub fn uid(&self) -> (uid: Option<u32>)
        ensures
            uid == uid_of(*self),
    {
        match self {
            Caller::Peer { uid, .. } => Some(*uid),
            _ => None,
        }
    }

    /// The peer's group id, when there is one.
    pub fn gid(&self) -> (gid: Option<u32>)
        ensures
            gid == match *self {
                Caller::Peer { gid, .. } => Some(gid),
                _ => None,
            },
    {
        match self {
            Caller::Peer { gid, .. } => Some(*gid),
            _ => None,
        }
    }

    /// The peer's process id, when there is one.
    pub fn pid(&self) -> (pid: Option<i32>)
        ensures
            pid == match *self {
                Caller::Peer { pid, .. } => Some(pid),
                _ => None,
            },
    {
        match self {
            Caller::Peer { pid, .. } => Some(*pid),
            _ => None,
        }
    }

    /// The account name behind the peer's uid, remembered in `names`.
    ///
    /// `None` for a caller with no uid, and for a uid no account owns, which
    /// is an ordinary thing for a live process to hold.
    pub fn account_name(&self, names: &mut AccountNames) -> (name: Option<String>)
        ensures
            match *self {
                Caller::Peer { uid, .. } => asked(
                    old(names)@,
                    uid,
                    final(names)@,
                    text::text_in(name),
                ),
                _ => name is None && final(names)@ == old(names)@,
            },
            name matches Some(known) ==> is_account_name(known@),
    {
        match self {
            Caller::Peer { uid, .. } => names.name_for_uid(*uid),
            _ => None,
        }
    }

    /// The caller as it is written in a journal line, with the account name
    /// that was found for it.
    pub fn describe(&self, account: Option<&str>) -> (line: String)
        ensures
            line@ == caller_text(*self, text::slice_text(account)),
    {
        match self {
            Caller::Peer { pid, uid, gid } => {
                let mut numbers = "uid ".to_owned();
                numbers.append(decimal_text(*uid as u128).as_str());
                numbers.append(" gid ");
                numbers.append(decimal_text(*gid as u128).as_str());
                numbers.append(" pid ");
                numbers.append(signed_decimal_text(*pid).as_str());
                match account {
                    Some(name) => {
                        let mut line = name.to_owned();
                        line.append("(");
                        line.append(numbers.as_str());
                        line.append(")");
                        line
                    },
                    None => numbers,
                }
            },
            Caller::Unreadable(reason) => {
                let mut line = "unreadable (".to_owned();
                line.append(reason.as_str());
                line.append(")");
                line
            },
            Caller::InProcess => "in-process".to_owned(),
        }
    }

    /// The caller as it is written in a journal line.
    pub fn to_string(&self, names: &mut AccountNames) -> (line: String)
        ensures
            exists|account: Option<Seq<char>>|
                {
                    &&& line@ == #[trigger] caller_text(*self, account)
                    &&& account matches Some(name) ==> is_account_name(name)
                    &&& match *self {
                        Caller::Peer { uid, .. } => asked(old(names)@, uid, final(names)@, account),
                        _ => account is None && final(names)@ == old(names)@,
                    }
                },
    {
        let name = self.account_name(names);
        let line = match &name {
            Some(account) => self.describe(Some(account.as_str())),
            None => self.describe(None),
        };
        assert(line@ == caller_text(*self, text::text_in(name)));
        line
    }
}

/// What is kept of an account name.
pub open spec fn sanitized(name: Seq<char>) -> Seq<char> {
    text::bounded(name, MAX_CALLER_NAME_CHARS as nat)
}

/// Bound and flatten an account name.
pub fn sanitize(name: &str) -> (kept: String)
    ensures
        kept@ == sanitized(name@),
{
    bounded_line(name, MAX_CALLER_NAME_CHARS)
}

/// Whether a name is fit for the journal: one line, and a short one.
pub open spec fn is_account_name(name: Seq<char>) -> bool {
    text::one_line(name) && name.len() <= MAX_CALLER_NAME_CHARS
}

/// The account behind a uid: its name, or that there is none to be had.
#[derive(Debug, PartialEq, Eq)]
pub struct Account {
    uid: u32,
    name: Option<String>,
}

/// Whose account it is, and what it is called.
#[verifier::ext_equal]
pub struct AccountView {
    /// The uid that was asked about.
    pub uid: u32,
    /// The name, if there is one to be had.
    pub name: Option<Seq<char>>,
}

impl View for Account {
    type V = AccountView;

    closed spec fn view(&self) -> AccountView {
        AccountView { uid: self.uid, name: text::text_in(self.name) }
    }
}

impl Account {
    #[verifier::type_invariant]
    spec fn well_formed(self) -> bool {
        self.name matches Some(name) ==> is_account_name(name@)
    }

    /// The uid that was asked about.
    pub fn uid(&self) -> (uid: u32)
        ensures
            uid == self@.uid,
    {
        self.uid
    }

    /// The name, if there is one to be had.
    pub fn name(&self) -> (name: Option<&str>)
        ensures
            text::slice_text(name) == self@.name,
            name matches Some(known) ==> is_account_name(known@),
    {
        proof {
            use_type_invariant(self);
        }
        match &self.name {
            Some(name) => Some(name.as_str()),
            None => None,
        }
    }

    /// The name, to keep.
    pub fn into_name(self) -> (name: Option<String>)
        ensures
            text::text_in(name) == self@.name,
            name matches Some(known) ==> is_account_name(known@),
    {
        proof {
            use_type_invariant(&self);
        }
        self.name
    }
}

/// What a lookup of a uid's name found: a name, that there is none, or
/// nothing, for a lookup that could not be completed.
#[derive(Debug, PartialEq, Eq)]
pub struct Lookup {
    uid: u32,
    found: Option<Option<String>>,
}

/// Which uid was looked up, and what was found.
#[verifier::ext_equal]
pub struct LookupView {
    /// The uid that was looked up.
    pub uid: u32,
    /// What was found.
    pub found: Option<Option<Seq<char>>>,
}

impl View for Lookup {
    type V = LookupView;

    closed spec fn view(&self) -> LookupView {
        LookupView { uid: self.uid, found: found_in(self.found) }
    }
}

impl Lookup {
    #[verifier::type_invariant]
    spec fn well_formed(self) -> bool {
        fit(found_in(self.found))
    }

    /// What was found.
    pub fn found(&self) -> (found: &Option<Option<String>>)
        ensures
            found_in(*found) == self@.found,
            fit(self@.found),
    {
        proof {
            use_type_invariant(self);
        }
        &self.found
    }
}

/// Whether what a lookup found is fit for the journal.
pub open spec fn fit(found: Option<Option<Seq<char>>>) -> bool {
    found matches Some(Some(name)) ==> is_account_name(name)
}

/// The account names that lookups have found, by uid. A uid that no account
/// owns is remembered as such. Every name is one short line.
#[derive(Debug)]
pub struct AccountNames {
    names: HashMap<u32, Option<String>>,
}

impl View for AccountNames {
    type V = Map<u32, Option<Seq<char>>>;

    closed spec fn view(&self) -> Map<u32, Option<Seq<char>>> {
        self.names@.map_values(|name: Option<String>| text::text_in(name))
    }
}

/// Whether every name in a map is one short line.
pub open spec fn all_account_names(names: Map<u32, Option<Seq<char>>>) -> bool {
    forall|uid: u32| #[trigger]
        names.contains_key(uid) ==> (names[uid] matches Some(name) ==> is_account_name(name))
}

/// What a finished lookup adds to what is remembered: a name, or that there is
/// none. A lookup that failed adds nothing.
pub open spec fn remembered(
    names: Map<u32, Option<Seq<char>>>,
    uid: u32,
    found: Option<Option<Seq<char>>>,
) -> Map<u32, Option<Seq<char>>> {
    match found {
        Some(name) => names.insert(uid, name),
        None => names,
    }
}

/// What is made of an answer of the account database: a name is kept as far as
/// it is fit for the journal.
pub open spec fn made_of(answer: Option<Option<Seq<char>>>) -> Option<Option<Seq<char>>> {
    match answer {
        Some(Some(name)) => Some(Some(sanitized(name))),
        _ => answer,
    }
}

/// What a finished lookup answers. A lookup that failed answers nothing.
pub open spec fn answered(found: Option<Option<Seq<char>>>) -> Option<Seq<char>> {
    match found {
        Some(name) => name,
        None => None,
    }
}

/// Whether asking for a uid's name may leave `after` of `before` and answer
/// `name`: a remembered answer is given again, and any other is made of what
/// the account database answered about this uid.
pub open spec fn asked(
    before: Map<u32, Option<Seq<char>>>,
    uid: u32,
    after: Map<u32, Option<Seq<char>>>,
    name: Option<Seq<char>>,
) -> bool {
    if before.contains_key(uid) {
        after == before && name == before[uid]
    } else {
        exists|answer: Option<Option<Seq<char>>>| #[trigger]
            account_answer(uid, answer) && after == remembered(before, uid, made_of(answer))
                && name == answered(made_of(answer))
    }
}

/// Whether an account goes by what the account database answered about its
/// uid.
pub open spec fn given_by_host(account: AccountView) -> bool {
    exists|answer: Option<Option<Seq<char>>>| #[trigger]
        account_answer(account.uid, answer) && account.name == answered(made_of(answer))
}

/// Whether every remembered name is one that the account database gave for the
/// uid it is remembered for.
pub open spec fn all_given_by_host(names: Map<u32, Option<Seq<char>>>) -> bool {
    forall|uid: u32| #[trigger]
        names.contains_key(uid) ==> given_by_host(AccountView { uid, name: names[uid] })
}

impl AccountNames {
    #[verifier::type_invariant]
    spec fn well_formed(self) -> bool {
        forall|uid: u32| #[trigger]
            self.names@.contains_key(uid) ==> (self.names@[uid] matches Some(name)
                ==> is_account_name(name@))
    }

    /// Nothing remembered.
    pub fn new() -> (names: Self)
        ensures
            names@ == Map::<u32, Option<Seq<char>>>::empty(),
    {
        let names = AccountNames { names: HashMap::new() };
        assert(names@ =~= Map::<u32, Option<Seq<char>>>::empty());
        names
    }

    /// The remembered answer for a uid, if there is one.
    pub fn cached(&self, uid: u32) -> (answer: Option<Account>)
        ensures
            match answer {
                Some(account) => self@.contains_key(uid) && account@ == (AccountView {
                    uid,
                    name: self@[uid],
                }),
                None => !self@.contains_key(uid),
            },
            answer matches Some(account) ==> (account@.name matches Some(name) ==> is_account_name(
                name,
            )),
    {
        proof {
            use_type_invariant(self);
        }
        match self.names.get(&uid) {
            Some(name) => match name {
                Some(found) => Some(Account { uid, name: Some(found.clone()) }),
                None => Some(Account { uid, name: None }),
            },
            None => None,
        }
    }

    /// Take in what a lookup found, and give the account it found it for.
    ///
    /// Absence is a real answer and is remembered. A lookup that failed is a
    /// transient condition, and remembering it would make one bad moment
    /// permanent for the life of the process.
    pub fn remember(&mut self, lookup: Lookup) -> (account: Account)
        ensures
            final(self)@ == remembered(old(self)@, lookup@.uid, lookup@.found),
            account@ == (AccountView { uid: lookup@.uid, name: answered(lookup@.found) }),
            account@.name matches Some(name) ==> is_account_name(name),
    {
        proof {
            use_type_invariant(&*self);
            use_type_invariant(&lookup);
        }
        let uid = lookup.uid;
        match lookup.found {
            Some(name) => {
                let kept = match &name {
                    Some(found) => Some(found.clone()),
                    None => None,
                };
                let mut names: HashMap<u32, Option<String>> = HashMap::new();
                std::mem::swap(&mut names, &mut self.names);
                names.insert(uid, kept);
                self.names = names;
                assert(self@ =~= old(self)@.insert(uid, text::text_in(name)));
                Account { uid, name }
            },
            None => Account { uid, name: None },
        }
    }

    /// The account name for a uid: the remembered one, or else the one the
    /// host's account database gives now. It is one short line.
    pub fn name_for_uid(&mut self, uid: u32) -> (name: Option<String>)
        ensures
            asked(old(self)@, uid, final(self)@, text::text_in(name)),
            name matches Some(known) ==> is_account_name(known@),
    {
        if let Some(account) = self.cached(uid) {
            return account.into_name();
        }
        let lookup = lookup(uid);
        self.remember(lookup).into_name()
    }
}

/// What an answer of the account database about a uid amounts to: a name that
/// is fit for the journal, that nothing owns the uid, or that the lookup could
/// not be completed.
pub fn looked_up(uid: u32, answer: Result<Option<String>, nix::errno::Errno>) -> (lookup: Lookup)
    ensures
        lookup@ == (LookupView { uid, found: made_of(answer_in(answer)) }),
        fit(lookup@.found),
{
    match answer {
        Ok(Some(name)) => {
            proof {
                account_name_is_one_short_line(name@);
            }
            Lookup { uid, found: Some(Some(sanitize(name.as_str()))) }
        },
        Ok(None) => Lookup { uid, found: Some(None) },
        Err(_unreachable) => Lookup { uid, found: None },
    }
}

/// Ask the host's account database for the name behind a uid.
///
/// What is found is made of what the host answered about this uid, and a name,
/// if there is one in it, is one short line. Which answer that is, is up to
/// the host.
pub fn lookup(uid: u32) -> (lookup: Lookup)
    ensures
        lookup@.uid == uid,
        exists|answer: Option<Option<Seq<char>>>| #[trigger]
            account_answer(uid, answer) && lookup@.found == made_of(answer),
        fit(lookup@.found),
{
    looked_up(uid, account_of(uid))
}

/// An account name, whatever the account database answered, cannot forge a
/// journal line and cannot flood one.
pub proof fn account_name_is_one_short_line(name: Seq<char>)
    ensures
        is_account_name(sanitized(name)),
{
    text::bounded_is_one_short_line(name, MAX_CALLER_NAME_CHARS as nat);
}

/// What is remembered of the host's answers stays that: asking about a uid
/// answers with what the host gave for this uid, now or when it was first
/// asked, and leaves nothing behind that the host did not give.
pub proof fn names_are_the_hosts_answers_about_their_uids(
    before: Map<u32, Option<Seq<char>>>,
    uid: u32,
    after: Map<u32, Option<Seq<char>>>,
    name: Option<Seq<char>>,
)
    requires
        asked(before, uid, after, name),
        all_given_by_host(before),
    ensures
        all_given_by_host(after),
        given_by_host(AccountView { uid, name }),
{
    if before.contains_key(uid) {
        assert(given_by_host(AccountView { uid, name: before[uid] }));
    } else {
        let answer = choose|answer: Option<Option<Seq<char>>>| #[trigger]
            account_answer(uid, answer) && after == remembered(before, uid, made_of(answer))
                && name == answered(made_of(answer));
        let account = AccountView { uid, name };
        assert(account_answer(account.uid, answer));
        assert(given_by_host(account));
        assert forall|other: u32| #[trigger] after.contains_key(other) implies given_by_host(
            AccountView { uid: other, name: after[other] },
        ) by {
            if other != uid {
                assert(before.contains_key(other));
            }
        }
    }
}

/// Asking keeps every remembered name one short line, and answers with one.
pub proof fn remembered_names_stay_short_lines(
    before: Map<u32, Option<Seq<char>>>,
    uid: u32,
    after: Map<u32, Option<Seq<char>>>,
    name: Option<Seq<char>>,
)
    requires
        asked(before, uid, after, name),
        all_account_names(before),
    ensures
        all_account_names(after),
        name matches Some(known) ==> is_account_name(known),
{
}

/// A lookup that was answered is not made again: whoever asks next is given
/// the same answer and nothing more is remembered.
pub proof fn an_answer_is_asked_for_once(
    before: Map<u32, Option<Seq<char>>>,
    uid: u32,
    found: Option<Seq<char>>,
    after: Map<u32, Option<Seq<char>>>,
    name: Option<Seq<char>>,
)
    requires
        asked(remembered(before, uid, Some(found)), uid, after, name),
    ensures
        after == remembered(before, uid, Some(found)),
        name == answered(Some(found)),
{
}

/// A lookup that failed is not remembered, so the next one is made afresh.
pub proof fn a_failed_lookup_leaves_no_trace(before: Map<u32, Option<Seq<char>>>, uid: u32)
    ensures
        remembered(before, uid, None) == before,
        answered(None) is None,
{
}

/// A caller is written on one line, as long as the reason it could not be read
/// and the account name behind it are each one line.
pub proof fn caller_is_one_line(caller: Caller, account: Option<Seq<char>>)
    requires
        account matches Some(name) ==> text::one_line(name),
        caller matches Caller::Unreadable(reason) ==> text::one_line(reason@),
    ensures
        text::one_line(caller_text(caller, account)),
{
    reveal_strlit("uid ");
    reveal_strlit(" gid ");
    reveal_strlit(" pid ");
    reveal_strlit("(");
    reveal_strlit(")");
    reveal_strlit("unreadable (");
    reveal_strlit("in-process");
    if let Caller::Peer { pid, uid, gid } = caller {
        text::decimal_is_digits(uid as nat);
        text::decimal_is_digits(gid as nat);
        if pid < 0 {
            text::decimal_is_digits((-pid) as nat);
        } else {
            text::decimal_is_digits(pid as nat);
        }
    }
}

/// A peer that the kernel named is the caller, as it was named, and a peer that
/// it would not name is a caller that could not be read, for the reason given.
pub proof fn the_kernels_answer_is_the_caller(peer: PeerCredentials, reason: String)
    ensures
        caller_for(Ok(peer)) == (Caller::Peer { pid: peer.pid, uid: peer.uid, gid: peer.gid }),
        caller_for(Err(reason)) == Caller::Unreadable(reason),
        uid_of(Caller::Peer { pid: peer.pid, uid: peer.uid, gid: peer.gid }) == Some(peer.uid),
        uid_of(Caller::Unreadable(reason)) is None,
        uid_of(Caller::InProcess) is None,
{
}

/// A peer is written by its uid, its gid and its pid, behind the name of its
/// account where there is one. A caller that could not be read is written by
/// the reason for that, and the daemon itself as such.
pub proof fn a_caller_is_written_by_its_numbers(
    pid: i32,
    uid: u32,
    gid: u32,
    name: Seq<char>,
    reason: String,
    account: Option<Seq<char>>,
)
    ensures
        ({
            let peer = Caller::Peer { pid, uid, gid };
            let numbers = "uid "@ + text::decimal(uid as nat) + " gid "@ + text::decimal(gid as nat)
                + " pid "@ + text::signed_decimal(pid as int);
            &&& caller_text(peer, None) == numbers
            &&& caller_text(peer, Some(name)) == name + seq!['('] + numbers + seq![')']
        }),
        caller_text(Caller::Unreadable(reason), account) == "unreadable ("@ + reason@ + seq![')'],
        caller_text(Caller::InProcess, account) == "in-process"@,
{
    reveal_strlit("(");
    reveal_strlit(")");
    assert("("@ =~= seq!['(']);
    assert(")"@ =~= seq![')']);
}

/// An account name is kept up to its first 64 characters, without line breaks,
/// and that is what makes it fit for the journal.
pub proof fn an_account_name_is_kept_up_to_its_bound(name: Seq<char>)
    ensures
        sanitized(name) == text::bounded(name, 64),
        fit(Some(Some(name))) <==> is_account_name(name),
        is_account_name(name) <==> name.len() <= 64 && !name.contains('\n') && !name.contains('\r'),
{
    text::one_line_holds_no_line_break(name);
}

/// What the account database answered is taken as it is, but for the bounds on
/// a name: a name is a name, none is none, and a lookup that failed found
/// nothing.
pub proof fn an_answer_is_taken_as_it_is(
    name: Seq<char>,
    string: String,
    errno: nix::errno::Errno,
)
    ensures
        made_of(Some(Some(name))) == Some(Some(text::bounded(name, 64))),
        made_of(Some(None)) == Some(None::<Seq<char>>),
        made_of(None) is None,
        answer_in(Ok(Some(string))) == Some(Some(string@)),
        answer_in(Ok(None)) == Some(None::<Seq<char>>),
        answer_in(Err(errno)) is None,
        found_in(Some(Some(string))) == Some(Some(string@)),
        found_in(Some(None)) == Some(None::<Seq<char>>),
        found_in(None) is None,
        answered(Some(Some(name))) == Some(name),
        answered(Some(None)) is None,
        answered(None) is None,
{
}

/// What was found for a uid is remembered for this uid, name or none, and what
/// is remembered for others stays as it is.
pub proof fn an_answer_is_remembered_for_its_uid(
    names: Map<u32, Option<Seq<char>>>,
    uid: u32,
    other: u32,
    found: Option<Seq<char>>,
)
    ensures
        ({
            let after = remembered(names, uid, Some(found));
            &&& after.contains_key(uid) && after[uid] == found
            &&& other != uid ==> (after.contains_key(other) <==> names.contains_key(other))
            &&& other != uid && names.contains_key(other) ==> after[other] == names[other]
        }),
        remembered(names, uid, None) == names,
{
}

/// Asking about a uid that is not remembered answers with what the account
/// database answered about it just now, and remembers that for this uid alone;
/// asking about one that is answers with what is remembered.
pub proof fn a_uid_is_asked_about_or_remembered(
    before: Map<u32, Option<Seq<char>>>,
    uid: u32,
    after: Map<u32, Option<Seq<char>>>,
    name: Option<Seq<char>>,
)
    requires
        asked(before, uid, after, name),
    ensures
        before.contains_key(uid) ==> after == before && name == before[uid],
        !before.contains_key(uid) ==> exists|answer: Option<Option<Seq<char>>>| #[trigger]
            account_answer(uid, answer) && {
                &&& answer matches Some(Some(given)) ==> name == Some(text::bounded(given, 64))
                    && after == before.insert(uid, name)
                &&& answer == Some(None::<Seq<char>>) ==> name is None && after == before.insert(
                    uid,
                    None,
                )
                &&& answer is None ==> name is None && after == before
            },
{
    if !before.contains_key(uid) {
        let answer = choose|answer: Option<Option<Seq<char>>>| #[trigger]
            account_answer(uid, answer) && after == remembered(before, uid, made_of(answer))
                && name == answered(made_of(answer));
        assert(account_answer(uid, answer));
    }
}

/// A caller is whom the kernel named, by all three of its numbers, and has none
/// of them where it was not named.
pub proof fn a_caller_has_the_numbers_it_was_named_with(
    answer: Result<PeerCredentials, String>,
    caller: Caller,
    uid: Option<u32>,
    gid: Option<u32>,
    pid: Option<i32>,
)
    requires
        call_ensures(Caller::of_peer, (answer,), caller),
        call_ensures(Caller::uid, (&caller,), uid),
        call_ensures(Caller::gid, (&caller,), gid),
        call_ensures(Caller::pid, (&caller,), pid),
    ensures
        answer matches Ok(peer) ==> uid == Some(peer.uid) && gid == Some(peer.gid) && pid == Some(
            peer.pid,
        ),
        answer matches Err(reason) ==> uid is None && gid is None && pid is None && caller
            == Caller::Unreadable(reason),
{
}

/// A peer is described by its uid, its gid and its pid, in brackets behind the
/// name of its account where that is known.
pub proof fn a_peer_is_described_by_its_numbers(
    pid: i32,
    uid: u32,
    gid: u32,
    caller: Caller,
    name: &str,
    bare: String,
    named: String,
)
    requires
        caller == (Caller::Peer { pid, uid, gid }),
        call_ensures(Caller::describe, (&caller, None), bare),
        call_ensures(Caller::describe, (&caller, Some(name)), named),
    ensures
        bare@ == "uid "@ + text::decimal(uid as nat) + " gid "@ + text::decimal(gid as nat)
            + " pid "@ + text::signed_decimal(pid as int),
        named@ == name@ + "("@ + bare@ + ")"@,
{
}

/// What the account database answered about a uid is what was found for this
/// uid: a name as far as it is kept, none, or nothing where it failed.
pub proof fn an_answer_is_found_for_its_uid(
    uid: u32,
    answer: Result<Option<String>, nix::errno::Errno>,
    lookup: Lookup,
)
    requires
        call_ensures(looked_up, (uid, answer), lookup),
    ensures
        lookup@.uid == uid,
        answer matches Ok(Some(name)) ==> lookup@.found == Some(Some(text::bounded(name@, 64))),
        answer matches Ok(found) && found is None ==> lookup@.found == Some(None::<Seq<char>>),
        answer is Err ==> lookup@.found is None,
{
}

}
