//! The socket: how it is taken, given away and reclaimed.
//!
//! [`Binding`] says what to do to the file system next and what to make of the
//! answer; whoever holds the descriptors does it. There is no serve loop here:
//! a serve loop has to pick a wire format, and picking one forecloses every
//! daemon that picked differently.
use crate::caller::{self, Caller, PeerCredentials};
use crate::io::{ErrorKind, IoError};
use crate::text;
use crate::time::Duration;
use nix::sys::time::TimeValLike;
use vstd::prelude::*;
use vstd::string::StringExecFns;

verus! {

/// Everything about the socket that a daemon might want to differ on.
#[derive(Debug)]
pub struct SocketConfig {
    /// The daemon's name. Prefixes the journal lines about the socket.
    pub daemon: &'static str,
    /// Where the socket lives.
    pub socket_path: String,
    /// The socket's file mode. `0o660` with a group is the shape that lets an
    /// unprivileged front-end talk to a root-owned daemon.
    pub socket_mode: u32,
    /// The group to give the socket to, if any.
    pub socket_group: Option<&'static str>,
    /// The read deadline put on each accepted stream.
    ///
    /// Set explicitly, always, because an accepted socket inherits the
    /// listener's receive timeout, and the listener carries one whenever an
    /// idle loop is to turn for the watchdog. `None` clears the deadline rather
    /// than leaving the inherited one.
    pub request_read_timeout: Option<Duration>,
}

impl Clone for SocketConfig {
    fn clone(&self) -> (copy: Self)
        ensures
            copy == *self,
    {
        SocketConfig {
            daemon: self.daemon,
            socket_path: self.socket_path.clone(),
            socket_mode: self.socket_mode,
            socket_group: self.socket_group,
            request_read_timeout: self.request_read_timeout,
        }
    }
}

impl SocketConfig {
    /// A configuration for `socket_path`, with defaults for everything else:
    /// mode `0o660`, no group, and a 30-second read deadline on each accepted
    /// connection.
    pub fn new(daemon: &'static str, socket_path: &str) -> (config: Self)
        ensures
            config.daemon == daemon,
            config.socket_path@ == socket_path@,
            config.socket_mode == 0o660,
            config.socket_group is None,
            config.request_read_timeout matches Some(timeout) && timeout@ == 30 * 1_000_000_000,
    {
        SocketConfig {
            daemon,
            socket_path: socket_path.to_owned(),
            socket_mode: 0o660,
            socket_group: None,
            request_read_timeout: Some(Duration::from_secs(30)),
        }
    }

    /// Give the socket to a group, so unprivileged members can connect.
    pub fn with_socket_group(self, group: &'static str) -> (config: Self)
        ensures
            config == (SocketConfig { socket_group: Some(group), ..self }),
    {
        SocketConfig { socket_group: Some(group), ..self }
    }

    /// Use a different file mode.
    pub fn with_socket_mode(self, mode: u32) -> (config: Self)
        ensures
            config == (SocketConfig { socket_mode: mode, ..self }),
    {
        SocketConfig { socket_mode: mode, ..self }
    }

    /// Change the read deadline put on each accepted connection. `None` clears
    /// it; see the field for why that is a decision rather than a default.
    pub fn with_request_read_timeout(self, timeout: Option<Duration>) -> (config: Self)
        ensures
            config == (SocketConfig { request_read_timeout: timeout, ..self }),
    {
        SocketConfig { request_read_timeout: timeout, ..self }
    }
}

/// The read deadline to put on an accepted stream. There is no leaving it as it
/// was: an accepted stream inherits the listener's receive timeout, which was
/// chosen for something else.
#[derive(Debug, Clone, Copy, PartialEq, Eq, Structural)]
pub enum Deadline {
    /// A read gives up after this long.
    Within(Duration),
    /// A read waits for ever; whatever was inherited is cleared.
    Cleared,
}

/// The deadline that a configured timeout asks for.
pub open spec fn deadline_for(timeout: Option<Duration>) -> Deadline {
    match timeout {
        Some(span) => Deadline::Within(span),
        None => Deadline::Cleared,
    }
}

/// A connection that was just accepted. The first thing it is good for is to
/// take in the kernel's answer about who is on it: no deadline can be had from
/// it and nothing read before that, so a malformed or truncated request is
/// still attributable.
#[derive(Debug)]
pub struct Accepted {
    deadline: Deadline,
}

impl View for Accepted {
    type V = Deadline;

    closed spec fn view(&self) -> Deadline {
        self.deadline
    }
}

impl Accepted {
    /// A connection whose reads are to be bounded this way.
    pub fn new(timeout: Option<Duration>) -> (accepted: Self)
        ensures
            accepted@ == deadline_for(timeout),
    {
        match timeout {
            Some(span) => Accepted { deadline: Deadline::Within(span) },
            None => Accepted { deadline: Deadline::Cleared },
        }
    }

    /// Take in the kernel's answer about the peer.
    pub fn peer_read(self, answer: Result<PeerCredentials, String>) -> (identified: Identified)
        ensures
            identified@ == (IdentifiedView {
                caller: caller::caller_for(answer),
                deadline: self@,
            }),
    {
        Identified { caller: Caller::of_peer(answer), deadline: self.deadline }
    }
}

/// A connection whose caller is known and whose read deadline is yet to be
/// set.
#[derive(Debug)]
pub struct Identified {
    caller: Caller,
    deadline: Deadline,
}

/// Who is on a connection, and how its reads are to be bounded.
pub struct IdentifiedView {
    /// The party on the connection.
    pub caller: Caller,
    /// The deadline that is to be set.
    pub deadline: Deadline,
}

impl View for Identified {
    type V = IdentifiedView;

    closed spec fn view(&self) -> IdentifiedView {
        IdentifiedView { caller: self.caller, deadline: self.deadline }
    }
}

impl Identified {
    /// The deadline to set on the stream.
    pub fn deadline(&self) -> (deadline: Deadline)
        ensures
            deadline == self@.deadline,
    {
        self.deadline
    }

    /// Take in whether the deadline was set. A failure is reported rather than
    /// swallowed: a connection whose deadline is silently the watchdog's is
    /// what an explicit deadline is there to prevent.
    pub fn deadline_set(self, set: Result<(), IoError>) -> (caller: Result<Caller, IoError>)
        ensures
            match set {
                Ok(()) => caller == Ok::<Caller, IoError>(self@.caller),
                Err(error) => caller == Err::<Caller, IoError>(error),
            },
    {
        match set {
            Ok(()) => Ok(self.caller),
            Err(error) => Err(error),
        }
    }
}

impl SocketConfig {
    /// A connection that was just accepted on this socket.
    pub fn accepted(&self) -> (accepted: Accepted)
        ensures
            accepted@ == deadline_for(self.request_read_timeout),
    {
        Accepted::new(self.request_read_timeout)
    }
}

/// Why a socket could not be taken.
#[derive(Debug)]
pub enum BindError {
    /// Something is listening on that path already, and answered.
    AlreadyActive(String),
    /// The path exists and is not a socket. Removing it would be deleting a
    /// file that is not understood.
    NotASocket(String),
    /// The path exists, is a socket, and could not be shown to be stale. Not
    /// removed: an unverifiable socket that gets unlinked is a running daemon
    /// that gets silently disconnected from its clients.
    Unverifiable(String, IoError),
    /// Everything else.
    Io(IoError),
}

/// A bind error in words.
pub open spec fn bind_error_text(error: BindError) -> Seq<char> {
    match error {
        BindError::AlreadyActive(path) => "a daemon is already serving "@ + path@,
        BindError::NotASocket(path) => path@
            + " exists and is not a socket, so it was left alone"@,
        BindError::Unverifiable(path, cause) => path@
            + " exists and could not be verified stale, so it was left alone: "@ + cause.message@,
        BindError::Io(cause) => cause.message@,
    }
}

impl Clone for BindError {
    fn clone(&self) -> (copy: Self)
        ensures
            copy == *self,
    {
        match self {
            BindError::AlreadyActive(path) => BindError::AlreadyActive(path.clone()),
            BindError::NotASocket(path) => BindError::NotASocket(path.clone()),
            BindError::Unverifiable(path, cause) => BindError::Unverifiable(
                path.clone(),
                cause.clone(),
            ),
            BindError::Io(cause) => BindError::Io(cause.clone()),
        }
    }
}

impl BindError {
    /// The error in words.
    pub fn to_string(&self) -> (words: String)
        ensures
            words@ == bind_error_text(*self),
    {
        match self {
            BindError::AlreadyActive(path) => {
                let mut words = "a daemon is already serving ".to_owned();
                words.append(path.as_str());
                words
            },
            BindError::NotASocket(path) => {
                let mut words = path.clone();
                words.append(" exists and is not a socket, so it was left alone");
                words
            },
            BindError::Unverifiable(path, cause) => {
                let mut words = path.clone();
                words.append(
                    " exists and could not be verified stale, so it was left alone: ",
                );
                words.append(cause.message.as_str());
                words
            },
            BindError::Io(cause) => cause.to_string(),
        }
    }

    /// The failure behind the error, where there is one.
    pub fn source(&self) -> (cause: Option<&IoError>)
        ensures
            match *self {
                BindError::Unverifiable(_, behind) => cause == Some(&behind),
                BindError::Io(behind) => cause == Some(&behind),
                _ => cause is None,
            },
    {
        match self {
            BindError::Unverifiable(_, behind) => Some(behind),
            BindError::Io(behind) => Some(behind),
            _ => None,
        }
    }
}

impl From<IoError> for BindError {
    fn from(error: IoError) -> (bind_error: Self) {
        BindError::Io(error)
    }
}

impl vstd::std_specs::convert::FromSpecImpl<IoError> for BindError {
    open spec fn obeys_from_spec() -> bool {
        true
    }

    open spec fn from_spec(error: IoError) -> Self {
        BindError::Io(error)
    }
}

/// How a socket is to be taken.
#[derive(Debug)]
pub struct BindPlan {
    /// Whose socket it is. Prefixes the journal lines about it.
    pub daemon: &'static str,
    /// Where the socket is to live.
    pub socket_path: String,
    /// The file mode it is to have.
    pub socket_mode: u32,
    /// The group to give it to, if any.
    pub socket_group: Option<&'static str>,
    /// Whether a group that the host does not have is worth a line. A daemon
    /// that asked for a group explicitly wants to know why its front-ends
    /// cannot connect.
    pub says_absent_group: bool,
}

impl SocketConfig {
    /// How this socket is to be taken.
    pub fn plan(&self) -> (plan: BindPlan)
        ensures
            plan == (BindPlan {
                daemon: self.daemon,
                socket_path: self.socket_path,
                socket_mode: self.socket_mode,
                socket_group: self.socket_group,
                says_absent_group: true,
            }),
    {
        BindPlan {
            daemon: self.daemon,
            socket_path: self.socket_path.clone(),
            socket_mode: self.socket_mode,
            socket_group: self.socket_group,
            says_absent_group: true,
        }
    }
}

/// The next thing to do about a socket.
#[derive(Debug)]
pub enum BindAction {
    /// See whether there is anything at the path.
    CheckPath,
    /// See whether what is at the path is a socket, without following links.
    Inspect,
    /// Connect to the path, and drop the connection.
    Probe,
    /// Remove the stale socket at the path.
    RemoveStale,
    /// Bind and listen at the path.
    Listen,
    /// Give the socket this file mode.
    SetMode(u32),
    /// Remove the socket that was just bound: nobody could open it, for this
    /// reason. Whether it can be removed makes no difference.
    Discard(IoError),
    /// Look up the group of this name.
    FindGroup(&'static str),
    /// Give the socket to the group with this id.
    GiveToGroup(u32),
    /// The socket is there. The line, if there is one, is for the journal.
    Bound(Option<String>),
    /// The socket could not be taken.
    Failed(BindError),
}

/// The next thing to do, over the text that is meant.
pub enum BindActionView {
    /// See whether there is anything at the path.
    CheckPath,
    /// See whether it is a socket.
    Inspect,
    /// Connect to it.
    Probe,
    /// Remove it.
    RemoveStale,
    /// Bind and listen.
    Listen,
    /// Set the file mode.
    SetMode(u32),
    /// Remove what was just bound.
    Discard(IoError),
    /// Look up a group.
    FindGroup(Seq<char>),
    /// Give the socket to a group.
    GiveToGroup(u32),
    /// Done, with something to say or not.
    Bound(Option<Seq<char>>),
    /// Given up.
    Failed(BindError),
}

impl View for BindAction {
    type V = BindActionView;

    open spec fn view(&self) -> BindActionView {
        match *self {
            BindAction::CheckPath => BindActionView::CheckPath,
            BindAction::Inspect => BindActionView::Inspect,
            BindAction::Probe => BindActionView::Probe,
            BindAction::RemoveStale => BindActionView::RemoveStale,
            BindAction::Listen => BindActionView::Listen,
            BindAction::SetMode(mode) => BindActionView::SetMode(mode),
            BindAction::Discard(error) => BindActionView::Discard(error),
            BindAction::FindGroup(name) => BindActionView::FindGroup(name@),
            BindAction::GiveToGroup(gid) => BindActionView::GiveToGroup(gid),
            BindAction::Bound(line) => BindActionView::Bound(text::text_in(line)),
            BindAction::Failed(error) => BindActionView::Failed(error),
        }
    }
}

/// What came of the last thing done about a socket.
#[derive(Debug)]
pub enum BindAnswer {
    /// Whether there is anything at the path.
    PathChecked(bool),
    /// Whether it is a socket.
    Inspected(Result<bool, IoError>),
    /// Whether something answered the connection.
    Probed(Result<(), IoError>),
    /// Whether the stale socket was removed.
    Removed(Result<(), IoError>),
    /// Whether the path was bound.
    Listening(Result<(), IoError>),
    /// Whether the mode was set.
    ModeSet(Result<(), IoError>),
    /// The socket that nobody could open has been dealt with.
    Discarded,
    /// The id of the group, if the host has it.
    GroupFound(Result<Option<u32>, IoError>),
    /// Whether the socket was given to the group.
    GroupGiven(Result<(), IoError>),
}

/// Whether an answer is one to what was asked.
pub open spec fn fits(asked: BindActionView, answer: BindAnswer) -> bool {
    match asked {
        BindActionView::CheckPath => answer is PathChecked,
        BindActionView::Inspect => answer is Inspected,
        BindActionView::Probe => answer is Probed,
        BindActionView::RemoveStale => answer is Removed,
        BindActionView::Listen => answer is Listening,
        BindActionView::SetMode(_) => answer is ModeSet,
        BindActionView::Discard(_) => answer is Discarded,
        BindActionView::FindGroup(_) => answer is GroupFound,
        BindActionView::GiveToGroup(_) => answer is GroupGiven,
        BindActionView::Bound(_) => false,
        BindActionView::Failed(_) => false,
    }
}

/// The line about a socket that its group could not be given.
pub open spec fn not_given_line(plan: BindPlan, group: Seq<char>, error: IoError) -> Seq<char> {
    plan.daemon@ + ": could not give "@ + plan.socket_path@ + " to the "@ + group
        + " group, so unprivileged clients cannot connect: "@ + error.message@
}

/// The line about a group that the host does not have.
pub open spec fn absent_line(plan: BindPlan, group: Seq<char>) -> Seq<char> {
    plan.daemon@ + ": there is no "@ + group + " group on this host, so "@ + plan.socket_path@
        + " keeps its own group and only root can connect"@
}

/// The line about a group that could not be looked up.
pub open spec fn unresolved_line(plan: BindPlan, group: Seq<char>, error: IoError) -> Seq<char> {
    plan.daemon@ + ": could not resolve the "@ + group
        + " group, so the socket keeps its own group and unprivileged clients cannot connect: "@
        + error.message@
}

/// The name of the group a socket is meant for.
pub open spec fn group_of(plan: BindPlan) -> Seq<char> {
    match plan.socket_group {
        Some(group) => group@,
        None => seq![],
    }
}

/// What to do once it was seen whether there is anything at the path.
pub open spec fn after_check(exists: bool) -> BindActionView {
    if exists {
        BindActionView::Inspect
    } else {
        BindActionView::Listen
    }
}

/// What to do once it was seen whether the path is a socket. What is not one
/// is left alone.
pub open spec fn after_inspection(plan: BindPlan, found: Result<bool, IoError>) -> BindActionView {
    match found {
        Err(error) => BindActionView::Failed(BindError::Io(error)),
        Ok(is_socket) => if is_socket {
            BindActionView::Probe
        } else {
            BindActionView::Failed(BindError::NotASocket(plan.socket_path))
        },
    }
}

/// What to do once the socket was probed. A refused connection means that the
/// listener is gone and the inode outlived it. A path that is gone is free.
/// Anything else is left alone.
pub open spec fn after_probe(plan: BindPlan, answered: Result<(), IoError>) -> BindActionView {
    match answered {
        Ok(()) => BindActionView::Failed(BindError::AlreadyActive(plan.socket_path)),
        Err(error) => match error.kind {
            ErrorKind::ConnectionRefused => BindActionView::RemoveStale,
            ErrorKind::NotFound => BindActionView::Listen,
            _ => BindActionView::Failed(BindError::Unverifiable(plan.socket_path, error)),
        },
    }
}

/// What to do once the mode was set, or was not. A socket nobody can open is
/// worse than no socket.
pub open spec fn after_mode(plan: BindPlan, set: Result<(), IoError>) -> BindActionView {
    match set {
        Err(error) => BindActionView::Discard(error),
        Ok(()) => match plan.socket_group {
            Some(group) => BindActionView::FindGroup(group@),
            None => BindActionView::Bound(None),
        },
    }
}

/// What to do once the group was looked up. None of the outcomes is fatal.
pub open spec fn after_lookup(
    plan: BindPlan,
    found: Result<Option<u32>, IoError>,
) -> BindActionView {
    match found {
        Ok(Some(gid)) => BindActionView::GiveToGroup(gid),
        Ok(None) => BindActionView::Bound(
            if plan.says_absent_group {
                Some(absent_line(plan, group_of(plan)))
            } else {
                None
            },
        ),
        Err(error) => BindActionView::Bound(Some(unresolved_line(plan, group_of(plan), error))),
    }
}

/// What to do about a socket after an answer to what was asked.
pub open spec fn next(plan: BindPlan, asked: BindActionView, answer: BindAnswer) -> BindActionView {
    match answer {
        BindAnswer::PathChecked(exists) => after_check(exists),
        BindAnswer::Inspected(found) => after_inspection(plan, found),
        BindAnswer::Probed(answered) => after_probe(plan, answered),
        BindAnswer::Removed(Ok(())) => BindActionView::Listen,
        BindAnswer::Removed(Err(error)) => BindActionView::Failed(BindError::Io(error)),
        BindAnswer::Listening(Ok(())) => BindActionView::SetMode(plan.socket_mode),
        BindAnswer::Listening(Err(error)) => BindActionView::Failed(BindError::Io(error)),
        BindAnswer::ModeSet(set) => after_mode(plan, set),
        BindAnswer::Discarded => BindActionView::Failed(BindError::Io(asked->Discard_0)),
        BindAnswer::GroupFound(found) => after_lookup(plan, found),
        BindAnswer::GroupGiven(Ok(())) => BindActionView::Bound(None),
        BindAnswer::GroupGiven(Err(error)) => BindActionView::Bound(
            Some(not_given_line(plan, group_of(plan), error)),
        ),
    }
}

/// A socket on its way to being bound: reclaim a stale one, bind, set the
/// mode, hand it to the group.
#[derive(Debug)]
pub struct Binding {
    plan: BindPlan,
    asked: BindAction,
}

/// Where a binding stands.
pub struct BindingView {
    /// How the socket is to be taken.
    pub plan: BindPlan,
    /// What is to be done next.
    pub asked: BindActionView,
}

impl View for Binding {
    type V = BindingView;

    closed spec fn view(&self) -> BindingView {
        BindingView { plan: self.plan, asked: self.asked@ }
    }
}

impl Binding {
    /// A socket that nothing has been done about yet.
    pub fn new(plan: BindPlan) -> (binding: Self)
        ensures
            binding@ == (BindingView { plan, asked: BindActionView::CheckPath }),
    {
        Binding { plan, asked: BindAction::CheckPath }
    }

    /// How the socket is to be taken.
    pub fn plan(&self) -> (plan: &BindPlan)
        ensures
            *plan == self@.plan,
    {
        &self.plan
    }

    /// The next thing to do.
    pub fn action(&self) -> (action: &BindAction)
        ensures
            action@ == self@.asked,
    {
        &self.asked
    }

    /// Take in what came of the last thing done.
    pub fn step(&mut self, answer: BindAnswer)
        requires
            fits(old(self)@.asked, answer),
        ensures
            final(self)@ == (BindingView {
                plan: old(self)@.plan,
                asked: next(old(self)@.plan, old(self)@.asked, answer),
            }),
    {
        let action = match answer {
            BindAnswer::PathChecked(exists) => if exists {
                BindAction::Inspect
            } else {
                BindAction::Listen
            },
            BindAnswer::Inspected(found) => self.inspected(found),
            BindAnswer::Probed(answered) => self.probed(answered),
            BindAnswer::Removed(removed) => match removed {
                Ok(()) => BindAction::Listen,
                Err(error) => BindAction::Failed(BindError::Io(error)),
            },
            BindAnswer::Listening(listening) => match listening {
                Ok(()) => BindAction::SetMode(self.plan.socket_mode),
                Err(error) => BindAction::Failed(BindError::Io(error)),
            },
            BindAnswer::ModeSet(set) => self.mode_set(set),
            BindAnswer::Discarded => match &self.asked {
                BindAction::Discard(error) => BindAction::Failed(BindError::Io(error.clone())),
                _ => BindAction::CheckPath,
            },
            BindAnswer::GroupFound(found) => self.group_found(found),
            BindAnswer::GroupGiven(given) => match given {
                Ok(()) => BindAction::Bound(None),
                Err(error) => BindAction::Bound(Some(self.not_given(error))),
            },
        };
        self.asked = action;
    }

    fn inspected(&self, found: Result<bool, IoError>) -> (action: BindAction)
        ensures
            action@ == after_inspection(self@.plan, found),
    {
        match found {
            Err(error) => BindAction::Failed(BindError::Io(error)),
            Ok(is_socket) => if is_socket {
                BindAction::Probe
            } else {
                BindAction::Failed(BindError::NotASocket(self.plan.socket_path.clone()))
            },
        }
    }

    fn probed(&self, answered: Result<(), IoError>) -> (action: BindAction)
        ensures
            action@ == after_probe(self@.plan, answered),
    {
        match answered {
            Ok(()) => BindAction::Failed(
                BindError::AlreadyActive(self.plan.socket_path.clone()),
            ),
            Err(error) => match error.kind {
                ErrorKind::ConnectionRefused => BindAction::RemoveStale,
                // Someone unlinked it between the look and the connect. The
                // path is free, which is what was wanted.
                ErrorKind::NotFound => BindAction::Listen,
                _ => BindAction::Failed(
                    BindError::Unverifiable(self.plan.socket_path.clone(), error),
                ),
            },
        }
    }

    fn mode_set(&self, set: Result<(), IoError>) -> (action: BindAction)
        ensures
            action@ == after_mode(self@.plan, set),
    {
        match set {
            Err(error) => BindAction::Discard(error),
            Ok(()) => match self.plan.socket_group {
                Some(group) => BindAction::FindGroup(group),
                None => BindAction::Bound(None),
            },
        }
    }

    fn group_name(&self) -> (group: &'static str)
        ensures
            group@ == group_of(self@.plan),
    {
        match self.plan.socket_group {
            Some(group) => group,
            None => {
                proof {
                    reveal_strlit("");
                }
                assert(""@ =~= seq![]);
                ""
            },
        }
    }

    fn group_found(&self, found: Result<Option<u32>, IoError>) -> (action: BindAction)
        ensures
            action@ == after_lookup(self@.plan, found),
    {
        match found {
            Ok(Some(gid)) => BindAction::GiveToGroup(gid),
            Ok(None) => if self.plan.says_absent_group {
                let mut line = self.plan.daemon.to_owned();
                line.append(": there is no ");
                line.append(self.group_name());
                line.append(" group on this host, so ");
                line.append(self.plan.socket_path.as_str());
                line.append(" keeps its own group and only root can connect");
                BindAction::Bound(Some(line))
            } else {
                BindAction::Bound(None)
            },
            Err(error) => {
                let mut line = self.plan.daemon.to_owned();
                line.append(": could not resolve the ");
                line.append(self.group_name());
                line.append(
                    " group, so the socket keeps its own group and unprivileged clients cannot connect: ",
                );
                line.append(error.message.as_str());
                BindAction::Bound(Some(line))
            },
        }
    }

    fn not_given(&self, error: IoError) -> (line: String)
        ensures
            line@ == not_given_line(self@.plan, group_of(self@.plan), error),
    {
        let mut line = self.plan.daemon.to_owned();
        line.append(": could not give ");
        line.append(self.plan.socket_path.as_str());
        line.append(" to the ");
        line.append(self.group_name());
        line.append(" group, so unprivileged clients cannot connect: ");
        line.append(error.message.as_str());
        line
    }
}

/// Whether a text holds a zero character.
pub open spec fn holds_zero(text: Seq<char>) -> bool {
    text.contains('\0')
}

/// Whether the host's group database may answer this when it is asked about a
/// name: with an id, that there is no such group, or not at all. Which of the
/// answers comes is the host's own business, and it may change its mind.
pub uninterp spec fn group_answer(name: Seq<char>, answer: Option<Option<u32>>) -> bool;

/// Whether the host may report an errno as this kind of failure, in these
/// words.
pub uninterp spec fn errno_report(
    errno: nix::errno::Errno,
    kind: ErrorKind,
    words: Seq<char>,
) -> bool;

/// An answer of the group database, whatever the failure was.
pub open spec fn answer_in<E>(answer: Result<Option<u32>, E>) -> Option<Option<u32>> {
    match answer {
        Ok(found) => Some(found),
        Err(_) => None,
    }
}

/// `nix::unistd::Group::from_name`: the id of the group of a name, if the host
/// has one. No host has a group whose name holds a zero character. What comes
/// back is an answer to the question about this name; what else the answer is,
/// is not claimed.
#[verifier::external_body]
fn gid_of(name: &str) -> (found: Result<Option<u32>, nix::errno::Errno>)
    ensures
        group_answer(name@, answer_in(found)),
        holds_zero(name@) ==> found is Ok && found->Ok_0 is None,
{
    nix::unistd::Group::from_name(name).map(|group| group.map(|found| found.gid.as_raw()))
}

/// `std::io::Error` from a `nix::errno::Errno`, with its kind and its words.
/// They are a report of this errno; what they are is the host's own, and is
/// not claimed.
#[verifier::external_body]
fn reported(errno: nix::errno::Errno) -> (error: IoError)
    ensures
        errno_report(errno, error.kind, error.message@),
{
    let error = std::io::Error::from(errno);
    let kind = match error.kind() {
        std::io::ErrorKind::ConnectionRefused => ErrorKind::ConnectionRefused,
        std::io::ErrorKind::NotFound => ErrorKind::NotFound,
        std::io::ErrorKind::WouldBlock => ErrorKind::WouldBlock,
        std::io::ErrorKind::TimedOut => ErrorKind::TimedOut,
        std::io::ErrorKind::Other => ErrorKind::Other,
        kind => ErrorKind::Host(kind),
    };
    IoError { kind, message: error.to_string() }
}

/// What an answer of the group database amounts to: an absent group is an
/// answer, and a lookup that could not be completed is an error, in the host's
/// words for it.
pub fn resolved(
    answer: Result<Option<u32>, nix::errno::Errno>,
) -> (gid: Result<Option<u32>, IoError>)
    ensures
        match answer {
            Ok(found) => gid == Ok::<Option<u32>, IoError>(found),
            Err(errno) => gid matches Err(error) && errno_report(
                errno,
                error.kind,
                error.message@,
            ),
        },
{
    match answer {
        Ok(found) => Ok(found),
        Err(errno) => Err(reported(errno)),
    }
}

/// Resolve the numeric id of a group, through the host's group database rather
/// than any one file: a silently wrong answer here is a front-end that
/// silently cannot connect.
///
/// `Ok(None)` is an absent group. `Err` is a lookup that could not be
/// completed, which is a different thing and is said out loud. Which of them
/// the host answers about a name is up to the host.
pub fn lookup_group_gid(name: &str) -> (gid: Result<Option<u32>, IoError>)
    ensures
        group_answer(name@, answer_in(gid)),
        gid matches Err(error) ==> exists|errno: nix::errno::Errno| #[trigger]
            errno_report(errno, error.kind, error.message@),
        holds_zero(name@) ==> gid == Ok::<Option<u32>, IoError>(None),
{
    resolved(gid_of(name))
}

/// The most seconds that a receive timeout can be set to.
pub open spec fn most_seconds() -> int {
    if usize::BITS == 64 {
        9_223_372_036_853
    } else {
        isize::MAX as int
    }
}

/// Whether a span can be made into a receive timeout at all, or is refused as
/// out of range.
pub open spec fn settable(timeout: nat) -> bool {
    timeout / 1_000 <= i64::MAX ==> timeout / 1_000_000_000 <= most_seconds()
}

/// `nix::sys::time::TimeVal::microseconds`: whole seconds, and the microseconds
/// beside them.
#[verifier::external_body]
fn timeval(micros: i64) -> (parts: (i64, i64))
    requires
        0 <= micros,
        micros / 1_000_000 <= most_seconds(),
    ensures
        parts.0 == micros / 1_000_000,
        parts.1 == micros % 1_000_000,
{
    let value = nix::sys::time::TimeVal::microseconds(micros);
    (value.tv_sec() as i64, value.tv_usec() as i64)
}

/// Whether [`accept_timeout`] can be asked about a span.
pub fn is_settable(timeout: &Duration) -> (answer: bool)
    ensures
        answer == settable(timeout@),
{
    let most: u128 = if usize::BITS == 64 {
        9_223_372_036_853
    } else {
        isize::MAX as u128
    };
    timeout.as_micros() > i64::MAX as u128 || timeout.as_secs() as u128 <= most
}

/// The receive timeout for a listener, in seconds and microseconds, that makes
/// its `accept()` return after `timeout`.
pub fn accept_timeout(timeout: &Duration) -> (parts: Result<(i64, i64), IoError>)
    requires
        settable(timeout@),
    ensures
        match parts {
            Ok((secs, micros)) => timeout@ / 1_000 <= i64::MAX && secs == timeout@ / 1_000_000_000
                && micros == timeout@ / 1_000 % 1_000_000,
            Err(error) => timeout@ / 1_000 > i64::MAX && error.kind == ErrorKind::Other
                && error.message@
                == "timeout out of range: out of range integral type conversion attempted"@,
        },
{
    let micros = timeout.as_micros();
    if micros > i64::MAX as u128 {
        return Err(
            IoError::other(
                "timeout out of range: out of range integral type conversion attempted".to_owned(),
            ),
        );
    }
    proof {
        assert(timeout@ / 1_000 / 1_000_000 == timeout@ / 1_000_000_000);
    }
    Ok(timeval(micros as i64))
}

/// What is to be done about a socket after a row of answers.
pub open spec fn after(plan: BindPlan, answers: Seq<BindAnswer>) -> BindActionView
    decreases answers.len(),
{
    if answers.len() == 0 {
        BindActionView::CheckPath
    } else {
        next(plan, after(plan, answers.drop_last()), answers.last())
    }
}

/// Whether each of a row of answers is one to what was asked.
pub open spec fn all_fit(plan: BindPlan, answers: Seq<BindAnswer>) -> bool
    decreases answers.len(),
{
    answers.len() > 0 ==> all_fit(plan, answers.drop_last()) && fits(
        after(plan, answers.drop_last()),
        answers.last(),
    )
}

/// A file is removed as stale only once it was seen to be there, to be a
/// socket, and to refuse a connection, in that order and with nothing in
/// between. A live socket, a file that is no socket and a socket that could
/// not be checked are all left where they are.
pub proof fn only_a_proven_stale_socket_is_removed(plan: BindPlan, answers: Seq<BindAnswer>)
    requires
        all_fit(plan, answers),
        after(plan, answers) is RemoveStale,
    ensures
        answers.len() == 3,
        answers[0] == BindAnswer::PathChecked(true),
        answers[1] == BindAnswer::Inspected(Ok(true)),
        answers[2] matches BindAnswer::Probed(Err(error)) && error.kind
            == ErrorKind::ConnectionRefused,
{
    let inspected = answers.drop_last();
    let checked = inspected.drop_last();
    assert(after(plan, inspected) is Probe);
    assert(all_fit(plan, inspected));
    assert(inspected.len() > 0);
    assert(next(plan, after(plan, checked), inspected.last()) is Probe);
    assert(after(plan, checked) is Inspect);
    assert(all_fit(plan, checked));
    assert(checked.len() > 0);
    assert(next(plan, after(plan, checked.drop_last()), checked.last()) is Inspect);
    assert(after(plan, checked.drop_last()) is CheckPath);
    if checked.drop_last().len() > 0 {
        let start = checked.drop_last();
        assert(!(next(plan, after(plan, start.drop_last()), start.last()) is CheckPath));
    }
    assert(checked.len() == 1);
    assert(answers[1] == inspected.last());
    assert(answers[0] == checked.last());
}

/// How many answers an action is at most away from the end.
pub open spec fn steps_left(action: BindActionView) -> nat {
    match action {
        BindActionView::CheckPath => 8,
        BindActionView::Inspect => 7,
        BindActionView::Probe => 6,
        BindActionView::RemoveStale => 5,
        BindActionView::Listen => 4,
        BindActionView::SetMode(_) => 3,
        BindActionView::FindGroup(_) => 2,
        BindActionView::GiveToGroup(_) => 1,
        BindActionView::Discard(_) => 1,
        BindActionView::Bound(_) => 0,
        BindActionView::Failed(_) => 0,
    }
}

/// Taking a socket ends, whatever the host answers: after eight answers at the
/// latest it is bound or has failed.
pub proof fn binding_ends(plan: BindPlan, answers: Seq<BindAnswer>)
    requires
        all_fit(plan, answers),
    ensures
        answers.len() + steps_left(after(plan, answers)) <= 8,
        answers.len() == 8 ==> after(plan, answers) is Bound || after(plan, answers) is Failed,
    decreases answers.len(),
{
    if answers.len() > 0 {
        binding_ends(plan, answers.drop_last());
    }
}

/// A socket is given only to the group that its plan names: by the id that came
/// back when that name was looked up, and so, where the host was asked, by an
/// id that the host gave for that name.
pub proof fn a_socket_is_given_to_its_own_group(
    plan: BindPlan,
    answers: Seq<BindAnswer>,
    gid: u32,
)
    requires
        all_fit(plan, answers),
        after(plan, answers) == BindActionView::GiveToGroup(gid),
    ensures
        plan.socket_group is Some,
        answers.len() > 0,
        after(plan, answers.drop_last()) == BindActionView::FindGroup(group_of(plan)),
        answers.last() matches BindAnswer::GroupFound(found) && found == Ok::<Option<u32>, IoError>(
            Some(gid),
        ) && (group_answer(group_of(plan), answer_in(found)) ==> group_answer(
            group_of(plan),
            Some(Some(gid)),
        )),
{
    let looked_up = answers.drop_last();
    assert(after(plan, looked_up) is FindGroup);
    assert(all_fit(plan, looked_up));
    assert(looked_up.len() > 0);
    assert(next(plan, after(plan, looked_up.drop_last()), looked_up.last()) is FindGroup);
}

/// Nothing that goes wrong with a socket's group keeps it from being bound.
pub proof fn group_trouble_is_never_fatal(
    plan: BindPlan,
    asked: BindActionView,
    answer: BindAnswer,
)
    requires
        fits(asked, answer),
        asked is FindGroup || asked is GiveToGroup,
    ensures
        next(plan, asked, answer) is Bound || next(plan, asked, answer) is GiveToGroup,
{
}

/// A daemon that asked for a group, and wants to hear of an absent one, hears
/// of everything that keeps its socket from being given to the group.
pub proof fn a_group_that_was_not_given_is_said(
    plan: BindPlan,
    asked: BindActionView,
    answer: BindAnswer,
)
    requires
        fits(asked, answer),
        asked is FindGroup || asked is GiveToGroup,
        plan.says_absent_group,
        next(plan, asked, answer) == BindActionView::Bound(None),
    ensures
        answer matches BindAnswer::GroupGiven(given) && given is Ok,
{
}

/// A socket that was bound and could not be given its mode is removed again,
/// and the failure is the mode's.
pub proof fn a_socket_nobody_can_open_is_removed(
    plan: BindPlan,
    asked: BindActionView,
    error: IoError,
)
    requires
        asked is SetMode,
    ensures
        next(plan, asked, BindAnswer::ModeSet(Err(error))) == BindActionView::Discard(error),
        next(plan, BindActionView::Discard(error), BindAnswer::Discarded)
            == BindActionView::Failed(BindError::Io(error)),
{
}

/// Whether a row of answers has the path bound and then the mode set.
pub open spec fn bound_with_mode(answers: Seq<BindAnswer>) -> bool {
    exists|i: int|
        #![trigger answers[i]]
        {
            &&& 0 < i < answers.len()
            &&& answers[i - 1] matches BindAnswer::Listening(listening)
            &&& listening is Ok
            &&& answers[i] matches BindAnswer::ModeSet(set)
            &&& set is Ok
        }
}

/// A socket counts as bound only after the path was bound and the mode set.
pub proof fn bound_means_listening_with_its_mode(plan: BindPlan, answers: Seq<BindAnswer>)
    requires
        all_fit(plan, answers),
        after(plan, answers) is Bound || after(plan, answers) is GiveToGroup || after(
            plan,
            answers,
        ) is FindGroup,
    ensures
        bound_with_mode(answers),
    decreases answers.len(),
{
    let before = answers.drop_last();
    let asked = after(plan, before);
    if asked is SetMode {
        assert(before.len() > 0);
        assert(before.last() is Listening);
        assert(answers[answers.len() - 2] == before.last());
        assert(answers[answers.len() - 1] == answers.last());
    } else {
        assert(asked is FindGroup || asked is GiveToGroup);
        bound_means_listening_with_its_mode(plan, before);
        let i = choose|i: int|
            #![trigger before[i]]
            {
                &&& 0 < i < before.len()
                &&& before[i - 1] matches BindAnswer::Listening(listening)
                &&& listening is Ok
                &&& before[i] matches BindAnswer::ModeSet(set)
                &&& set is Ok
            };
        assert(answers[i] == before[i]);
        assert(answers[i - 1] == before[i - 1]);
    }
}

/// Whenever a mode is to be set on a socket, it is the planned one, and it is
/// set right after the path was bound.
pub proof fn the_mode_that_is_set_is_the_planned_one(
    plan: BindPlan,
    answers: Seq<BindAnswer>,
    mode: u32,
)
    requires
        all_fit(plan, answers),
        after(plan, answers) == BindActionView::SetMode(mode),
    ensures
        mode == plan.socket_mode,
        answers.len() > 0,
        after(plan, answers.drop_last()) is Listen,
        answers.last() matches BindAnswer::Listening(listening) && listening is Ok,
{
}

/// Whether the planned mode was to be set after the first `i` of a row of
/// answers, and was set.
pub open spec fn planned_mode_set(plan: BindPlan, answers: Seq<BindAnswer>, i: int) -> bool {
    &&& 0 <= i < answers.len()
    &&& after(plan, answers.take(i)) == BindActionView::SetMode(plan.socket_mode)
    &&& answers[i] matches BindAnswer::ModeSet(set)
    &&& set is Ok
}

/// A socket that counts as bound has had the planned mode set on it.
pub proof fn a_bound_socket_has_the_planned_mode(plan: BindPlan, answers: Seq<BindAnswer>)
    requires
        all_fit(plan, answers),
        after(plan, answers) is Bound || after(plan, answers) is GiveToGroup || after(
            plan,
            answers,
        ) is FindGroup,
    ensures
        exists|i: int| #[trigger] planned_mode_set(plan, answers, i),
    decreases answers.len(),
{
    let before = answers.drop_last();
    let asked = after(plan, before);
    if asked is SetMode {
        the_mode_that_is_set_is_the_planned_one(plan, before, asked->SetMode_0);
        assert(answers.take(answers.len() - 1) =~= before);
        assert(planned_mode_set(plan, answers, answers.len() - 1));
    } else {
        assert(asked is FindGroup || asked is GiveToGroup);
        a_bound_socket_has_the_planned_mode(plan, before);
        let i = choose|i: int| #[trigger] planned_mode_set(plan, before, i);
        assert(answers.take(i) =~= before.take(i));
        assert(answers[i] == before[i]);
        assert(planned_mode_set(plan, answers, i));
    }
}

/// Each thing that is asked about a socket has answers of its own, and nothing
/// is asked any more once it is bound or given up.
pub proof fn each_question_has_its_own_answers(asked: BindActionView, answer: BindAnswer)
    ensures
        answer is PathChecked ==> (fits(asked, answer) <==> asked is CheckPath),
        answer is Inspected ==> (fits(asked, answer) <==> asked is Inspect),
        answer is Probed ==> (fits(asked, answer) <==> asked is Probe),
        answer is Removed ==> (fits(asked, answer) <==> asked is RemoveStale),
        answer is Listening ==> (fits(asked, answer) <==> asked is Listen),
        answer is ModeSet ==> (fits(asked, answer) <==> asked is SetMode),
        answer is Discarded ==> (fits(asked, answer) <==> asked is Discard),
        answer is GroupFound ==> (fits(asked, answer) <==> asked is FindGroup),
        answer is GroupGiven ==> (fits(asked, answer) <==> asked is GiveToGroup),
{
}

/// A path with nothing at it is bound. What is there has to be a socket that
/// refuses a connection, or to be gone by then; else it is left alone, and the
/// failure says which path it was and why.
pub proof fn what_is_at_the_path_decides(
    plan: BindPlan,
    asked: BindActionView,
    found: bool,
    is_socket: bool,
    error: IoError,
)
    ensures
        found ==> next(plan, asked, BindAnswer::PathChecked(found)) is Inspect,
        !found ==> next(plan, asked, BindAnswer::PathChecked(found)) is Listen,
        is_socket ==> next(plan, asked, BindAnswer::Inspected(Ok(is_socket))) is Probe,
        !is_socket ==> next(plan, asked, BindAnswer::Inspected(Ok(is_socket)))
            == BindActionView::Failed(BindError::NotASocket(plan.socket_path)),
        next(plan, asked, BindAnswer::Inspected(Err(error))) == BindActionView::Failed(
            BindError::Io(error),
        ),
        next(plan, asked, BindAnswer::Probed(Ok(()))) == BindActionView::Failed(
            BindError::AlreadyActive(plan.socket_path),
        ),
        error.kind is ConnectionRefused ==> next(
            plan,
            asked,
            BindAnswer::Probed(Err(error)),
        ) is RemoveStale,
        error.kind is NotFound ==> next(plan, asked, BindAnswer::Probed(Err(error))) is Listen,
        !(error.kind is ConnectionRefused) && !(error.kind is NotFound) ==> next(
            plan,
            asked,
            BindAnswer::Probed(Err(error)),
        ) == BindActionView::Failed(BindError::Unverifiable(plan.socket_path, error)),
        next(plan, asked, BindAnswer::Removed(Ok(()))) is Listen,
        next(plan, asked, BindAnswer::Removed(Err(error))) == BindActionView::Failed(
            BindError::Io(error),
        ),
{
}

/// A path that was bound is given its mode and then to its group, if there is
/// to be one. A path that could not be bound is the failure that kept it from
/// being so.
pub proof fn a_bound_path_is_given_its_mode_and_its_group(
    plan: BindPlan,
    asked: BindActionView,
    group: &'static str,
    gid: u32,
    error: IoError,
)
    ensures
        next(plan, asked, BindAnswer::Listening(Ok(()))) == BindActionView::SetMode(
            plan.socket_mode,
        ),
        next(plan, asked, BindAnswer::Listening(Err(error))) == BindActionView::Failed(
            BindError::Io(error),
        ),
        plan.socket_group is None ==> next(plan, asked, BindAnswer::ModeSet(Ok(())))
            == BindActionView::Bound(None),
        plan.socket_group == Some(group) ==> next(plan, asked, BindAnswer::ModeSet(Ok(())))
            == BindActionView::FindGroup(group@),
        next(plan, asked, BindAnswer::ModeSet(Err(error))) == BindActionView::Discard(error),
        next(plan, asked, BindAnswer::GroupFound(Ok(Some(gid)))) == BindActionView::GiveToGroup(
            gid,
        ),
        next(plan, asked, BindAnswer::GroupGiven(Ok(()))) == BindActionView::Bound(None),
{
}

/// What is said about a group that a socket could not be given to: whose socket
/// it is, which group was meant and what kept it. Only an absent group may go
/// unsaid.
pub proof fn group_trouble_is_said_in_these_words(
    plan: BindPlan,
    asked: BindActionView,
    group: &'static str,
    error: IoError,
)
    requires
        plan.socket_group == Some(group),
    ensures
        next(plan, asked, BindAnswer::GroupFound(Ok(None))) == BindActionView::Bound(
            if plan.says_absent_group {
                Some(
                    plan.daemon@ + ": there is no "@ + group@ + " group on this host, so "@
                        + plan.socket_path@ + " keeps its own group and only root can connect"@,
                )
            } else {
                None
            },
        ),
        next(plan, asked, BindAnswer::GroupFound(Err(error))) == BindActionView::Bound(
            Some(
                plan.daemon@ + ": could not resolve the "@ + group@
                    + " group, so the socket keeps its own group and unprivileged clients cannot connect: "@
                    + error.message@,
            ),
        ),
        next(plan, asked, BindAnswer::GroupGiven(Err(error))) == BindActionView::Bound(
            Some(
                plan.daemon@ + ": could not give "@ + plan.socket_path@ + " to the "@ + group@
                    + " group, so unprivileged clients cannot connect: "@ + error.message@,
            ),
        ),
{
}

/// A failure to take a socket says which path it was about, or else repeats
/// what the host said.
pub proof fn bind_errors_in_words(path: String, cause: IoError)
    ensures
        bind_error_text(BindError::AlreadyActive(path)) == "a daemon is already serving "@ + path@,
        bind_error_text(BindError::NotASocket(path)) == path@
            + " exists and is not a socket, so it was left alone"@,
        bind_error_text(BindError::Unverifiable(path, cause)) == path@
            + " exists and could not be verified stale, so it was left alone: "@ + cause.message@,
        bind_error_text(BindError::Io(cause)) == cause.message@,
{
}

/// What is to be done about a socket is what is said, to the letter.
pub proof fn a_bind_action_means_what_it_says(
    mode: u32,
    gid: u32,
    group: &'static str,
    line: String,
    cause: IoError,
    error: BindError,
)
    ensures
        BindAction::CheckPath@ is CheckPath,
        BindAction::Inspect@ is Inspect,
        BindAction::Probe@ is Probe,
        BindAction::RemoveStale@ is RemoveStale,
        BindAction::Listen@ is Listen,
        BindAction::SetMode(mode)@ == BindActionView::SetMode(mode),
        BindAction::Discard(cause)@ == BindActionView::Discard(cause),
        BindAction::FindGroup(group)@ == BindActionView::FindGroup(group@),
        BindAction::GiveToGroup(gid)@ == BindActionView::GiveToGroup(gid),
        BindAction::Bound(None)@ == BindActionView::Bound(None),
        BindAction::Bound(Some(line))@ == BindActionView::Bound(Some(line@)),
        BindAction::Failed(error)@ == BindActionView::Failed(error),
{
}

/// A timeout that is configured is the deadline, and without one an inherited
/// deadline is cleared.
pub proof fn a_configured_timeout_is_the_deadline(span: Duration)
    ensures
        deadline_for(Some(span)) == Deadline::Within(span),
        deadline_for(None) is Cleared,
{
}

/// A span of up to 9 223 372 036 853 seconds can be set, or of as many as the
/// host can count where it counts in 32 bits. So can one that is refused as out
/// of range, and nothing between the two.
pub proof fn which_timeouts_can_be_set(timeout: nat)
    ensures
        usize::BITS == 64 && timeout < 9_223_372_036_854 * 1_000_000_000 ==> settable(timeout),
        usize::BITS != 64 && timeout < (isize::MAX + 1) * 1_000_000_000 ==> settable(timeout),
        timeout / 1_000 > i64::MAX ==> settable(timeout),
        usize::BITS == 64 && timeout >= 9_223_372_036_854 * 1_000_000_000 && timeout / 1_000
            <= i64::MAX ==> !settable(timeout),
        usize::BITS != 64 && timeout >= (isize::MAX + 1) * 1_000_000_000 && timeout / 1_000
            <= i64::MAX ==> !settable(timeout),
{
}

/// What the group database answered is what it found, and a failure is no
/// answer.
pub proof fn a_group_answer_is_what_was_found(found: Option<u32>, error: IoError, name: Seq<char>)
    ensures
        answer_in::<IoError>(Ok(found)) == Some(found),
        answer_in::<IoError>(Err(error)) is None,
        holds_zero(name) <==> exists|i: int| 0 <= i < name.len() && name[i] == '\0',
{
}

/// A failure on the host that keeps a socket from being taken is that failure.
pub proof fn a_host_failure_is_a_bind_error(error: IoError)
    ensures
        <BindError as vstd::std_specs::convert::FromSpec<IoError>>::from_spec(error)
            == BindError::Io(error),
        <BindError as vstd::std_specs::convert::FromSpec<IoError>>::obeys_from_spec(),
{
}

/// A socket is taken as it was configured: where, with which mode and for which
/// group, in the name of its own daemon, and with a word about an absent group.
pub proof fn a_plan_is_as_configured(
    daemon: &'static str,
    socket_path: &str,
    mode: u32,
    group: &'static str,
    config: SocketConfig,
    moded: SocketConfig,
    grouped: SocketConfig,
    plain: BindPlan,
    plan: BindPlan,
)
    requires
        call_ensures(SocketConfig::new, (daemon, socket_path), config),
        call_ensures(SocketConfig::with_socket_mode, (config, mode), moded),
        call_ensures(SocketConfig::with_socket_group, (moded, group), grouped),
        call_ensures(SocketConfig::plan, (&config,), plain),
        call_ensures(SocketConfig::plan, (&grouped,), plan),
    ensures
        plan.daemon == daemon,
        plan.socket_path@ == socket_path@,
        plan.socket_mode == mode,
        plan.socket_group == Some(group),
        plan.says_absent_group,
        plain.socket_mode == 0o660,
        plain.socket_group is None,
{
}

/// The deadline on an accepted stream is the configured one, thirty seconds
/// unless another was chosen, and none where none was. The caller on it is the
/// one that the kernel named, unless the deadline could not be set.
pub proof fn an_accepted_stream_is_bounded_as_configured(
    daemon: &'static str,
    socket_path: &str,
    config: SocketConfig,
    timeout: Option<Duration>,
    timed: SocketConfig,
    accepted: Accepted,
    answer: Result<PeerCredentials, String>,
    identified: Identified,
    deadline: Deadline,
    set: Result<(), IoError>,
    caller: Result<Caller, IoError>,
)
    requires
        call_ensures(SocketConfig::new, (daemon, socket_path), config),
        call_ensures(SocketConfig::with_request_read_timeout, (config, timeout), timed),
        call_ensures(SocketConfig::accepted, (&timed,), accepted),
        call_ensures(Accepted::peer_read, (accepted, answer), identified),
        call_ensures(Identified::deadline, (&identified,), deadline),
        call_ensures(Identified::deadline_set, (identified, set), caller),
    ensures
        config.request_read_timeout matches Some(span) && span@ == 30_000_000_000,
        timeout is None <==> deadline is Cleared,
        timeout matches Some(span) ==> deadline == Deadline::Within(span),
        set is Ok ==> caller == Ok::<Caller, IoError>(
            match answer {
                Ok(peer) => Caller::Peer { pid: peer.pid, uid: peer.uid, gid: peer.gid },
                Err(reason) => Caller::Unreadable(reason),
            },
        ),
        set matches Err(error) ==> caller == Err::<Caller, IoError>(error),
{
}

/// A timeout that is set is the span that was asked for, to the microsecond
/// below it, and one that is too long for that is refused.
pub proof fn a_receive_timeout_is_the_span_asked_for(
    timeout: Duration,
    parts: Result<(i64, i64), IoError>,
)
    requires
        call_ensures(accept_timeout, (&timeout,), parts),
    ensures
        parts matches Ok((secs, micros)) ==> 0 <= micros < 1_000_000 && (secs * 1_000_000 + micros)
            * 1_000 <= timeout@ < (secs * 1_000_000 + micros + 1) * 1_000,
        parts is Err <==> timeout@ >= (i64::MAX + 1) * 1_000,
{
}

/// An absent group is an answer, and a lookup that failed is not.
pub proof fn an_absent_group_is_no_failure(
    answer: Result<Option<u32>, nix::errno::Errno>,
    gid: Result<Option<u32>, IoError>,
)
    requires
        call_ensures(resolved, (answer,), gid),
    ensures
        gid is Ok <==> answer is Ok,
        answer matches Ok(found) ==> gid == Ok::<Option<u32>, IoError>(found),
{
}

/// An error is said in its own words and gives the failure behind it, where
/// there is one.
pub proof fn a_bind_error_gives_its_cause(
    error: BindError,
    words: String,
    cause: Option<&IoError>,
)
    requires
        call_ensures(BindError::to_string, (&error,), words),
        call_ensures(BindError::source, (&error,), cause),
    ensures
        words@ == bind_error_text(error),
        error is AlreadyActive || error is NotASocket <==> cause is None,
        error matches BindError::Io(behind) ==> cause == Some(&behind) && words@ == behind.message@,
        error matches BindError::Unverifiable(_, behind) ==> cause == Some(&behind),
{
}

/// Whatever mode, group, path and deadline a socket is configured with, it is
/// planned and its streams are bounded with them, and choosing one of them
/// leaves the others as they are.
pub proof fn a_socket_keeps_to_its_configuration(
    config: SocketConfig,
    mode: u32,
    group: &'static str,
    timeout: Option<Duration>,
    moded: SocketConfig,
    grouped: SocketConfig,
    timed: SocketConfig,
    plan: BindPlan,
    accepted: Accepted,
)
    requires
        call_ensures(SocketConfig::with_socket_mode, (config, mode), moded),
        call_ensures(SocketConfig::with_socket_group, (config, group), grouped),
        call_ensures(SocketConfig::with_request_read_timeout, (config, timeout), timed),
        call_ensures(SocketConfig::plan, (&config,), plan),
        call_ensures(SocketConfig::accepted, (&config,), accepted),
    ensures
        plan.daemon == config.daemon,
        plan.socket_path == config.socket_path,
        plan.socket_mode == config.socket_mode,
        plan.socket_group == config.socket_group,
        plan.says_absent_group,
        accepted@ == deadline_for(config.request_read_timeout),
        moded.socket_mode == mode,
        moded.socket_group == config.socket_group,
        moded.request_read_timeout == config.request_read_timeout,
        grouped.socket_group == Some(group),
        grouped.socket_mode == config.socket_mode,
        grouped.request_read_timeout == config.request_read_timeout,
        timed.request_read_timeout == timeout,
        timed.socket_mode == config.socket_mode,
        timed.socket_group == config.socket_group,
{
}

}
