//! The HTTP daemon around a socket: its configuration, and what its serve loop
//! makes of what happens to it.
//!
//! The loop is single-threaded on purpose: one connection is accepted, read,
//! dispatched and answered before the next is looked at. The watchdog is what
//! makes that safe to keep.
use crate::handler::Handler;
use crate::http::ServeOutcome;
use crate::io::{ErrorKind, IoError};
use crate::socket::{self, Accepted, BindPlan};
use crate::text;
use crate::time::{self, Duration};
use crate::watchdog::Liveness;
use vstd::prelude::*;
use vstd::string::StringExecFns;

verus! {

/// Everything about the socket and the request budget that a daemon might want
/// to differ on.
#[derive(Debug)]
pub struct ServerConfig {
    /// Where the socket lives.
    pub socket_path: String,
    /// The socket's file mode. `0o660` with a group is the shape that lets an
    /// unprivileged front-end talk to a root-owned daemon.
    pub socket_mode: u32,
    /// The group to give the socket to, if any.
    pub socket_group: Option<&'static str>,
    /// The `GET` path the framework answers with `{"ok":{"healthy":true}}`.
    pub health_path: &'static str,
    /// The `GET` path the framework answers with the service's name and
    /// version.
    pub version_path: &'static str,
    /// How long an accepted connection may go without sending the request it
    /// connected to send. Set on the accepted stream, and not inherited from
    /// the listener.
    pub request_read_timeout: Duration,
    /// The ceiling on the header block.
    pub max_header_bytes: usize,
    /// The ceiling on `content-length`.
    pub max_body_bytes: usize,
    /// The longest a single dispatch may run before the daemon is treated as
    /// wedged rather than busy.
    pub longest_legitimate_request: Duration,
}

impl Clone for ServerConfig {
    fn clone(&self) -> (copy: Self)
        ensures
            copy == *self,
    {
        ServerConfig {
            socket_path: self.socket_path.clone(),
            socket_mode: self.socket_mode,
            socket_group: self.socket_group,
            health_path: self.health_path,
            version_path: self.version_path,
            request_read_timeout: self.request_read_timeout,
            max_header_bytes: self.max_header_bytes,
            max_body_bytes: self.max_body_bytes,
            longest_legitimate_request: self.longest_legitimate_request,
        }
    }
}

impl ServerConfig {
    /// A configuration for `socket_path`, with defaults for everything else:
    /// mode `0o660`, no group, `/v1/status` and `/v1/version`, a 30-second
    /// request budget, 16 KiB of headers, 1 MiB of body, and a ten-minute
    /// ceiling on a single dispatch.
    pub fn new(socket_path: &str) -> (config: Self)
        ensures
            config.socket_path@ == socket_path@,
            config.socket_mode == 0o660,
            config.socket_group is None,
            config.health_path@ == "/v1/status"@,
            config.version_path@ == "/v1/version"@,
            config.request_read_timeout@ == 30 * 1_000_000_000,
            config.max_header_bytes == 16_384,
            config.max_body_bytes == 1_048_576,
            config.longest_legitimate_request@ == 600 * 1_000_000_000,
    {
        ServerConfig {
            socket_path: socket_path.to_owned(),
            socket_mode: 0o660,
            socket_group: None,
            health_path: "/v1/status",
            version_path: "/v1/version",
            request_read_timeout: Duration::from_secs(30),
            max_header_bytes: 16_384,
            max_body_bytes: 1_048_576,
            longest_legitimate_request: Duration::from_secs(600),
        }
    }

    /// Give the socket to a group, so unprivileged members can connect.
    pub fn with_socket_group(self, group: &'static str) -> (config: Self)
        ensures
            config == (ServerConfig { socket_group: Some(group), ..self }),
    {
        ServerConfig { socket_group: Some(group), ..self }
    }

    /// A connection that was just accepted by this server.
    pub fn accepted(&self) -> (accepted: Accepted)
        ensures
            accepted@ == socket::Deadline::Within(self.request_read_timeout),
    {
        Accepted::new(Some(self.request_read_timeout))
    }

    /// How this server's socket is to be taken. A group that the host does not
    /// have is passed over in silence: such a host still serves root callers.
    pub fn plan(&self, service: &'static str) -> (plan: BindPlan)
        ensures
            plan == (BindPlan {
                daemon: service,
                socket_path: self.socket_path,
                socket_mode: self.socket_mode,
                socket_group: self.socket_group,
                says_absent_group: false,
            }),
    {
        BindPlan {
            daemon: service,
            socket_path: self.socket_path.clone(),
            socket_mode: self.socket_mode,
            socket_group: self.socket_group,
            says_absent_group: false,
        }
    }
}

/// How stale an idle loop's tick may go, and what to say about it, once it was
/// tried to bound `accept()` to the heartbeat interval.
///
/// With the timeout armed an idle loop turns at least once per interval, and
/// three intervals without a turn are evidence of a wedge. Without it the loop
/// blocks in `accept()` while idle, so staleness is evidence of nothing.
pub fn idle_ceiling(service: &str, interval: Duration, armed: Result<(), IoError>) -> (ceiling: (
    Option<Duration>,
    Option<String>,
))
    requires
        armed is Ok ==> interval@ * 3 <= time::longest(),
    ensures
        match armed {
            Ok(()) => ceiling.1 is None && ceiling.0 is Some && ceiling.0->0@ == interval@ * 3,
            Err(error) => ceiling.0 is None && text::text_in(ceiling.1) == Some(
                service@ + ": watchdog accept timeout unavailable: "@ + error.message@,
            ),
        },
{
    match armed {
        Ok(()) => (Some(interval.times(3)), None),
        Err(error) => {
            let mut line = service.to_owned();
            line.append(": watchdog accept timeout unavailable: ");
            line.append(error.message.as_str());
            (None, Some(line))
        },
    }
}

/// The line about a connection, if there is one to write.
pub open spec fn outcome_text(service: Seq<char>, outcome: ServeOutcome) -> Option<Seq<char>> {
    match outcome {
        ServeOutcome::Failed { context: Some(request), error } => Some(
            service + ": request failed: "@ + request@ + ": "@ + error.message@,
        ),
        ServeOutcome::Failed { context: None, error } => Some(
            service + ": request failed: "@ + error.message@,
        ),
        _ => None,
    }
}

/// What to write about a connection that was served. A single client failing
/// must not take down a privileged daemon: it is a line, and the loop goes on.
/// A connect-and-drop probe is not a failure at all.
pub fn outcome_line(service: &str, outcome: &ServeOutcome) -> (line: Option<String>)
    ensures
        text::text_in(line) == outcome_text(service@, *outcome),
{
    match outcome {
        ServeOutcome::Failed { context: Some(request), error } => {
            let mut line = service.to_owned();
            line.append(": request failed: ");
            line.append(request.as_str());
            line.append(": ");
            line.append(error.message.as_str());
            Some(line)
        },
        ServeOutcome::Failed { context: None, error } => {
            let mut line = service.to_owned();
            line.append(": request failed: ");
            line.append(error.message.as_str());
            Some(line)
        },
        _ => None,
    }
}

/// Whether an `accept()` that failed is an expected idle wakeup: an accept
/// timeout that elapsed under an armed heartbeat.
pub open spec fn idle_wakeup(heartbeat_armed: bool, error: IoError) -> bool {
    heartbeat_armed && (error.kind is WouldBlock || error.kind is TimedOut)
}

fn is_idle_wakeup(heartbeat_armed: bool, error: &IoError) -> (idle: bool)
    ensures
        idle == idle_wakeup(heartbeat_armed, *error),
{
    heartbeat_armed && matches!(error.kind, ErrorKind::WouldBlock | ErrorKind::TimedOut)
}

/// The line about an `accept()` that failed, if there is one to write. There is
/// none about an idle wakeup.
pub open spec fn accept_failure_text(
    service: Seq<char>,
    heartbeat_armed: bool,
    error: IoError,
) -> Option<Seq<char>> {
    if idle_wakeup(heartbeat_armed, error) {
        None
    } else {
        Some(service + ": accept failed: "@ + error.message@)
    }
}

/// What to write about an `accept()` that failed. The loop goes on either way.
pub fn accept_failure_line(service: &str, heartbeat_armed: bool, error: &IoError) -> (line: Option<
    String,
>)
    ensures
        text::text_in(line) == accept_failure_text(service@, heartbeat_armed, *error),
{
    if is_idle_wakeup(heartbeat_armed, error) {
        return None;
    }
    let mut line = service.to_owned();
    line.append(": accept failed: ");
    line.append(error.message.as_str());
    Some(line)
}

/// The next thing for a serve loop to do.
pub enum ServeAction {
    /// Tell the service manager that the daemon is serving.
    NotifyReady,
    /// Bound `accept()` to this interval, so that an idle loop still turns.
    BoundAccept(Duration),
    /// Write the line, if there is one, and start a heartbeat that pets at
    /// this interval for as long as the loop counts as alive.
    StartHeartbeat(Duration, Liveness, Option<String>),
    /// Accept a connection.
    Accept,
    /// Serve the accepted connection, with the call on record for as long as
    /// that takes.
    Serve,
    /// Write the line, if there is one, and put the turn on record.
    Turn(Option<String>),
}

/// The next thing to do, over the text that is meant.
pub enum ServeActionView {
    /// Tell the service manager.
    NotifyReady,
    /// Bound `accept()`.
    BoundAccept(Duration),
    /// Start a heartbeat, by its interval and by how stale an idle loop's tick
    /// may go, and say something or not.
    StartHeartbeat(Duration, Option<nat>, Option<Seq<char>>),
    /// Accept a connection.
    Accept,
    /// Serve it.
    Serve,
    /// Say something or not, and turn.
    Turn(Option<Seq<char>>),
}

impl View for ServeAction {
    type V = ServeActionView;

    open spec fn view(&self) -> ServeActionView {
        match *self {
            ServeAction::NotifyReady => ServeActionView::NotifyReady,
            ServeAction::BoundAccept(interval) => ServeActionView::BoundAccept(interval),
            ServeAction::StartHeartbeat(interval, liveness, line) => {
                ServeActionView::StartHeartbeat(
                    interval,
                    match liveness.idle_tick_ceiling {
                        Some(ceiling) => Some(ceiling@),
                        None => None,
                    },
                    text::text_in(line),
                )
            },
            ServeAction::Accept => ServeActionView::Accept,
            ServeAction::Serve => ServeActionView::Serve,
            ServeAction::Turn(line) => ServeActionView::Turn(text::text_in(line)),
        }
    }
}

/// What came of the last thing a serve loop did.
pub enum ServeAnswer {
    /// The service manager was told, as far as it can be.
    Notified,
    /// `accept()` was bounded, or could not be.
    AcceptBounded(Result<(), IoError>),
    /// The heartbeat runs.
    HeartbeatStarted,
    /// A connection was accepted, or not.
    Accepted(Result<(), IoError>),
    /// A connection was served.
    Served(ServeOutcome),
    /// The turn is on record.
    Turned,
}

/// Whether an answer is one to what was asked of a serve loop.
pub open spec fn answers(asked: ServeActionView, answer: ServeAnswer) -> bool {
    match asked {
        ServeActionView::NotifyReady => answer is Notified,
        ServeActionView::BoundAccept(_) => answer is AcceptBounded,
        ServeActionView::StartHeartbeat(_, _, _) => answer is HeartbeatStarted,
        ServeActionView::Accept => answer is Accepted,
        ServeActionView::Serve => answer is Served,
        ServeActionView::Turn(_) => answer is Turned,
    }
}

/// Where a serve loop stands.
pub struct ServeLoopView {
    /// The interval of the heartbeat, where the service manager asked for one.
    pub heartbeat: Option<Duration>,
    /// What the loop is to do next.
    pub asked: ServeActionView,
}

/// Whether there is a line to write about an answer to what was asked of a serve
/// loop.
pub open spec fn spoken_of(serving: ServeLoopView, answer: ServeAnswer) -> bool {
    match answer {
        ServeAnswer::AcceptBounded(armed) => armed is Err,
        ServeAnswer::Accepted(Err(error)) => !idle_wakeup(serving.heartbeat is Some, error),
        ServeAnswer::Served(outcome) => outcome is Failed,
        _ => false,
    }
}

/// What a serve loop is to do after an answer to what was asked, where the
/// service goes by this name. There is no answer after which it stops.
pub open spec fn turn(
    serving: ServeLoopView,
    service: Seq<char>,
    answer: ServeAnswer,
) -> ServeActionView {
    match answer {
        ServeAnswer::Notified => match serving.heartbeat {
            Some(interval) => ServeActionView::BoundAccept(interval),
            None => ServeActionView::Accept,
        },
        ServeAnswer::AcceptBounded(Ok(())) => ServeActionView::StartHeartbeat(
            serving.asked->BoundAccept_0,
            Some(serving.asked->BoundAccept_0@ * 3),
            None,
        ),
        ServeAnswer::AcceptBounded(Err(error)) => ServeActionView::StartHeartbeat(
            serving.asked->BoundAccept_0,
            None,
            Some(service + ": watchdog accept timeout unavailable: "@ + error.message@),
        ),
        ServeAnswer::HeartbeatStarted => ServeActionView::Accept,
        ServeAnswer::Accepted(Ok(())) => ServeActionView::Serve,
        ServeAnswer::Accepted(Err(error)) => ServeActionView::Turn(
            accept_failure_text(service, serving.heartbeat is Some, error),
        ),
        ServeAnswer::Served(outcome) => ServeActionView::Turn(outcome_text(service, outcome)),
        ServeAnswer::Turned => ServeActionView::Accept,
    }
}

/// A daemon's serve loop: signal readiness, arm the heartbeat if there is to
/// be one, and then accept for ever.
///
/// Pets come from a dedicated heartbeat and not from this loop, which would go
/// silent exactly while it is working. The loop keeps a record of what it is
/// doing instead.
pub struct ServeLoop {
    heartbeat: Option<Duration>,
    longest_legitimate_request: Duration,
    asked: ServeAction,
}

impl View for ServeLoop {
    type V = ServeLoopView;

    closed spec fn view(&self) -> ServeLoopView {
        ServeLoopView {
            heartbeat: self.heartbeat,
            asked: self.asked@,
        }
    }
}

impl ServeLoop {
    /// The longest a single dispatch may run before the daemon is treated as
    /// wedged.
    pub closed spec fn ceiling(&self) -> Duration {
        self.longest_legitimate_request
    }

    /// Whether the heartbeat that the loop asks for, if it asks for one, takes
    /// the configured ceiling and trusts open streams.
    pub closed spec fn well_formed(&self) -> bool {
        &&& self.heartbeat matches Some(interval) ==> interval@ * 3 <= time::longest()
        &&& self.asked matches ServeAction::BoundAccept(interval) ==> self.heartbeat == Some(
            interval,
        )
        &&& self.asked matches ServeAction::StartHeartbeat(_, liveness, _) ==> {
            &&& liveness.longest_bounded_call == self.longest_legitimate_request
            &&& liveness.longest_silent_stream is None
        }
    }

    /// A loop that has not begun.
    pub fn new(config: &ServerConfig, heartbeat: Option<Duration>) -> (serving: Self)
        requires
            heartbeat matches Some(interval) ==> interval@ * 3 <= time::longest(),
        ensures
            serving@ == (ServeLoopView {
                heartbeat,
                asked: ServeActionView::NotifyReady,
            }),
            serving.ceiling() == config.longest_legitimate_request,
            serving.well_formed(),
    {
        ServeLoop {
            heartbeat,
            longest_legitimate_request: config.longest_legitimate_request,
            asked: ServeAction::NotifyReady,
        }
    }

    /// The next thing to do.
    pub fn action(&self) -> (action: &ServeAction)
        requires
            self.well_formed(),
        ensures
            action@ == self@.asked,
            *action matches ServeAction::StartHeartbeat(_, liveness, _) ==> {
                &&& liveness.longest_bounded_call == self.ceiling()
                &&& liveness.longest_silent_stream is None
            },
    {
        &self.asked
    }

    /// Take in what came of the last thing done. The service is asked for its
    /// name whenever there is a line to write.
    pub fn step(&mut self, handler: &Handler, answer: ServeAnswer)
        requires
            old(self).well_formed(),
            answers(old(self)@.asked, answer),
        ensures
            exists|name: Seq<char>|
                {
                    &&& spoken_of(old(self)@, answer) ==> handler.serves().names_itself(name)
                    &&& final(self)@ == (ServeLoopView {
                        asked: #[trigger] turn(old(self)@, name, answer),
                        ..old(self)@
                    })
                },
            final(self).ceiling() == old(self).ceiling(),
            final(self).well_formed(),
    {
        let service = if self.speaks_of(&answer) {
            handler.service().name()
        } else {
            ""
        };
        let ghost given = answer;
        let action = match answer {
            ServeAnswer::Notified => match self.heartbeat {
                Some(interval) => ServeAction::BoundAccept(interval),
                None => ServeAction::Accept,
            },
            ServeAnswer::AcceptBounded(armed) => match self.heartbeat {
                Some(interval) => {
                    let (ceiling, line) = idle_ceiling(service, interval, armed);
                    let liveness = Liveness {
                        idle_tick_ceiling: ceiling,
                        longest_bounded_call: self.longest_legitimate_request,
                        longest_silent_stream: None,
                    };
                    ServeAction::StartHeartbeat(interval, liveness, line)
                },
                None => ServeAction::Accept,
            },
            ServeAnswer::HeartbeatStarted => ServeAction::Accept,
            ServeAnswer::Accepted(accepted) => match accepted {
                Ok(()) => ServeAction::Serve,
                Err(error) => {
                    let armed = self.heartbeat.is_some();
                    ServeAction::Turn(accept_failure_line(service, armed, &error))
                },
            },
            ServeAnswer::Served(outcome) => ServeAction::Turn(outcome_line(service, &outcome)),
            ServeAnswer::Turned => ServeAction::Accept,
        };
        self.asked = action;
        assert(self.asked@ == turn(old(self)@, service@, given));
    }

    fn speaks_of(&self, answer: &ServeAnswer) -> (spoken: bool)
        ensures
            spoken == spoken_of(self@, *answer),
    {
        match answer {
            ServeAnswer::AcceptBounded(armed) => armed.is_err(),
            ServeAnswer::Accepted(Err(error)) => !is_idle_wakeup(self.heartbeat.is_some(), error),
            ServeAnswer::Served(outcome) => matches!(outcome, ServeOutcome::Failed { .. }),
            _ => false,
        }
    }
}

/// Nothing that happens to a single connection ends the loop: whatever came of
/// accepting or serving it, the next connection is accepted a turn later.
pub proof fn no_client_ends_the_loop(
    serving: ServeLoopView,
    service: Seq<char>,
    answer: ServeAnswer,
)
    requires
        serving.asked is Accept || serving.asked is Serve,
        answers(serving.asked, answer),
    ensures
        turn(serving, service, answer) is Serve || turn(serving, service, answer) is Turn,
        turn(
            ServeLoopView { asked: turn(serving, service, answer), ..serving },
            service,
            ServeAnswer::Turned,
        ) is Accept,
{
}

/// A daemon without a watchdog accepts as soon as it has said that it is
/// ready, and one with a watchdog bounds its `accept()` first.
pub proof fn the_heartbeat_is_armed_before_anything_is_accepted(
    serving: ServeLoopView,
    service: Seq<char>,
)
    ensures
        turn(serving, service, ServeAnswer::Notified) is Accept <==> serving.heartbeat is None,
        turn(serving, service, ServeAnswer::Notified) is BoundAccept
            <==> serving.heartbeat is Some,
{
}

/// The service's name is in the lines that a serve loop writes and nowhere else:
/// where there is no line to write, it makes no difference.
pub proof fn the_name_matters_to_lines_alone(
    serving: ServeLoopView,
    service: Seq<char>,
    other: Seq<char>,
    answer: ServeAnswer,
)
    requires
        answers(serving.asked, answer),
        !spoken_of(serving, answer),
    ensures
        turn(serving, service, answer) == turn(serving, other, answer),
{
}

/// A probe and an answered request leave no line, whatever the status of the
/// answer; a failed connection always leaves one.
pub proof fn only_failures_are_logged(service: Seq<char>, outcome: ServeOutcome)
    ensures
        outcome_text(service, outcome) is Some <==> outcome is Failed,
{
}

/// A connection that failed is said under the service's name, with the request
/// where there was one, and with what went wrong. Nothing is said of any other.
pub proof fn a_failed_connection_in_words(
    service: Seq<char>,
    request: String,
    error: IoError,
)
    ensures
        outcome_text(service, ServeOutcome::Failed { context: Some(request), error }) == Some(
            service + ": request failed: "@ + request@ + ": "@ + error.message@,
        ),
        outcome_text(service, ServeOutcome::Failed { context: None, error }) == Some(
            service + ": request failed: "@ + error.message@,
        ),
        outcome_text(service, ServeOutcome::Answered) is None,
        outcome_text(service, ServeOutcome::Probe) is None,
{
}

/// An `accept()` that failed is said under the service's name with what went
/// wrong, unless a timeout elapsed while a heartbeat was armed: that is no
/// failure.
pub proof fn a_failed_accept_in_words(service: Seq<char>, heartbeat_armed: bool, error: IoError)
    ensures
        heartbeat_armed && (error.kind is WouldBlock || error.kind is TimedOut)
            ==> accept_failure_text(service, heartbeat_armed, error) is None,
        !heartbeat_armed || !(error.kind is WouldBlock || error.kind is TimedOut)
            ==> accept_failure_text(service, heartbeat_armed, error) == Some(
            service + ": accept failed: "@ + error.message@,
        ),
        idle_wakeup(heartbeat_armed, error) <==> accept_failure_text(
            service,
            heartbeat_armed,
            error,
        ) is None,
{
}

/// A loop under a watchdog bounds its `accept()` to the heartbeat's interval
/// and then starts the heartbeat at that interval: with three of them for an
/// idle turn where the bound was set, and with no bound on idling, and a word
/// about it, where it was not. Only then does it accept.
pub proof fn a_heartbeat_is_started_as_it_was_armed(
    serving: ServeLoopView,
    service: Seq<char>,
    interval: Duration,
    error: IoError,
)
    ensures
        serving.heartbeat == Some(interval) ==> turn(serving, service, ServeAnswer::Notified)
            == ServeActionView::BoundAccept(interval),
        serving.asked == ServeActionView::BoundAccept(interval) ==> turn(
            serving,
            service,
            ServeAnswer::AcceptBounded(Ok(())),
        ) == ServeActionView::StartHeartbeat(interval, Some(interval@ * 3), None),
        serving.asked == ServeActionView::BoundAccept(interval) ==> turn(
            serving,
            service,
            ServeAnswer::AcceptBounded(Err(error)),
        ) == ServeActionView::StartHeartbeat(
            interval,
            None,
            Some(service + ": watchdog accept timeout unavailable: "@ + error.message@),
        ),
        turn(serving, service, ServeAnswer::HeartbeatStarted) is Accept,
{
}

/// A connection that was accepted is served, and whatever came of it, or of an
/// `accept()` that failed, is said in the words for it before the loop turns
/// and accepts again.
pub proof fn a_turn_of_the_loop(
    serving: ServeLoopView,
    service: Seq<char>,
    outcome: ServeOutcome,
    error: IoError,
)
    ensures
        turn(serving, service, ServeAnswer::Accepted(Ok(()))) is Serve,
        turn(serving, service, ServeAnswer::Accepted(Err(error))) == ServeActionView::Turn(
            if serving.heartbeat is Some && (error.kind is WouldBlock || error.kind is TimedOut) {
                None
            } else {
                Some(service + ": accept failed: "@ + error.message@)
            },
        ),
        turn(serving, service, ServeAnswer::Served(outcome)) == ServeActionView::Turn(
            outcome_text(service, outcome),
        ),
        turn(serving, service, ServeAnswer::Turned) is Accept,
{
}

/// There is a line to write about an answer exactly where what follows says
/// something.
pub proof fn what_is_spoken_of_is_said(
    serving: ServeLoopView,
    service: Seq<char>,
    answer: ServeAnswer,
)
    requires
        answers(serving.asked, answer),
    ensures
        spoken_of(serving, answer) <==> match turn(serving, service, answer) {
            ServeActionView::StartHeartbeat(_, _, line) => line is Some,
            ServeActionView::Turn(line) => line is Some,
            _ => false,
        },
{
}

/// Each thing that is asked of a serve loop has an answer of its own.
pub proof fn each_turn_has_its_own_answer(asked: ServeActionView, answer: ServeAnswer)
    ensures
        answer is Notified ==> (answers(asked, answer) <==> asked is NotifyReady),
        answer is AcceptBounded ==> (answers(asked, answer) <==> asked is BoundAccept),
        answer is HeartbeatStarted ==> (answers(asked, answer) <==> asked is StartHeartbeat),
        answer is Accepted ==> (answers(asked, answer) <==> asked is Accept),
        answer is Served ==> (answers(asked, answer) <==> asked is Serve),
        answer is Turned ==> (answers(asked, answer) <==> asked is Turn),
{
}

/// What a serve loop is to do is what is said, to the letter.
pub proof fn a_serve_action_means_what_it_says(
    interval: Duration,
    liveness: Liveness,
    ceiling: Duration,
    line: String,
)
    ensures
        ServeAction::NotifyReady@ is NotifyReady,
        ServeAction::BoundAccept(interval)@ == ServeActionView::BoundAccept(interval),
        liveness.idle_tick_ceiling == Some(ceiling) ==> ServeAction::StartHeartbeat(
            interval,
            liveness,
            Some(line),
        )@ == ServeActionView::StartHeartbeat(interval, Some(ceiling@), Some(line@)),
        liveness.idle_tick_ceiling is None ==> ServeAction::StartHeartbeat(
            interval,
            liveness,
            None,
        )@ == ServeActionView::StartHeartbeat(interval, None, None),
        ServeAction::Accept@ is Accept,
        ServeAction::Serve@ is Serve,
        ServeAction::Turn(Some(line))@ == ServeActionView::Turn(Some(line@)),
        ServeAction::Turn(None)@ == ServeActionView::Turn(None),
{
}

/// A server's socket is taken as it was configured, in the name of the service
/// and without a word about an absent group, and its streams are bounded as
/// configured.
pub proof fn a_server_plans_as_configured(
    socket_path: &str,
    group: &'static str,
    service: &'static str,
    config: ServerConfig,
    grouped: ServerConfig,
    plan: BindPlan,
    accepted: Accepted,
)
    requires
        call_ensures(ServerConfig::new, (socket_path,), config),
        call_ensures(ServerConfig::with_socket_group, (config, group), grouped),
        call_ensures(ServerConfig::plan, (&grouped, service), plan),
        call_ensures(ServerConfig::accepted, (&grouped,), accepted),
    ensures
        plan.daemon == service,
        plan.socket_path@ == socket_path@,
        plan.socket_mode == 0o660,
        plan.socket_group == Some(group),
        !plan.says_absent_group,
        accepted@ matches socket::Deadline::Within(span) && span@ == 30_000_000_000,
{
}

/// Whatever mode, group and path a server is configured with, it plans with
/// them.
pub proof fn a_server_keeps_to_its_configuration(
    config: ServerConfig,
    service: &'static str,
    plan: BindPlan,
    accepted: Accepted,
)
    requires
        call_ensures(ServerConfig::plan, (&config, service), plan),
        call_ensures(ServerConfig::accepted, (&config,), accepted),
    ensures
        plan.socket_path == config.socket_path,
        plan.socket_mode == config.socket_mode,
        plan.socket_group == config.socket_group,
        accepted@ == socket::Deadline::Within(config.request_read_timeout),
{
}

/// A loop that can be woken may idle for three intervals, and one that cannot
/// may idle for ever, which is said.
pub proof fn an_idle_ceiling_is_three_intervals(
    service: &str,
    interval: Duration,
    armed: Result<(), IoError>,
    ceiling: (Option<Duration>, Option<String>),
)
    requires
        call_ensures(idle_ceiling, (service, interval, armed), ceiling),
    ensures
        armed is Ok ==> (ceiling.0 matches Some(span) && span@ == interval@ + interval@ + interval@)
            && ceiling.1 is None,
        armed matches Err(error) ==> ceiling.0 is None && (ceiling.1 matches Some(line) && line@
            == service@ + ": watchdog accept timeout unavailable: "@ + error.message@),
{
}

/// A loop begins by saying that it is ready, under the heartbeat it was given
/// and the ceiling it was configured with.
pub proof fn a_loop_begins_as_configured(
    config: ServerConfig,
    heartbeat: Option<Duration>,
    serving: ServeLoop,
)
    requires
        call_ensures(ServeLoop::new, (&config, heartbeat), serving),
    ensures
        serving@.asked is NotifyReady,
        serving@.heartbeat == heartbeat,
        serving.ceiling() == config.longest_legitimate_request,
{
}

}
