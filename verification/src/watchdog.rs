//! The busy-versus-wedged distinction that a software watchdog needs to be
//! safe, and what is said to the service manager.
//!
//! A privileged call can legitimately outlive the watchdog window, so pets
//! cannot come from the accept loop itself: a loop blocked inside a healthy
//! long call goes silent exactly when it is doing the most work. Instead the
//! accept loop records what it is doing in a [`ServeActivity`], and a heartbeat
//! pets while that record says the loop is either idling normally or making
//! bounded progress.
//!
//! A call declares its shape, because one ceiling cannot cover both:
//! [`InFlight::Bounded`] is judged by how long it has run, and
//! [`InFlight::Streaming`] by its progress and never by its duration.
use crate::text::{self, chars_of, cut, parse_number, text_of};
use crate::time::{self, Duration, Instant};
use vstd::prelude::*;

verus! {

/// The shape of a call that is holding the serve thread right now.
#[derive(Debug, Clone, Copy, PartialEq, Eq, Structural)]
pub enum InFlight {
    /// A call expected to return. Judged by how long it has been running.
    Bounded,
    /// A call that holds the connection open by design: a subscription, an
    /// event stream. Judged by progress, never by total duration.
    Streaming,
}

/// When the accept loop counts as wedged rather than busy.
///
/// Every ceiling here answers "could a progressing daemon plausibly still be
/// in this state?", not "how fast is the fast path?".
#[derive(Debug, Clone, Copy)]
pub struct Liveness {
    /// How stale the loop's tick may go while no call is in flight.
    ///
    /// `None` means idle ticks are not expected: the daemon did not arm an
    /// accept timeout, so an idle loop blocks in `accept()` and a stale tick is
    /// the normal condition.
    pub idle_tick_ceiling: Option<Duration>,
    /// The longest a [`InFlight::Bounded`] call may run before the daemon is
    /// treated as wedged.
    pub longest_bounded_call: Duration,
    /// How long a [`InFlight::Streaming`] call may go without stamping
    /// [`ServeActivity::progressed`] before the daemon is treated as wedged.
    ///
    /// `None`, the default, trusts an open stream for as long as it is open.
    pub longest_silent_stream: Option<Duration>,
}

impl Liveness {
    /// Ten minutes for a bounded call, no idle ceiling, and an open stream
    /// trusted for as long as it is open.
    pub fn new() -> (liveness: Self)
        ensures
            liveness.idle_tick_ceiling is None,
            liveness.longest_bounded_call@ == 600 * 1_000_000_000,
            liveness.longest_silent_stream is None,
    {
        Liveness {
            idle_tick_ceiling: None,
            longest_bounded_call: Duration::from_secs(600),
            longest_silent_stream: None,
        }
    }

    /// Expect the accept loop to turn at least this often while idle.
    ///
    /// Only correct alongside an accept timeout; see the field.
    pub fn with_idle_tick_ceiling(self, ceiling: Duration) -> (liveness: Self)
        ensures
            liveness == (Liveness { idle_tick_ceiling: Some(ceiling), ..self }),
    {
        Liveness { idle_tick_ceiling: Some(ceiling), ..self }
    }

    /// Set the ceiling on a bounded call.
    pub fn with_longest_bounded_call(self, ceiling: Duration) -> (liveness: Self)
        ensures
            liveness == (Liveness { longest_bounded_call: ceiling, ..self }),
    {
        Liveness { longest_bounded_call: ceiling, ..self }
    }

    /// Require an open stream to stamp progress at least this often.
    pub fn with_silent_stream_ceiling(self, ceiling: Duration) -> (liveness: Self)
        ensures
            liveness == (Liveness { longest_silent_stream: Some(ceiling), ..self }),
    {
        Liveness { longest_silent_stream: Some(ceiling), ..self }
    }
}

impl Default for Liveness {
    fn default() -> (liveness: Self)
        ensures
            liveness.idle_tick_ceiling is None,
            liveness.longest_bounded_call@ == 600 * 1_000_000_000,
            liveness.longest_silent_stream is None,
    {
        Liveness::new()
    }
}

/// A call that is holding the serve thread.
#[derive(Debug, Clone, Copy)]
pub struct InFlightState {
    /// Its shape.
    pub kind: InFlight,
    /// When it began.
    pub started_at: Instant,
    /// When it last showed progress.
    pub last_progress: Instant,
}

/// What the accept loop is doing right now, as seen by the heartbeat.
///
/// Every method takes the time at which it is called.
#[derive(Debug, Clone, Copy)]
pub struct ServeActivity {
    last_tick: Instant,
    in_flight: Option<InFlightState>,
}

/// What is recorded of the accept loop.
pub struct ActivityView {
    /// When the loop last turned.
    pub last_tick: Instant,
    /// The call it is in, if it is in one.
    pub in_flight: Option<InFlightState>,
}

impl View for ServeActivity {
    type V = ActivityView;

    closed spec fn view(&self) -> ActivityView {
        ActivityView { last_tick: self.last_tick, in_flight: self.in_flight }
    }
}

/// The record after the loop turned.
pub open spec fn ticked(activity: ActivityView, now: Instant) -> ActivityView {
    ActivityView { last_tick: now, ..activity }
}

/// The record after a call began.
pub open spec fn started(activity: ActivityView, kind: InFlight, now: Instant) -> ActivityView {
    ActivityView {
        in_flight: Some(InFlightState { kind, started_at: now, last_progress: now }),
        ..activity
    }
}

/// The record after the call in flight, if there is one, showed progress.
pub open spec fn stamped(activity: ActivityView, now: Instant) -> ActivityView {
    ActivityView {
        in_flight: match activity.in_flight {
            Some(call) => Some(InFlightState { last_progress: now, ..call }),
            None => None,
        },
        ..activity
    }
}

/// The record after a call returned.
pub open spec fn finished(activity: ActivityView, now: Instant) -> ActivityView {
    ActivityView { last_tick: now, in_flight: None }
}

/// Whether a point in time is within a ceiling of an earlier one.
pub open spec fn within(earlier: Instant, now: Instant, ceiling: Duration) -> bool {
    time::elapsed(earlier, now) <= ceiling@
}

/// Whether a loop with this record counts as alive.
pub open spec fn alive(activity: ActivityView, now: Instant, liveness: Liveness) -> bool {
    match activity.in_flight {
        // Idle: trusted, unless the loop was expected to turn and did not.
        None => liveness.idle_tick_ceiling matches Some(ceiling) ==> within(
            activity.last_tick,
            now,
            ceiling,
        ),
        Some(call) => match call.kind {
            // Busy: only an overstayed call is wedged.
            InFlight::Bounded => within(call.started_at, now, liveness.longest_bounded_call),
            // Open by design: only a daemon that opted into a progress ceiling
            // gets one judged at all.
            InFlight::Streaming => liveness.longest_silent_stream matches Some(ceiling) ==> within(
                call.last_progress,
                now,
                ceiling,
            ),
        },
    }
}

/// Whether `now` is within an optional ceiling of `earlier`.
fn within_ceiling(earlier: Instant, now: Instant, ceiling: Option<Duration>) -> (answer: bool)
    ensures
        answer == (ceiling matches Some(span) ==> within(earlier, now, span)),
{
    match ceiling {
        Some(span) => now.saturating_duration_since(earlier).at_most(&span),
        None => true,
    }
}

impl ServeActivity {
    /// A record of a loop that has just started and is idle.
    pub fn new(now: Instant) -> (activity: Self)
        ensures
            activity@ == (ActivityView { last_tick: now, in_flight: None }),
    {
        ServeActivity { last_tick: now, in_flight: None }
    }

    /// The accept loop completed a turn (served a call or idled through an
    /// accept timeout).
    pub fn tick(&mut self, now: Instant)
        ensures
            final(self)@ == ticked(old(self)@, now),
    {
        self.last_tick = now;
    }

    /// A call is about to run on the serve thread.
    pub fn call_started(&mut self, kind: InFlight, now: Instant)
        ensures
            final(self)@ == started(old(self)@, kind, now),
    {
        self.in_flight = Some(InFlightState { kind, started_at: now, last_progress: now });
    }

    /// A streaming call made progress: it sent a reply, or ran its own
    /// keepalive turn with nothing to send.
    ///
    /// Changes nothing when nothing is in flight, so a daemon can stamp it
    /// unconditionally from a send path.
    pub fn progressed(&mut self, now: Instant)
        ensures
            final(self)@ == stamped(old(self)@, now),
    {
        if let Some(call) = self.in_flight {
            self.in_flight = Some(InFlightState { last_progress: now, ..call });
        }
    }

    /// The call returned (successfully or not).
    pub fn call_finished(&mut self, now: Instant)
        ensures
            final(self)@ == finished(old(self)@, now),
    {
        self.in_flight = None;
        self.last_tick = now;
    }

    /// Whether the accept loop counts as alive at `now`.
    pub fn is_alive(&self, now: Instant, liveness: &Liveness) -> (answer: bool)
        ensures
            answer == alive(self@, now, *liveness),
    {
        let call = match self.in_flight {
            Some(call) => call,
            None => {
                return within_ceiling(self.last_tick, now, liveness.idle_tick_ceiling);
            },
        };
        match call.kind {
            InFlight::Bounded => within_ceiling(
                call.started_at,
                now,
                Some(liveness.longest_bounded_call),
            ),
            InFlight::Streaming => within_ceiling(
                call.last_progress,
                now,
                liveness.longest_silent_stream,
            ),
        }
    }
}

/// A message for the service manager, and where to send it.
#[derive(Debug, PartialEq, Eq)]
pub struct Notification {
    /// The socket to send it to.
    pub target: NotifyTarget,
    /// What to send.
    pub message: &'static str,
}

/// Where the service manager listens.
#[derive(Debug, PartialEq, Eq)]
pub enum NotifyTarget {
    /// A socket in the file system, at this path.
    Path(String),
    /// A socket in the abstract namespace, under this name.
    Abstract(String),
}

/// Where a socket path points: nowhere when it is empty, into the abstract
/// namespace when it starts with `@`, and else into the file system.
pub open spec fn points_at(socket_path: Seq<char>, target: Option<NotifyTarget>) -> bool {
    if socket_path.len() == 0 {
        target is None
    } else if socket_path[0] == '@' {
        target matches Some(NotifyTarget::Abstract(name)) && name@ == socket_path.skip(1)
    } else {
        target matches Some(NotifyTarget::Path(path)) && path@ == socket_path
    }
}

/// Whether `notification` is what comes of a message under this
/// `$NOTIFY_SOCKET`: nothing where there is none.
pub open spec fn notifies(
    notify_socket: Option<&str>,
    message: Seq<char>,
    notification: Option<Notification>,
) -> bool {
    match notify_socket {
        None => notification is None,
        Some(socket_path) => match notification {
            None => points_at(socket_path@, None),
            Some(sent) => points_at(socket_path@, Some(sent.target)) && sent.message@ == message,
        },
    }
}

/// What to send once the daemon has finished startup and is serving, given
/// `$NOTIFY_SOCKET`.
pub fn notify_ready(notify_socket: Option<&str>) -> (notification: Option<Notification>)
    ensures
        notifies(notify_socket, "READY=1"@, notification),
{
    notify(notify_socket, "READY=1")
}

/// What to send to pet the watchdog, given `$NOTIFY_SOCKET`.
pub fn pet(notify_socket: Option<&str>) -> (notification: Option<Notification>)
    ensures
        notifies(notify_socket, "WATCHDOG=1"@, notification),
{
    notify(notify_socket, "WATCHDOG=1")
}

fn notify(notify_socket: Option<&str>, message: &'static str) -> (notification: Option<
    Notification,
>)
    ensures
        notifies(notify_socket, message@, notification),
{
    match notify_socket {
        None => None,
        Some(socket_path) => notify_to(socket_path, message),
    }
}

/// What comes of a message for an explicit socket path.
pub fn notify_to(socket_path: &str, message: &'static str) -> (notification: Option<Notification>)
    ensures
        match notification {
            None => points_at(socket_path@, None),
            Some(sent) => points_at(socket_path@, Some(sent.target)) && sent.message@ == message@,
        },
{
    let chars = chars_of(socket_path);
    if chars.len() == 0 {
        return None;
    }
    if chars[0] == '@' {
        let name = cut(chars.as_slice(), 1, chars.len());
        assert(name@ =~= socket_path@.skip(1));
        Some(
            Notification { target: NotifyTarget::Abstract(text_of(name.as_slice())), message },
        )
    } else {
        Some(Notification { target: NotifyTarget::Path(socket_path.to_owned()), message })
    }
}

/// The interval, in nanoseconds, that the service manager's settings ask for:
/// half of `$WATCHDOG_USEC`, unless that is missing, malformed or zero, or
/// `$WATCHDOG_PID` names another process.
pub open spec fn heartbeat(
    watchdog_usec: Option<&str>,
    watchdog_pid: Option<&str>,
    current_pid: u32,
) -> Option<nat> {
    if watchdog_pid matches Some(pid) && text::number(pid@, u32::MAX as nat) != Ok::<
        nat,
        text::NumberError,
    >(current_pid as nat) {
        None
    } else {
        match watchdog_usec {
            None => None,
            Some(usec) => match text::number(usec@, u64::MAX as nat) {
                Ok(n) => if n > 0 {
                    Some(n / 2 * 1_000)
                } else {
                    None
                },
                Err(_) => None,
            },
        }
    }
}

/// The interval at which the daemon should pet the watchdog, or `None` when no
/// watchdog is configured. The service manager exposes the full timeout; half
/// of it is the interval its own documentation recommends.
pub fn heartbeat_from(
    watchdog_usec: Option<&str>,
    watchdog_pid: Option<&str>,
    current_pid: u32,
) -> (interval: Option<Duration>)
    ensures
        match interval {
            Some(span) => heartbeat(watchdog_usec, watchdog_pid, current_pid) == Some(span@),
            None => heartbeat(watchdog_usec, watchdog_pid, current_pid) is None,
        },
{
    if let Some(pid) = watchdog_pid {
        let parsed = parse_number(chars_of(pid).as_slice(), u32::MAX as u64);
        match parsed {
            Ok(named) => {
                if named != current_pid as u64 {
                    return None;
                }
            },
            Err(_malformed) => {
                return None;
            },
        }
    }
    match watchdog_usec {
        None => None,
        Some(usec) => match parse_number(chars_of(usec).as_slice(), u64::MAX) {
            Ok(timeout) => if timeout > 0 {
                Some(Duration::from_micros(timeout / 2))
            } else {
                None
            },
            Err(_malformed) => None,
        },
    }
}

/// One turn of the heartbeat: the pet to send, if the loop counts as alive.
///
/// `activity` is `None` where the record could not be read because whoever
/// kept it panicked mid-update; then there is no pet, and the service manager
/// restarts the daemon.
pub fn heartbeat_turn(
    activity: Option<&ServeActivity>,
    now: Instant,
    liveness: &Liveness,
    notify_socket: Option<&str>,
) -> (notification: Option<Notification>)
    ensures
        if activity matches Some(record) && alive(record@, now, *liveness) {
            notifies(notify_socket, "WATCHDOG=1"@, notification)
        } else {
            notification is None
        },
{
    match activity {
        Some(record) => if record.is_alive(now, liveness) {
            pet(notify_socket)
        } else {
            None
        },
        None => None,
    }
}

/// A loop that just turned, just began a call or just finished one is alive,
/// under whatever ceilings.
pub proof fn a_fresh_stamp_is_alive(
    activity: ActivityView,
    kind: InFlight,
    now: Instant,
    liveness: Liveness,
)
    ensures
        activity.in_flight is None ==> alive(ticked(activity, now), now, liveness),
        alive(started(activity, kind, now), now, liveness),
        alive(finished(activity, now), now, liveness),
{
}

/// A call that returned leaves no trace: the loop is judged as one that turned
/// at that moment, whatever the call was.
pub proof fn a_finished_call_returns_to_idle(
    activity: ActivityView,
    kind: InFlight,
    began: Instant,
    returned: Instant,
    now: Instant,
    liveness: Liveness,
)
    requires
        activity.in_flight is None,
    ensures
        finished(started(activity, kind, began), returned) == ticked(activity, returned),
        alive(finished(started(activity, kind, began), returned), now, liveness) <==> (
        liveness.idle_tick_ceiling matches Some(ceiling) ==> time::elapsed(returned, now)
            <= ceiling@),
{
}

/// An idle loop that is not expected to turn is alive, however long it idles.
pub proof fn an_unwatched_idle_loop_is_trusted(
    activity: ActivityView,
    now: Instant,
    liveness: Liveness,
)
    requires
        activity.in_flight is None,
        liveness.idle_tick_ceiling is None,
    ensures
        alive(activity, now, liveness),
{
}

/// A bounded call is busy exactly as long as it is within its ceiling, no
/// matter how long ago the loop turned or the call showed progress.
pub proof fn a_bounded_call_is_judged_by_its_duration(
    activity: ActivityView,
    call: InFlightState,
    now: Instant,
    liveness: Liveness,
)
    requires
        activity.in_flight == Some(call),
        call.kind is Bounded,
    ensures
        alive(activity, now, liveness) <==> time::elapsed(call.started_at, now)
            <= liveness.longest_bounded_call@,
{
}

/// Progress does not extend a bounded call: it is as alive after stamping as
/// it was before. Nor does it revive an idle loop.
pub proof fn progress_does_not_extend_a_bounded_call(
    activity: ActivityView,
    at: Instant,
    now: Instant,
    liveness: Liveness,
)
    requires
        activity.in_flight matches Some(call) ==> call.kind is Bounded,
    ensures
        alive(stamped(activity, at), now, liveness) == alive(activity, now, liveness),
{
}

/// An open stream is never a wedge, unless a ceiling on its silence was set.
pub proof fn an_open_stream_is_not_a_wedge(
    activity: ActivityView,
    call: InFlightState,
    now: Instant,
    liveness: Liveness,
)
    requires
        activity.in_flight == Some(call),
        call.kind is Streaming,
        liveness.longest_silent_stream is None,
    ensures
        alive(activity, now, liveness),
{
}

/// A stream under a ceiling on its silence is alive for that long after each
/// stamp and no longer, however old the stream is.
pub proof fn progress_keeps_a_stream_alive(
    activity: ActivityView,
    call: InFlightState,
    at: Instant,
    now: Instant,
    liveness: Liveness,
    ceiling: Duration,
)
    requires
        activity.in_flight == Some(call),
        call.kind is Streaming,
        liveness.longest_silent_stream == Some(ceiling),
    ensures
        alive(stamped(activity, at), now, liveness) <==> time::elapsed(at, now) <= ceiling@,
{
}

/// A loop that nothing is recorded of for a while does not come back to life:
/// once wedged, wedged at every later time.
pub proof fn wedged_stays_wedged(
    activity: ActivityView,
    now: Instant,
    later: Instant,
    liveness: Liveness,
)
    requires
        !alive(activity, now, liveness),
        later@ >= now@,
    ensures
        !alive(activity, later, liveness),
{
}

/// The heartbeat asks for at least two pets in every timeout that lasts two
/// microseconds or longer.
pub proof fn heartbeat_is_half_the_timeout(
    watchdog_usec: &str,
    watchdog_pid: Option<&str>,
    current_pid: u32,
)
    ensures
        heartbeat(Some(watchdog_usec), watchdog_pid, current_pid) matches Some(interval) ==> (
        text::number(watchdog_usec@, u64::MAX as nat) matches Ok(timeout) && timeout > 0 && interval
            * 2 <= timeout * 1_000 < (interval + 1_000) * 2),
{
}

/// Three intervals of a heartbeat are never too long a span.
pub proof fn three_heartbeats_are_a_span(
    watchdog_usec: Option<&str>,
    watchdog_pid: Option<&str>,
    current_pid: u32,
)
    ensures
        heartbeat(watchdog_usec, watchdog_pid, current_pid) matches Some(interval) ==> interval * 3
            <= time::longest(),
{
    if let Some(usec) = watchdog_usec {
        text::number_within(usec@, u64::MAX as nat);
    }
}

/// A watchdog aimed at another process is not this one's to pet.
pub proof fn a_watchdog_for_another_pid_is_ignored(
    watchdog_usec: Option<&str>,
    watchdog_pid: &str,
    current_pid: u32,
)
    requires
        text::number(watchdog_pid@, u32::MAX as nat) != Ok::<nat, text::NumberError>(
            current_pid as nat,
        ),
    ensures
        heartbeat(watchdog_usec, Some(watchdog_pid), current_pid) is None,
{
}

/// A call that began is on record with the shape it was declared with and from
/// the time it began, whatever the loop did before, and the loop's last turn
/// stays on record beside it.
pub proof fn a_call_is_recorded_as_it_was_declared(
    activity: ActivityView,
    kind: InFlight,
    at: Instant,
)
    ensures
        started(activity, kind, at).in_flight matches Some(call) && call.kind == kind
            && call.started_at == at && call.last_progress == at,
        started(activity, kind, at).last_tick == activity.last_tick,
{
}

/// A bounded call that began counts as alive for as long as its ceiling allows
/// and no longer, whatever was on record before it, however often the loop
/// turned or the call showed progress since.
pub proof fn a_bounded_call_is_alive_for_its_ceiling(
    activity: ActivityView,
    at: Instant,
    turned: Instant,
    progressed: Instant,
    now: Instant,
    liveness: Liveness,
)
    ensures
        ({
            let began = started(activity, InFlight::Bounded, at);
            let in_time = time::elapsed(at, now) <= liveness.longest_bounded_call@;
            &&& alive(began, now, liveness) <==> in_time
            &&& alive(ticked(began, turned), now, liveness) <==> in_time
            &&& alive(stamped(began, progressed), now, liveness) <==> in_time
        }),
{
}

/// A stream that began is trusted for as long as it is open, or for as long as
/// its silence may last, from its beginning and then from its last progress.
pub proof fn a_stream_is_alive_for_its_silence(
    activity: ActivityView,
    at: Instant,
    turned: Instant,
    progressed: Instant,
    now: Instant,
    liveness: Liveness,
)
    ensures
        ({
            let began = started(activity, InFlight::Streaming, at);
            let moved = stamped(ticked(began, turned), progressed);
            match liveness.longest_silent_stream {
                None => alive(began, now, liveness) && alive(moved, now, liveness),
                Some(ceiling) => {
                    &&& alive(began, now, liveness) <==> time::elapsed(at, now) <= ceiling@
                    &&& alive(moved, now, liveness) <==> time::elapsed(progressed, now) <= ceiling@
                },
            }
        }),
{
}

/// An idle loop counts as alive for as long as a turn of it may be in coming,
/// counted from its last turn or from the return of its last call.
pub proof fn an_idle_loop_is_alive_for_its_ceiling(
    activity: ActivityView,
    at: Instant,
    now: Instant,
    liveness: Liveness,
    ceiling: Duration,
)
    requires
        liveness.idle_tick_ceiling == Some(ceiling),
    ensures
        activity.in_flight is None ==> (alive(activity, now, liveness) <==> time::elapsed(
            activity.last_tick,
            now,
        ) <= ceiling@),
        activity.in_flight is None ==> (alive(ticked(activity, at), now, liveness)
            <==> time::elapsed(at, now) <= ceiling@),
        alive(finished(activity, at), now, liveness) <==> time::elapsed(at, now) <= ceiling@,
{
}

/// A turn moves the time of the last turn and touches no call. Progress moves
/// the time of the last progress of a call in flight and nothing else. A
/// return takes the call off the record and counts as a turn.
pub proof fn each_stamp_moves_what_it_is_for(activity: ActivityView, now: Instant)
    ensures
        ticked(activity, now).last_tick == now,
        ticked(activity, now).in_flight == activity.in_flight,
        stamped(activity, now).last_tick == activity.last_tick,
        activity.in_flight is None ==> stamped(activity, now).in_flight is None,
        activity.in_flight matches Some(call) ==> (stamped(activity, now).in_flight matches Some(
            moved,
        ) && moved.kind == call.kind && moved.started_at == call.started_at && moved.last_progress
            == now),
        finished(activity, now).last_tick == now,
        finished(activity, now).in_flight is None,
{
}

/// A ceiling is kept to the nanosecond.
pub proof fn a_ceiling_is_kept_exactly(earlier: Instant, now: Instant, ceiling: Duration)
    ensures
        within(earlier, now, ceiling) <==> now@ <= earlier@ + ceiling@,
{
}

/// A watchdog that is this process's is honoured: where `$WATCHDOG_PID` is
/// missing or reads as the current pid, and `$WATCHDOG_USEC` reads as a number
/// above zero, there is an interval, and it is half of that many microseconds,
/// rounded down.
pub proof fn a_watchdog_for_this_process_is_honoured(
    watchdog_usec: &str,
    watchdog_pid: Option<&str>,
    current_pid: u32,
    timeout: nat,
)
    requires
        watchdog_pid matches Some(pid) ==> text::number(pid@, u32::MAX as nat) == Ok::<
            nat,
            text::NumberError,
        >(current_pid as nat),
        text::number(watchdog_usec@, u64::MAX as nat) == Ok::<nat, text::NumberError>(timeout),
        timeout > 0,
    ensures
        heartbeat(Some(watchdog_usec), watchdog_pid, current_pid) matches Some(interval) && interval
            % 1_000 == 0 && interval / 1_000 * 2 <= timeout < (interval / 1_000 + 1) * 2,
{
}

/// Without a timeout, or with one that is zero or no number, there is no
/// watchdog to pet.
pub proof fn no_timeout_is_no_watchdog(
    watchdog_usec: &str,
    watchdog_pid: Option<&str>,
    current_pid: u32,
)
    ensures
        heartbeat(None, watchdog_pid, current_pid) is None,
        text::number(watchdog_usec@, u64::MAX as nat) is Err ==> heartbeat(
            Some(watchdog_usec),
            watchdog_pid,
            current_pid,
        ) is None,
        text::number(watchdog_usec@, u64::MAX as nat) == Ok::<nat, text::NumberError>(0)
            ==> heartbeat(Some(watchdog_usec), watchdog_pid, current_pid) is None,
{
}

/// A message goes to the socket that is named: into the file system under the
/// path as it is, into the abstract namespace under what follows the `@`, and
/// nowhere where no name is given.
pub proof fn a_message_goes_where_it_is_sent(
    notify_socket: Option<&str>,
    message: Seq<char>,
    notification: Option<Notification>,
)
    requires
        notifies(notify_socket, message, notification),
    ensures
        notification is Some <==> notify_socket is Some && notify_socket->0@.len() > 0,
        notification matches Some(sent) ==> {
            let named = notify_socket->0@;
            &&& sent.message@ == message
            &&& named[0] == '@' ==> (sent.target matches NotifyTarget::Abstract(name)
                && seq!['@'] + name@ == named)
            &&& named[0] != '@' ==> (sent.target matches NotifyTarget::Path(path) && path@
                == named)
        },
{
    if let Some(sent) = notification {
        let named = notify_socket->0@;
        if named[0] == '@' {
            assert(seq!['@'] + named.skip(1) =~= named);
        }
    }
}

/// A record is judged as it was kept: a loop that just started is idle, and
/// what counts as alive is what the record says under the ceilings that were
/// set.
pub proof fn a_new_record_is_idle(
    began: Instant,
    activity: ServeActivity,
    now: Instant,
    ceiling: Duration,
    base: Liveness,
    liveness: Liveness,
    answer: bool,
    trusted: bool,
)
    requires
        call_ensures(ServeActivity::new, (began,), activity),
        call_ensures(Liveness::new, (), base),
        call_ensures(Liveness::with_idle_tick_ceiling, (base, ceiling), liveness),
        call_ensures(ServeActivity::is_alive, (&activity, now, &liveness), answer),
        call_ensures(ServeActivity::is_alive, (&activity, now, &base), trusted),
    ensures
        answer <==> now@ <= began@ + ceiling@,
        trusted,
{
}

/// Each ceiling is set by itself and leaves the others as they are; unless they
/// are set, a bounded call has ten minutes and nothing else is bounded.
pub proof fn ceilings_are_set_one_by_one(
    base: Liveness,
    ceiling: Duration,
    idle: Liveness,
    bounded: Liveness,
    silent: Liveness,
)
    requires
        call_ensures(Liveness::new, (), base),
        call_ensures(Liveness::with_idle_tick_ceiling, (base, ceiling), idle),
        call_ensures(Liveness::with_longest_bounded_call, (idle, ceiling), bounded),
        call_ensures(Liveness::with_silent_stream_ceiling, (bounded, ceiling), silent),
    ensures
        base.idle_tick_ceiling is None,
        base.longest_bounded_call@ == 600_000_000_000,
        base.longest_silent_stream is None,
        idle.idle_tick_ceiling == Some(ceiling),
        idle.longest_bounded_call == base.longest_bounded_call,
        idle.longest_silent_stream is None,
        bounded.idle_tick_ceiling == Some(ceiling),
        bounded.longest_bounded_call == ceiling,
        bounded.longest_silent_stream is None,
        silent.idle_tick_ceiling == Some(ceiling),
        silent.longest_bounded_call == ceiling,
        silent.longest_silent_stream == Some(ceiling),
{
}

/// The settings of the service manager are read to the letter: a timeout for
/// this process is halved, and anything else is no watchdog.
pub proof fn a_heartbeat_is_read_from_the_settings(
    timeout: u64,
    usec: &str,
    pid: &str,
    current_pid: u32,
    interval: Option<Duration>,
    anyones: Option<Duration>,
    none: Option<Duration>,
)
    requires
        usec@ == text::decimal(timeout as nat),
        pid@ == text::decimal(current_pid as nat),
        call_ensures(heartbeat_from, (Some(usec), Some(pid), current_pid), interval),
        call_ensures(heartbeat_from, (Some(usec), None, current_pid), anyones),
        call_ensures(heartbeat_from, (None, Some(pid), current_pid), none),
    ensures
        timeout > 0 ==> (interval matches Some(span) && span@ == timeout / 2 * 1_000),
        timeout > 0 ==> (anyones matches Some(span) && span@ == timeout / 2 * 1_000),
        timeout == 0 ==> interval is None && anyones is None,
        none is None,
{
    text::decimal_reads_back(timeout as nat, u64::MAX as nat);
    text::decimal_reads_back(current_pid as nat, u32::MAX as nat);
}

/// A pet is sent exactly while the loop counts as alive and there is somewhere
/// to send it, and it says `WATCHDOG=1`; readiness says `READY=1`.
pub proof fn a_pet_is_sent_while_the_loop_is_alive(
    activity: ServeActivity,
    now: Instant,
    liveness: Liveness,
    socket_path: &str,
    alive_now: bool,
    pet: Option<Notification>,
    unread: Option<Notification>,
    ready: Option<Notification>,
)
    requires
        socket_path@.len() > 0,
        call_ensures(ServeActivity::is_alive, (&activity, now, &liveness), alive_now),
        call_ensures(heartbeat_turn, (Some(&activity), now, &liveness, Some(socket_path)), pet),
        call_ensures(heartbeat_turn, (None, now, &liveness, Some(socket_path)), unread),
        call_ensures(notify_ready, (Some(socket_path),), ready),
    ensures
        pet is Some <==> alive_now,
        pet matches Some(sent) ==> sent.message@ == "WATCHDOG=1"@,
        unread is None,
        ready matches Some(sent) && sent.message@ == "READY=1"@,
{
}

}
