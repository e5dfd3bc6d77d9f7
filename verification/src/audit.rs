//! An audit trail for the calls this daemon runs.
//!
//! Every state-changing call is announced before it runs and reported when it
//! finishes: two lines per operation, no lines at all for reads. Front-ends
//! poll, and logging reads would evict the operations worth keeping.
//! [`Authorization::Policy`] is the contract's own statement of "this changes
//! something", so the trail and the policy gate cannot drift apart.
//!
//! Nothing of a request's payload reaches a line. A line is made of the call,
//! the action id and the caller.
use crate::call::{self, Authorization, Call};
use crate::caller::{self, Caller};
use crate::service::{Route, WireError};
use crate::text::{self, bounded_line, decimal_text};
use crate::time::{self, Instant};
use vstd::prelude::*;
use vstd::string::StringExecFns;

verus! {

/// How much of a service-supplied failure body reaches the journal.
pub const MAX_FAILURE_CHARS: usize = 256;

/// `<what> action=<id> by=<caller>`.
pub open spec fn label(
    what: Seq<char>,
    action: Seq<char>,
    caller: Caller,
    account: Option<Seq<char>>,
) -> Seq<char> {
    what + " action="@ + action + " by="@ + caller::caller_text(caller, account)
}

/// The operation, the policy it was gated by, and who asked for it.
///
/// The API path rather than the contract's internal method name: it is what
/// the client sent and what an operator greps for. `by=` is always present,
/// including when the caller could not be read.
pub fn describe(route: Route, action: &str, caller: &Caller, account: Option<&str>) -> (line:
    String)
    ensures
        line@ == label(route.api_path@, action@, *caller, text::slice_text(account)),
{
    labelled(route.api_path, action, caller, account)
}

fn labelled(what: &str, action: &str, caller: &Caller, account: Option<&str>) -> (line: String)
    ensures
        line@ == label(what@, action@, *caller, text::slice_text(account)),
{
    let mut line = what.to_owned();
    line.append(" action=");
    line.append(action);
    line.append(" by=");
    line.append(caller.describe(account).as_str());
    line
}

/// What is kept of a failure's own words.
pub open spec fn kept(failure: Seq<char>) -> Seq<char> {
    text::bounded(failure, MAX_FAILURE_CHARS as nat)
}

/// Bound and flatten a string the service produced. It can be long, and it can
/// contain a line break, which is all it takes to forge an extra audit line.
pub fn bound(value: &str) -> (line: String)
    ensures
        line@ == kept(value@),
{
    bounded_line(value, MAX_FAILURE_CHARS)
}

/// An operation that is to be announced. One for a call that changes nothing
/// says nothing.
#[derive(Debug)]
pub struct Announcement {
    service: &'static str,
    label: Option<String>,
}

/// What an operation that is to be announced goes by in the trail.
pub struct AnnouncementView {
    /// Whose trail it is.
    pub service: Seq<char>,
    /// The label of an audited operation.
    pub label: Option<Seq<char>>,
}

impl View for Announcement {
    type V = AnnouncementView;

    closed spec fn view(&self) -> AnnouncementView {
        AnnouncementView { service: self.service@, label: text::text_in(self.label) }
    }
}

/// An operation in flight. It was announced, and says what to report when it
/// is finished.
#[derive(Debug)]
pub struct Operation {
    service: &'static str,
    label: Option<String>,
    started: Instant,
}

/// What an operation goes by in the trail.
pub struct OperationView {
    /// Whose trail it is.
    pub service: Seq<char>,
    /// The label of an audited operation.
    pub label: Option<Seq<char>>,
    /// When it began: once its announcement had been written.
    pub started: Instant,
}

impl View for Operation {
    type V = OperationView;

    closed spec fn view(&self) -> OperationView {
        OperationView {
            service: self.service@,
            label: text::text_in(self.label),
            started: self.started,
        }
    }
}

/// The line that announces an operation, where it is audited.
pub open spec fn begin_line(announcement: AnnouncementView) -> Option<Seq<char>> {
    match announcement.label {
        Some(label) => Some(announcement.service + ": audit: begin "@ + label),
        None => None,
    }
}

/// The line that reports how an operation ended, where it is audited.
pub open spec fn end_line(
    operation: OperationView,
    failure: Option<Seq<char>>,
    now: Instant,
) -> Option<Seq<char>> {
    match operation.label {
        Some(label) => {
            let millis = text::decimal(time::elapsed(operation.started, now) / 1_000_000);
            Some(
                match failure {
                    None => operation.service + ": audit: ok "@ + label + " ("@ + millis + "ms)"@,
                    Some(words) => operation.service + ": audit: failed "@ + label + " ("@ + millis
                        + "ms): "@ + words,
                },
            )
        },
        None => None,
    }
}

/// What is to be announced of a call to a route: nothing of one that changes
/// nothing.
pub open spec fn route_announcement(
    service: Seq<char>,
    route: Route,
    caller: Caller,
    account: Option<Seq<char>>,
) -> Option<AnnouncementView> {
    match call::action_of(route.authorization) {
        Some(action) => Some(
            AnnouncementView {
                service,
                label: Some(label(route.api_path@, action, caller, account)),
            },
        ),
        None => None,
    }
}

/// What is to be announced of a call: a silent announcement for one that
/// changes nothing.
pub open spec fn call_announcement(
    service: Seq<char>,
    call: Call,
    caller: Caller,
    account: Option<Seq<char>>,
) -> AnnouncementView {
    AnnouncementView {
        service,
        label: match call::action_of(call.authorization) {
            Some(action) => Some(label(call::call_name(call), action, caller, account)),
            None => None,
        },
    }
}

/// The operation that an announcement was about, once it had been written.
pub open spec fn started(announcement: AnnouncementView, now: Instant) -> OperationView {
    OperationView { service: announcement.service, label: announcement.label, started: now }
}

/// The operation, if there is one, that an announcement was about.
pub open spec fn started_in(
    announcement: Option<AnnouncementView>,
    now: Instant,
) -> Option<OperationView> {
    match announcement {
        Some(announcement) => Some(started(announcement, now)),
        None => None,
    }
}

/// What an announcement that there may be goes by in the trail.
pub open spec fn announced(announcement: Option<Announcement>) -> Option<AnnouncementView> {
    match announcement {
        Some(announcement) => Some(announcement@),
        None => None,
    }
}

/// What an operation that there may be goes by in the trail.
pub open spec fn view_of(operation: Option<Operation>) -> Option<OperationView> {
    match operation {
        Some(operation) => Some(operation@),
        None => None,
    }
}

/// How a wire failure is put in the trail.
pub open spec fn failure_text(failure: WireError) -> Seq<char> {
    "status="@ + text::decimal(failure.status as nat) + " "@ + kept(failure.body@)
}

impl Announcement {
    /// The line to write before the call runs, if the call is audited.
    pub fn line(&self) -> (line: Option<String>)
        ensures
            text::text_in(line) == begin_line(self@),
    {
        match &self.label {
            Some(label) => {
                let mut line = self.service.to_owned();
                line.append(": audit: begin ");
                line.append(label.as_str());
                Some(line)
            },
            None => None,
        }
    }

    /// The operation, now that its line has been written. Its time counts from
    /// here, so that what it took to write the line is no part of it.
    pub fn written(self, now: Instant) -> (operation: Operation)
        ensures
            operation@ == started(self@, now),
    {
        Operation { service: self.service, label: self.label, started: now }
    }
}

impl Operation {
    /// Begin auditing `route` if it changes something; `None` for a read. The
    /// operation is in flight once the announcement was
    /// [written](Announcement::written).
    pub fn begin(
        service: &'static str,
        route: Route,
        caller: &Caller,
        account: Option<&str>,
    ) -> (announcement: Option<Announcement>)
        ensures
            announced(announcement) == route_announcement(
                service@,
                route,
                *caller,
                text::slice_text(account),
            ),
    {
        match route.authorization {
            Authorization::Policy(action) => {
                let line = describe(route, action, caller, account);
                Some(Announcement { service, label: Some(line) })
            },
            Authorization::Unprivileged => None,
        }
    }

    /// Begin auditing `call`. An unprivileged call gets an announcement too, a
    /// silent one, so that a dispatch site needs no `if`.
    pub fn begin_call(
        service: &'static str,
        call: Call,
        caller: &Caller,
        account: Option<&str>,
    ) -> (announcement: Announcement)
        ensures
            announcement@ == call_announcement(service@, call, *caller, text::slice_text(account)),
    {
        let line = match call.authorization {
            Authorization::Policy(action) => Some(
                labelled(call.to_string().as_str(), action, caller, account),
            ),
            Authorization::Unprivileged => None,
        };
        Announcement { service, label: line }
    }

    /// The line to write once the call has returned, if it is audited. Given
    /// for both outcomes, so a failed operation is as visible as a successful
    /// one.
    pub fn finish(self, error: Option<&WireError>, now: Instant) -> (line: Option<String>)
        ensures
            text::text_in(line) == end_line(
                self@,
                match error {
                    Some(failure) => Some(failure_text(*failure)),
                    None => None,
                },
                now,
            ),
    {
        match error {
            None => self.report(None, now),
            Some(failure) => {
                let mut words = "status=".to_owned();
                words.append(decimal_text(failure.status as u128).as_str());
                words.append(" ");
                words.append(bound(failure.body.as_str()).as_str());
                self.report(Some(words.as_str()), now)
            },
        }
    }

    /// The line to write once a call has returned whose failure is given in
    /// words.
    pub fn finish_call(self, error: Option<&str>, now: Instant) -> (line: Option<String>)
        ensures
            text::text_in(line) == end_line(
                self@,
                match error {
                    Some(words) => Some(kept(words@)),
                    None => None,
                },
                now,
            ),
    {
        match error {
            None => self.report(None, now),
            Some(words) => {
                let words = bound(words);
                self.report(Some(words.as_str()), now)
            },
        }
    }

    fn report(self, failure: Option<&str>, now: Instant) -> (line: Option<String>)
        ensures
            text::text_in(line) == end_line(self@, text::slice_text(failure), now),
    {
        match self.label {
            Some(label) => {
                let millis = decimal_text(now.saturating_duration_since(self.started).as_millis());
                let mut line = self.service.to_owned();
                match failure {
                    None => {
                        line.append(": audit: ok ");
                        line.append(label.as_str());
                        line.append(" (");
                        line.append(millis.as_str());
                        line.append("ms)");
                    },
                    Some(words) => {
                        line.append(": audit: failed ");
                        line.append(label.as_str());
                        line.append(" (");
                        line.append(millis.as_str());
                        line.append("ms): ");
                        line.append(words);
                    },
                }
                Some(line)
            },
            None => None,
        }
    }
}

/// A call is audited exactly when it is gated, so the trail and the policy
/// cannot drift apart.
pub proof fn audited_exactly_when_gated(
    service: Seq<char>,
    route: Route,
    call: Call,
    caller: Caller,
    account: Option<Seq<char>>,
)
    ensures
        route_announcement(service, route, caller, account) is Some
            <==> route.authorization is Policy,
        call_announcement(service, call, caller, account).label is Some
            <==> call.authorization is Policy,
        begin_line(call_announcement(service, call, caller, account)) is Some
            <==> call.authorization is Policy,
{
}

/// An operation is audited twice or not at all, and its label says which.
pub proof fn two_lines_or_none(
    announcement: AnnouncementView,
    written: Instant,
    failure: Option<Seq<char>>,
    now: Instant,
)
    ensures
        begin_line(announcement) is Some <==> announcement.label is Some,
        end_line(started(announcement, written), failure, now) is Some
            <==> announcement.label is Some,
{
}

/// Whatever a service says of its failure, what the trail keeps of it is one
/// line of at most [`MAX_FAILURE_CHARS`] characters.
pub proof fn failure_is_one_short_line(words: Seq<char>)
    ensures
        text::one_line(kept(words)),
        kept(words).len() <= MAX_FAILURE_CHARS,
{
    text::bounded_is_one_short_line(words, MAX_FAILURE_CHARS as nat);
}

/// A label stands on one line, as long as what it is made of does.
pub proof fn label_is_one_line(
    what: Seq<char>,
    action: Seq<char>,
    caller: Caller,
    account: Option<Seq<char>>,
)
    requires
        text::one_line(what),
        text::one_line(action),
        account matches Some(name) ==> text::one_line(name),
        caller matches Caller::Unreadable(reason) ==> text::one_line(reason@),
    ensures
        text::one_line(label(what, action, caller, account)),
{
    reveal_strlit(" action=");
    reveal_strlit(" by=");
    caller::caller_is_one_line(caller, account);
}

/// No operation takes more than one line to announce or to report, whatever
/// its service answered: a failure body cannot forge a line of the trail.
pub proof fn audit_line_cannot_be_forged(
    announcement: AnnouncementView,
    written: Instant,
    failure: Option<WireError>,
    words: Option<Seq<char>>,
    now: Instant,
)
    requires
        text::one_line(announcement.service),
        announcement.label matches Some(label) ==> text::one_line(label),
    ensures
        begin_line(announcement) matches Some(line) ==> text::one_line(line),
        end_line(
            started(announcement, written),
            match failure {
                Some(failure) => Some(failure_text(failure)),
                None => None,
            },
            now,
        ) matches Some(line) ==> text::one_line(line),
        end_line(
            started(announcement, written),
            match words {
                Some(words) => Some(kept(words)),
                None => None,
            },
            now,
        ) matches Some(line) ==> text::one_line(line),
{
    reveal_strlit(": audit: begin ");
    reveal_strlit(": audit: ok ");
    reveal_strlit(": audit: failed ");
    reveal_strlit(" (");
    reveal_strlit("ms)");
    reveal_strlit("ms): ");
    reveal_strlit("status=");
    reveal_strlit(" ");
    text::decimal_is_digits(time::elapsed(written, now) / 1_000_000);
    if let Some(failure) = failure {
        text::decimal_is_digits(failure.status as nat);
        failure_is_one_short_line(failure.body@);
    }
    if let Some(words) = words {
        failure_is_one_short_line(words);
    }
}

/// A label says what was called, under which action and by whom, in this order
/// and whoever it was.
pub proof fn a_label_names_the_call_the_action_and_the_caller(
    what: Seq<char>,
    action: Seq<char>,
    caller: Caller,
    account: Option<Seq<char>>,
)
    ensures
        label(what, action, caller, account) == what + (" action="@ + (action + (" by="@
            + caller::caller_text(caller, account)))),
{
    assert(label(what, action, caller, account) =~= what + (" action="@ + (action + (" by="@
        + caller::caller_text(caller, account)))));
}

/// A gated call is announced under its own service, path or name, action and
/// caller, and a call that changes nothing is not announced.
pub proof fn a_gated_call_is_announced_by_its_label(
    service: Seq<char>,
    route: Route,
    call: Call,
    caller: Caller,
    account: Option<Seq<char>>,
    action: &'static str,
)
    ensures
        route.authorization == Authorization::Policy(action) ==> route_announcement(
            service,
            route,
            caller,
            account,
        ) == Some(
            AnnouncementView {
                service,
                label: Some(label(route.api_path@, action@, caller, account)),
            },
        ),
        route.authorization is Unprivileged ==> route_announcement(
            service,
            route,
            caller,
            account,
        ) is None,
        call_announcement(service, call, caller, account).service == service,
        call.authorization == Authorization::Policy(action) ==> call_announcement(
            service,
            call,
            caller,
            account,
        ).label == Some(label(call.object@ + "."@ + call.method@, action@, caller, account)),
        call.authorization is Unprivileged ==> call_announcement(
            service,
            call,
            caller,
            account,
        ).label is None,
{
}

/// An operation goes by what was announced of it, and counts from the time at
/// which the announcement was written.
pub proof fn an_operation_goes_by_its_announcement(
    announcement: AnnouncementView,
    given: Announcement,
    operation: Operation,
    now: Instant,
)
    ensures
        started(announcement, now).service == announcement.service,
        started(announcement, now).label == announcement.label,
        started(announcement, now).started == now,
        started_in(Some(announcement), now) == Some(started(announcement, now)),
        started_in(None, now) is None,
        announced(Some(given)) == Some(given@),
        announced(None) is None,
        view_of(Some(operation)) == Some(operation@),
        view_of(None) is None,
{
}

/// An announcement is the service's own line, and it says `begin` and the
/// label.
pub proof fn an_announcement_says_what_begins(announcement: AnnouncementView, label: Seq<char>)
    ensures
        announcement.label == Some(label) ==> begin_line(announcement) == Some(
            announcement.service + ": audit: begin "@ + label,
        ),
        announcement.label is None ==> begin_line(announcement) is None,
{
}

/// Whoever made a call and however long it took, the report says how it ended:
/// `failed`, with the failure's words at the end of the line, or `ok`, with
/// nothing after the time. The time is that from the announcement to the end,
/// in whole milliseconds.
pub proof fn a_report_says_how_it_ended(
    operation: OperationView,
    label: Seq<char>,
    words: Seq<char>,
    now: Instant,
    millis: nat,
)
    requires
        operation.label == Some(label),
        millis * 1_000_000 <= time::elapsed(operation.started, now) < (millis + 1) * 1_000_000,
    ensures
        end_line(operation, Some(words), now) == Some(
            operation.service + ": audit: failed "@ + label + " ("@ + text::decimal(millis)
                + "ms): "@ + words,
        ),
        end_line(operation, None, now) == Some(
            operation.service + ": audit: ok "@ + label + " ("@ + text::decimal(millis) + "ms)"@,
        ),
{
    assert(time::elapsed(operation.started, now) / 1_000_000 == millis);
}

/// A failure and a success of one operation never give the same line, whatever
/// the failure's words are and whenever each was reported.
pub proof fn a_failure_never_reads_as_a_success(
    operation: OperationView,
    words: Seq<char>,
    failed: Instant,
    succeeded: Instant,
)
    requires
        operation.label is Some,
    ensures
        end_line(operation, Some(words), failed) != end_line(operation, None, succeeded),
{
    reveal_strlit(": audit: failed ");
    reveal_strlit(": audit: ok ");
    let at: int = operation.service.len() + 9int;
    let bad = end_line(operation, Some(words), failed)->0;
    let good = end_line(operation, None, succeeded)->0;
    assert(bad[at] == 'f');
    assert(good[at] == 'o');
}

/// No announcement reads as a report of the same operation.
pub proof fn a_beginning_never_reads_as_an_end(
    announcement: AnnouncementView,
    written: Instant,
    failure: Option<Seq<char>>,
    now: Instant,
)
    requires
        announcement.label is Some,
    ensures
        begin_line(announcement) != end_line(started(announcement, written), failure, now),
{
    reveal_strlit(": audit: begin ");
    reveal_strlit(": audit: failed ");
    reveal_strlit(": audit: ok ");
    let at: int = announcement.service.len() + 9int;
    let begins = begin_line(announcement)->0;
    let ends = end_line(started(announcement, written), failure, now)->0;
    assert(begins[at] == 'b');
    assert(ends[at] == 'f' || ends[at] == 'o');
}

/// A wire failure is put by its status and as much of its body as fits on one
/// short line; other words are cut the same way.
pub proof fn a_failure_is_put_by_its_status_and_its_words(failure: WireError, words: Seq<char>)
    ensures
        failure_text(failure) == "status="@ + text::decimal(failure.status as nat) + " "@
            + text::bounded(failure.body@, 256),
        kept(words) == text::bounded(words, 256),
{
}

/// A gated call is on the trail twice, under one label: what was announced of
/// it is what is reported, as failed with its status and its words or as done,
/// and with the time from the one to the other.
pub proof fn a_call_is_announced_and_reported_alike(
    service: &'static str,
    route: Route,
    action: &'static str,
    caller: Caller,
    name: &str,
    announcement: Announcement,
    line: Option<String>,
    written: Instant,
    operation: Operation,
    failure: WireError,
    now: Instant,
    millis: nat,
    failed: Option<String>,
    done: Option<String>,
)
    requires
        route.authorization == Authorization::Policy(action),
        call_ensures(
            Operation::begin,
            (service, route, &caller, Some(name)),
            Some(announcement),
        ),
        call_ensures(Announcement::line, (&announcement,), line),
        call_ensures(Announcement::written, (announcement, written), operation),
        millis * 1_000_000 <= time::elapsed(written, now) < (millis + 1) * 1_000_000,
        call_ensures(Operation::finish, (operation, Some(&failure), now), failed),
        call_ensures(Operation::finish, (operation, None, now), done),
    ensures
        ({
            let label = route.api_path@ + " action="@ + action@ + " by="@ + caller::caller_text(
                caller,
                Some(name@),
            );
            &&& line matches Some(begun) && begun@ == service@ + ": audit: begin "@ + label
            &&& failed matches Some(report) && report@ == service@ + ": audit: failed "@ + label
                + " ("@ + text::decimal(millis) + "ms): "@ + ("status="@ + text::decimal(
                failure.status as nat,
            ) + " "@ + text::bounded(failure.body@, 256))
            &&& done matches Some(report) && report@ == service@ + ": audit: ok "@ + label + " ("@
                + text::decimal(millis) + "ms)"@
        }),
{
    assert(time::elapsed(operation@.started, now) / 1_000_000 == millis);
}

/// A call that is not gated is not on the trail.
pub proof fn an_open_call_is_not_on_the_trail(
    service: &'static str,
    route: Route,
    call: Call,
    caller: Caller,
    announcement: Option<Announcement>,
    silent: Announcement,
    line: Option<String>,
    written: Instant,
    operation: Operation,
    words: &str,
    now: Instant,
    report: Option<String>,
)
    requires
        route.authorization is Unprivileged,
        call.authorization is Unprivileged,
        call_ensures(Operation::begin, (service, route, &caller, None), announcement),
        call_ensures(Operation::begin_call, (service, call, &caller, None), silent),
        call_ensures(Announcement::line, (&silent,), line),
        call_ensures(Announcement::written, (silent, written), operation),
        call_ensures(Operation::finish_call, (operation, Some(words), now), report),
    ensures
        announcement is None,
        line is None,
        report is None,
{
}

}
