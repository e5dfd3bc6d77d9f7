//! One request and its answer, from the first byte to the last.
//!
//! An [`Exchange`] is always waiting for exactly one thing: something to be
//! read, an account to be looked up, a line to be written to the journal, the
//! time, or a response to be written to the client. Whoever holds the
//! connection does that thing and hands back what came of it.
use crate::audit;
use crate::call::Authorization;
use crate::caller::{self, Account, AccountView, Caller};
use crate::handler::{self, FinishedCall, Handler, PendingCall, Reply, RunningCall, Step};
use crate::http::{
    self, format_response, ReadAction, ReadStage, RequestLine, RequestReader, ServeOutcome,
};
use crate::io::{ErrorKind, IoError};
use crate::json;
use crate::server::ServerConfig;
use crate::service::{self, FrameworkErrorKind, WireError};
use crate::text;
use crate::time::Instant;
use vstd::prelude::*;
use vstd::utf8;

verus! {

/// A connection, by what it is waiting for.
pub enum Exchange {
    /// For more of the request: a line, or as many bytes as the reader's stage
    /// says.
    Reading(RequestReader),
    /// For a refusal to be written. Best effort: the reason the request was
    /// refused is very often the reason the peer is no longer reading.
    Refusing {
        /// Why the request was refused.
        message: String,
        /// What to write to the client.
        response: String,
    },
    /// For the account behind the caller's uid, where the call wants one.
    Identifying {
        /// The request line.
        line: RequestLine,
        /// The call that is to be run.
        call: PendingCall,
    },
    /// For the call's announcement, if it has one, to be written.
    Announcing {
        /// The request line.
        line: RequestLine,
        /// The call that is to be run.
        running: RunningCall,
    },
    /// For the time at which the call returned.
    Returning {
        /// The request line.
        line: RequestLine,
        /// The call that has run.
        finished: FinishedCall,
    },
    /// For the call's report, if it has one, to be written.
    Reporting {
        /// The request line.
        line: RequestLine,
        /// The answer to the client.
        reply: Reply,
        /// The line for the journal.
        report: Option<String>,
    },
    /// For the answer to be written.
    Answering {
        /// The request line.
        line: RequestLine,
        /// What to write to the client.
        response: String,
    },
    /// For nothing any more.
    Over(ServeOutcome),
}

/// What came of the thing that a connection was waiting for.
pub enum Event {
    /// A line was read, with its line break; an empty one at the end of the
    /// connection.
    LineRead(Result<String, IoError>),
    /// The bytes of the body were read.
    BodyRead(Result<Vec<u8>, IoError>),
    /// The account behind the caller's uid was looked up where one was wanted.
    Identified(Option<Account>),
    /// The call's announcement, if it has one, was written, and the clock was
    /// read after that.
    Announced(Instant),
    /// The call returned, and the clock was read.
    Clocked(Instant),
    /// The call's report, if it has one, was written.
    Said,
    /// What was to be written to the client was written, or could not be.
    Written(Result<(), IoError>),
}

/// Whether a reader takes this event where it stands.
pub open spec fn reader_takes(reader: http::ReaderView, event: Event) -> bool {
    match event {
        Event::LineRead(_) => reader.stage is Headers,
        Event::BodyRead(Ok(bytes)) => reader.stage == ReadStage::Body(bytes@.len() as usize),
        Event::BodyRead(Err(_)) => reader.stage is Body,
        _ => false,
    }
}

/// What an account that there may be holds.
pub open spec fn account_in(account: Option<Account>) -> Option<AccountView> {
    match account {
        Some(account) => Some(account@),
        None => None,
    }
}

/// Whether an event is what an exchange was waiting for. The account that one
/// waits for is the one behind the uid of the call's own caller.
pub open spec fn awaits(exchange: Exchange, event: Event) -> bool {
    match exchange {
        Exchange::Reading(reader) => reader_takes(reader@, event),
        Exchange::Refusing { .. } => event is Written,
        Exchange::Identifying { call, .. } => event matches Event::Identified(account)
            && handler::attributed(call@, account_in(account)),
        Exchange::Announcing { .. } => event is Announced,
        Exchange::Returning { .. } => event is Clocked,
        Exchange::Reporting { .. } => event is Said,
        Exchange::Answering { .. } => event is Written,
        Exchange::Over(_) => false,
    }
}

/// Whether whatever call an exchange is about to run was let through.
pub open spec fn admitted(handler: Handler, exchange: Exchange) -> bool {
    match exchange {
        Exchange::Identifying { call, .. } => handler.admits(call@.route, call@.caller),
        Exchange::Announcing { running, .. } => handler.admits(
            running@.call.route,
            running@.call.caller,
        ),
        _ => true,
    }
}

/// Whether a connection is over because it could not be read.
pub open spec fn lost(exchange: Exchange, error: IoError) -> bool {
    exchange == Exchange::Over(ServeOutcome::Failed { context: None, error })
}

/// Whether a connection waits for the answer to its request to be written.
pub open spec fn answers(exchange: Exchange, line: http::RequestLineView, reply: Reply) -> bool {
    exchange matches Exchange::Answering { line: asked, response } && asked@ == line && response@
        == http::response(reply.status, reply.body@)
}

/// Whether a connection is where a step of the pipeline leads.
pub open spec fn responded(
    line: http::RequestLineView,
    step: Step,
    after: Exchange,
) -> bool {
    match step {
        Step::Answer(reply) => answers(after, line, reply),
        Step::Dispatch(pending) => after matches Exchange::Identifying { line: asked, call }
            && asked@ == line && call@ == pending@,
    }
}

/// Whether a connection waits for a refusal, in the service's own encoding, to
/// be written.
pub open spec fn turned_down(
    handler: Handler,
    kind: FrameworkErrorKind,
    reason: Seq<char>,
    after: Exchange,
) -> bool {
    after matches Exchange::Refusing { message, response } && message@ == reason && exists|
        reply: Reply,
    | #[trigger]
        handler.reports(kind, reason, reply) && response@ == http::response(
            reply.status,
            reply.body@,
        )
}

/// Whether a connection is where the pipeline takes a request that was read
/// whole.
pub open spec fn taken_up(
    handler: Handler,
    caller: Caller,
    line: http::RequestLineView,
    body: Seq<char>,
    after: Exchange,
) -> bool {
    exists|step: Step|
        #[trigger] handler.responds(line.verb, line.path, body, caller, step) && responded(
            line,
            step,
            after,
        )
}

/// Whether a connection is where a reader's action leads.
pub open spec fn read_on(
    handler: Handler,
    caller: Caller,
    reader: http::ReaderView,
    action: http::ReadActionView,
    after: Exchange,
) -> bool {
    match action {
        http::ReadActionView::ReadLine => after matches Exchange::Reading(next) && next@ == reader,
        http::ReadActionView::ReadBody(_) => after matches Exchange::Reading(next) && next@
            == reader,
        http::ReadActionView::Probe => after == Exchange::Over(ServeOutcome::Probe),
        http::ReadActionView::Refuse(kind, reason) => turned_down(handler, kind, reason, after),
        http::ReadActionView::Respond(line, body) => taken_up(handler, caller, line, body, after),
    }
}

/// Whether a call has begun as it should: on the record under the account
/// behind its own caller's uid, where it is audited and the caller has one.
pub open spec fn begun(
    handler: Handler,
    call: handler::CallView,
    account: Option<AccountView>,
    running: handler::RunningView,
) -> bool {
    &&& handler::attributed(call, account)
    &&& running.call == call
    &&& exists|name: Seq<char>| #[trigger]
        handler.serves().names_itself(name) && running.announcement == audit::route_announcement(
            name,
            call.route,
            call.caller,
            handler::name_in(account),
        )
}

/// Whether a reply is what the outcome of a call leads to.
pub open spec fn outcome_replied(
    outcome: Result<serde_json::Value, WireError>,
    reply: Reply,
) -> bool {
    match outcome {
        Ok(value) => handler::is_success(reply, json::json_content(value)),
        Err(failure) => reply.status == failure.status && reply.body@ == failure.body@,
    }
}

/// Whether a reply and a report are what a finished call leads to.
pub open spec fn concluded(
    finished: handler::FinishedView,
    now: Instant,
    reply: Reply,
    report: Option<Seq<char>>,
) -> bool {
    &&& outcome_replied(finished.outcome, reply)
    &&& report == match finished.operation {
        Some(operation) => audit::end_line(
            operation,
            match finished.outcome {
                Ok(_) => None,
                Err(failure) => Some(audit::failure_text(failure)),
            },
            now,
        ),
        None => None,
    }
}

/// Whether a connection is where an event leads.
pub open spec fn follows(
    handler: Handler,
    caller: Caller,
    before: Exchange,
    event: Event,
    after: Exchange,
) -> bool {
    match (before, event) {
        (Exchange::Reading(_), Event::LineRead(Err(error))) => lost(after, error),
        (Exchange::Reading(_), Event::BodyRead(Err(error))) => lost(after, error),
        (Exchange::Reading(reader), Event::LineRead(Ok(line))) => {
            let action = http::after_line(reader@, line@);
            read_on(
                handler,
                caller,
                http::ReaderView {
                    headers: reader@.headers + line@,
                    stage: http::stage_for(action),
                    ..reader@
                },
                action,
                after,
            )
        },
        (Exchange::Reading(reader), Event::BodyRead(Ok(bytes))) => read_on(
            handler,
            caller,
            http::ReaderView { stage: ReadStage::Done, ..reader@ },
            http::after_body(reader@.headers, bytes@),
            after,
        ),
        (Exchange::Refusing { message, .. }, Event::Written(_)) => lost(
            after,
            IoError { kind: ErrorKind::Other, message },
        ),
        (Exchange::Identifying { line, call }, Event::Identified(account)) => after
            matches Exchange::Announcing { line: asked, running } && asked@ == line@ && begun(
            handler,
            call@,
            account_in(account),
            running@,
        ),
        (Exchange::Announcing { line, running }, Event::Announced(now)) => after
            matches Exchange::Returning { line: asked, finished } && asked@ == line@
            && handler.serves().dispatches(
            running@.call.route,
            running@.call.request,
            running@.call.caller,
            finished@.outcome,
        ) && finished@.operation == audit::started_in(running@.announcement, now),
        (Exchange::Returning { line, finished }, Event::Clocked(now)) => after
            matches Exchange::Reporting { line: asked, reply, report } && asked@ == line@
            && concluded(finished@, now, reply, text::text_in(report)),
        (Exchange::Reporting { line, reply, .. }, Event::Said) => answers(after, line@, reply),
        (Exchange::Answering { line, .. }, Event::Written(written)) => match written {
            Ok(()) => after == Exchange::Over(ServeOutcome::Answered),
            Err(error) => after matches Exchange::Over(
                ServeOutcome::Failed { context: Some(context), error: cause },
            ) && context@ == line.method@ + " "@ + line.path@ && cause == error,
        },
        _ => false,
    }
}

impl Exchange {
    /// An exchange of which nothing has been read.
    pub fn new(config: &ServerConfig) -> (exchange: Self)
        ensures
            exchange matches Exchange::Reading(reader) && reader@ == (http::ReaderView {
                max_header_bytes: config.max_header_bytes as nat,
                max_body_bytes: config.max_body_bytes as nat,
                headers: seq![],
                stage: ReadStage::Headers,
            }),
    {
        Exchange::Reading(RequestReader::new(config.max_header_bytes, config.max_body_bytes))
    }

    /// Take in what came of the thing that the connection was waiting for.
    ///
    /// The call itself runs in here, once its announcement has been written.
    pub fn step(self, handler: &Handler, caller: &Caller, event: Event) -> (after: Self)
        requires
            awaits(self, event),
            admitted(*handler, self),
        ensures
            follows(*handler, *caller, self, event, after),
            admitted(*handler, after),
    {
        match (self, event) {
            (Exchange::Reading(mut reader), Event::LineRead(read)) => match read {
                Ok(line) => {
                    let action = reader.line(line.as_str());
                    Exchange::read_on(reader, action, handler, caller)
                },
                Err(error) => Exchange::Over(ServeOutcome::unreadable(error)),
            },
            (Exchange::Reading(mut reader), Event::BodyRead(read)) => match read {
                Ok(bytes) => {
                    let action = reader.body(bytes);
                    Exchange::read_on(reader, action, handler, caller)
                },
                Err(error) => Exchange::Over(ServeOutcome::unreadable(error)),
            },
            (Exchange::Refusing { message, .. }, Event::Written(_best_effort)) => {
                Exchange::Over(ServeOutcome::refused(message))
            },
            (Exchange::Identifying { line, call }, Event::Identified(account)) => {
                let running = match &account {
                    Some(known) => handler.begin(call, Some(known)),
                    None => handler.begin(call, None),
                };
                Exchange::Announcing { line, running }
            },
            (Exchange::Announcing { line, running }, Event::Announced(now)) => {
                let finished = handler.dispatch(running, now);
                Exchange::Returning { line, finished }
            },
            (Exchange::Returning { line, finished }, Event::Clocked(now)) => {
                let (reply, report) = handler.conclude(finished, now);
                Exchange::Reporting { line, reply, report }
            },
            (Exchange::Reporting { line, reply, .. }, Event::Said) => {
                Exchange::Answering { line, response: format_response(&reply) }
            },
            (Exchange::Answering { line, .. }, Event::Written(written)) => {
                Exchange::Over(ServeOutcome::answered(&line, written))
            },
            (exchange, _) => exchange,
        }
    }

    fn read_on(
        reader: RequestReader,
        action: ReadAction,
        handler: &Handler,
        caller: &Caller,
    ) -> (after: Self)
        ensures
            read_on(*handler, *caller, reader@, action@, after),
            admitted(*handler, after),
    {
        let ghost wanted = action@;
        match action {
            ReadAction::ReadLine => Exchange::Reading(reader),
            ReadAction::ReadBody(_) => Exchange::Reading(reader),
            ReadAction::Probe => Exchange::Over(ServeOutcome::Probe),
            ReadAction::Refuse(kind, message) => {
                let reply = handler.framework_error(kind, message.as_str());
                let response = format_response(&reply);
                assert(handler.reports(kind, message@, reply));
                let after = Exchange::Refusing { message, response };
                assert(turned_down(*handler, kind, message@, after));
                after
            },
            ReadAction::Respond(request) => {
                assert(wanted == http::ReadActionView::Respond(request.line@, request.body@));
                Exchange::take_up(request, handler, caller)
            },
        }
    }

    fn take_up(request: http::Request, handler: &Handler, caller: &Caller) -> (after: Self)
        ensures
            taken_up(*handler, *caller, request.line@, request.body@, after),
            admitted(*handler, after),
    {
        let verb = request.line.verb;
        let step = handler.respond(verb, request.line.path.as_str(), request.body.as_str(), caller);
        let ghost line = request.line@;
        let ghost made = step;
        assert(handler.responds(line.verb, line.path, request.body@, *caller, made));
        match step {
            Step::Answer(reply) => {
                let after = Exchange::Answering {
                    line: request.line,
                    response: format_response(&reply),
                };
                assert(responded(line, made, after));
                after
            },
            Step::Dispatch(call) => {
                proof {
                    handler::only_admitted_calls_are_dispatched(
                        *handler,
                        line.verb,
                        line.path,
                        request.body@,
                        *caller,
                        call,
                    );
                }
                let after = Exchange::Identifying { line: request.line, call };
                assert(responded(line, made, after));
                after
            },
        }
    }
}

/// A call runs only after the line that announces it has been written, so that
/// an operation that never returns is still on the record. What it took is
/// counted from the time read once the line was there.
pub proof fn announced_before_it_runs(
    handler: Handler,
    caller: Caller,
    before: Exchange,
    event: Event,
    after: Exchange,
)
    requires
        follows(handler, caller, before, event, after),
        after is Returning,
    ensures
        before is Announcing,
        event matches Event::Announced(now) && after->Returning_finished@.operation
            == audit::started_in(before->Announcing_running@.announcement, now),
{
}

/// A request's call is taken up for the caller that the exchange is held with,
/// and only where the authorizer let that caller make it.
pub proof fn only_let_through_calls_are_taken_up(
    handler: Handler,
    caller: Caller,
    before: Exchange,
    event: Event,
    after: Exchange,
)
    requires
        follows(handler, caller, before, event, after),
        after is Identifying,
    ensures
        after matches Exchange::Identifying { call, .. } && call@.caller == caller
            && handler.admits(call@.route, caller),
{
    let action = match event {
        Event::LineRead(Ok(line)) => http::after_line(before->Reading_0@, line@),
        Event::BodyRead(Ok(bytes)) => http::after_body(before->Reading_0@.headers, bytes@),
        _ => http::ReadActionView::Probe,
    };
    let line = action->Respond_0;
    let body = action->Respond_1;
    assert(taken_up(handler, caller, line, body, after));
    let step = choose|step: Step|
        #[trigger] handler.responds(line.verb, line.path, body, caller, step) && responded(
            line,
            step,
            after,
        );
    handler::only_admitted_calls_are_dispatched(
        handler,
        line.verb,
        line.path,
        body,
        caller,
        step->Dispatch_0,
    );
}

/// Nothing of a request's payload reaches the journal: whatever the body says,
/// the announcement that the audit lines are made of may be the same.
pub proof fn payload_never_reaches_the_journal(
    handler: Handler,
    call: handler::CallView,
    other: serde_json::Value,
    account: Option<AccountView>,
    running: handler::RunningView,
)
    requires
        begun(handler, call, account, running),
    ensures
        begun(
            handler,
            handler::CallView { request: other, ..call },
            account,
            handler::RunningView {
                call: handler::CallView { request: other, ..call },
                announcement: running.announcement,
            },
        ),
{
}

/// The account that an audited call is put on the record under is the one
/// behind the uid of the caller that made it, and no other. Where it is what
/// the host gave, the name on the record is what the host answered about that
/// uid.
pub proof fn the_account_on_record_is_the_callers(
    handler: Handler,
    caller: Caller,
    before: Exchange,
    event: Event,
    after: Exchange,
    uid: u32,
    action: &'static str,
)
    requires
        follows(handler, caller, before, event, after),
        after is Announcing,
        after->Announcing_running@.call.route.authorization == Authorization::Policy(action),
        caller::uid_of(after->Announcing_running@.call.caller) == Some(uid),
    ensures
        ({
            let running = after->Announcing_running@;
            &&& event matches Event::Identified(Some(account))
            &&& account@.uid == uid
            &&& running.announcement matches Some(announcement)
            &&& announcement.label == Some(
                audit::label(
                    running.call.route.api_path@,
                    action@,
                    running.call.caller,
                    account@.name,
                ),
            )
            &&& caller::given_by_host(account@) ==> exists|
                answer: Option<Option<Seq<char>>>,
            | #[trigger]
                caller::account_answer(uid, answer) && announcement.label == Some(
                    audit::label(
                        running.call.route.api_path@,
                        action@,
                        running.call.caller,
                        caller::answered(caller::made_of(answer)),
                    ),
                )
        }),
{
}

/// A connection that fails names its request exactly when the answer to that
/// request could not be written.
pub proof fn failures_name_the_request_once_it_was_answered(
    handler: Handler,
    caller: Caller,
    before: Exchange,
    event: Event,
    after: Exchange,
)
    requires
        follows(handler, caller, before, event, after),
    ensures
        after matches Exchange::Over(ServeOutcome::Failed { context, .. }) ==> (context is Some
            <==> before is Answering),
        after == Exchange::Over(ServeOutcome::Answered) ==> before is Answering,
        after == Exchange::Over(ServeOutcome::Probe) ==> before is Reading,
{
    if before is Reading {
        let action = match event {
            Event::LineRead(Ok(line)) => http::after_line(before->Reading_0@, line@),
            Event::BodyRead(Ok(bytes)) => http::after_body(before->Reading_0@.headers, bytes@),
            _ => http::ReadActionView::Probe,
        };
        if let http::ReadActionView::Respond(line, body) = action {
            if taken_up(handler, caller, line, body, after) {
                let step = choose|step: Step|
                    #[trigger] handler.responds(line.verb, line.path, body, caller, step)
                        && responded(line, step, after);
            }
        }
    }
}

/// A client that connects and sends nothing is neither answered nor logged as
/// a failure.
pub proof fn a_probe_is_met_with_silence(
    handler: Handler,
    caller: Caller,
    reader: RequestReader,
    nothing: String,
    after: Exchange,
)
    requires
        reader@.headers.len() == 0,
        nothing@.len() == 0,
        follows(
            handler,
            caller,
            Exchange::Reading(reader),
            Event::LineRead(Ok(nothing)),
            after,
        ),
    ensures
        after == Exchange::Over(ServeOutcome::Probe),
{
}

/// Whether exchanges come one after the other, each by what the one before it
/// was waiting for.
pub open spec fn runs(
    handler: Handler,
    caller: Caller,
    exchanges: Seq<Exchange>,
    events: Seq<Event>,
) -> bool {
    &&& exchanges.len() == events.len() + 1
    &&& forall|i: int|
        #![trigger events[i]]
        0 <= i < events.len() ==> awaits(exchanges[i], events[i]) && follows(
            handler,
            caller,
            exchanges[i],
            events[i],
            exchanges[i + 1],
        )
}

/// Whether events begin with a client sending these lines.
pub open spec fn sends_lines(events: Seq<Event>, lines: Seq<Seq<char>>) -> bool {
    &&& lines.len() <= events.len()
    &&& forall|i: int|
        #![trigger events[i]]
        0 <= i < lines.len() ==> (events[i] matches Event::LineRead(Ok(line)) && line@ == lines[i])
}

/// Whether events begin with a client sending these lines of a header block,
/// the blank line that ends it, and these bytes.
pub open spec fn sends(events: Seq<Event>, lines: Seq<Seq<char>>, bytes: Seq<u8>) -> bool {
    let block = lines.push("\r\n"@);
    &&& sends_lines(events, block)
    &&& bytes.len() > 0 ==> events.len() > block.len() && (events[block.len() as int]
        matches Event::BodyRead(Ok(body)) && body@ == bytes)
}

/// Whether whatever had to be written to the client could be written.
pub open spec fn all_written(events: Seq<Event>) -> bool {
    forall|i: int|
        #![trigger events[i]]
        0 <= i < events.len() ==> (events[i] matches Event::Written(written) ==> written is Ok)
}

/// Whether a reply is what running a call leads to.
pub open spec fn dispatched(handler: Handler, call: handler::CallView, reply: Reply) -> bool {
    exists|outcome: Result<serde_json::Value, WireError>| #[trigger]
        handler.serves().dispatches(call.route, call.request, call.caller, outcome)
            && outcome_replied(outcome, reply)
}

/// Whether a reply is the one to a request.
pub open spec fn replied(
    handler: Handler,
    caller: Caller,
    line: http::RequestLineView,
    body: Seq<char>,
    reply: Reply,
) -> bool {
    exists|step: Step| #[trigger]
        handler.responds(line.verb, line.path, body, caller, step) && match step {
            Step::Answer(answer) => reply == answer,
            Step::Dispatch(call) => dispatched(handler, call@, reply),
        }
}

/// A header block that is within bounds is read to its end, line by line.
proof fn lines_are_read(
    handler: Handler,
    caller: Caller,
    exchanges: Seq<Exchange>,
    events: Seq<Event>,
    reader: http::ReaderView,
    lines: Seq<Seq<char>>,
)
    requires
        runs(handler, caller, exchanges, events),
        exchanges[0] matches Exchange::Reading(read) && read@ == reader,
        reader.stage is Headers,
        sends_lines(events, lines),
        forall|i: int| 0 <= i < lines.len() ==> http::goes_on(#[trigger] lines[i]),
        utf8::encode_utf8(reader.headers + http::joined(lines)).len() <= reader.max_header_bytes,
    ensures
        exchanges[lines.len() as int] matches Exchange::Reading(read) && read@ == (
        http::ReaderView { headers: reader.headers + http::joined(lines), ..reader }),
    decreases lines.len(),
{
    if lines.len() == 0 {
        assert(reader.headers + http::joined(lines) =~= reader.headers);
    } else {
        let line = lines[0];
        let rest = lines.skip(1);
        let next = http::ReaderView { headers: reader.headers + line, ..reader };
        assert(http::goes_on(line));
        assert(reader.headers + http::joined(lines) =~= next.headers + http::joined(rest));
        http::prefix_is_no_longer(next.headers, http::joined(rest));
        assert(events[0] is LineRead);
        assert(http::after_line(reader, line) is ReadLine);
        let later = exchanges.skip(1);
        let left = events.skip(1);
        assert forall|i: int|
            #![trigger left[i]]
            0 <= i < left.len() implies awaits(later[i], left[i]) && follows(
            handler,
            caller,
            later[i],
            left[i],
            later[i + 1],
        ) by {
            assert(left[i] == events[i + 1]);
        }
        assert forall|i: int|
            #![trigger left[i]]
            0 <= i < rest.len() implies (left[i] matches Event::LineRead(Ok(line)) && line@
            == rest[i]) by {
            assert(left[i] == events[i + 1]);
        }
        assert forall|i: int| 0 <= i < rest.len() implies http::goes_on(#[trigger] rest[i]) by {
            assert(rest[i] == lines[i + 1]);
        }
        lines_are_read(handler, caller, later, left, next, rest);
    }
}

/// An exchange in a run that ends is over, or has a next one.
proof fn a_run_goes_on_until_it_is_over(
    handler: Handler,
    caller: Caller,
    exchanges: Seq<Exchange>,
    events: Seq<Event>,
    at: int,
)
    requires
        runs(handler, caller, exchanges, events),
        exchanges.last() is Over,
        0 <= at <= events.len(),
    ensures
        exchanges[at] is Over <==> at == events.len(),
        at < events.len() ==> awaits(exchanges[at], events[at]) && follows(
            handler,
            caller,
            exchanges[at],
            events[at],
            exchanges[at + 1],
        ),
{
    if at < events.len() {
        assert(awaits(exchanges[at], events[at]));
    }
}

/// A request that was taken up is answered with the reply to it, once what has
/// to be written can be written.
proof fn what_was_taken_up_is_answered(
    handler: Handler,
    caller: Caller,
    exchanges: Seq<Exchange>,
    events: Seq<Event>,
    from: int,
    line: http::RequestLineView,
    body: Seq<char>,
)
    requires
        runs(handler, caller, exchanges, events),
        exchanges.last() is Over,
        all_written(events),
        0 <= from <= events.len(),
        taken_up(handler, caller, line, body, exchanges[from]),
    ensures
        exchanges.last() == Exchange::Over(ServeOutcome::Answered),
        exists|reply: Reply| #[trigger]
            replied(handler, caller, line, body, reply) && answers(
                exchanges[events.len() - 1],
                line,
                reply,
            ),
{
    let step = choose|step: Step|
        #[trigger] handler.responds(line.verb, line.path, body, caller, step) && responded(
            line,
            step,
            exchanges[from],
        );
    a_run_goes_on_until_it_is_over(handler, caller, exchanges, events, from);
    match step {
        Step::Answer(reply) => {
            a_run_goes_on_until_it_is_over(handler, caller, exchanges, events, from + 1);
            assert(replied(handler, caller, line, body, reply));
        },
        Step::Dispatch(call) => {
            assert(exchanges[from + 1] is Announcing);
            a_run_goes_on_until_it_is_over(handler, caller, exchanges, events, from + 1);
            assert(exchanges[from + 2] is Returning);
            a_run_goes_on_until_it_is_over(handler, caller, exchanges, events, from + 2);
            assert(exchanges[from + 3] is Reporting);
            a_run_goes_on_until_it_is_over(handler, caller, exchanges, events, from + 3);
            assert(exchanges[from + 4] is Answering);
            a_run_goes_on_until_it_is_over(handler, caller, exchanges, events, from + 4);
            a_run_goes_on_until_it_is_over(handler, caller, exchanges, events, from + 5);
            let reply = exchanges[from + 3]->Reporting_reply;
            let finished = exchanges[from + 2]->Returning_finished@;
            assert(outcome_replied(finished.outcome, reply));
            assert(dispatched(handler, call@, reply));
            assert(replied(handler, caller, line, body, reply));
        },
    }
}

/// A request is answered: one whose header block is within bounds and reads as
/// a request with this line and this body, sent whole, ends as answered, and
/// what is written to the client is the framed reply to that request.
pub proof fn a_request_is_answered(
    handler: Handler,
    caller: Caller,
    exchanges: Seq<Exchange>,
    events: Seq<Event>,
    reader: http::ReaderView,
    lines: Seq<Seq<char>>,
    bytes: Seq<u8>,
    line: http::RequestLineView,
    body: Seq<char>,
)
    requires
        runs(handler, caller, exchanges, events),
        exchanges[0] matches Exchange::Reading(read) && read@ == reader,
        reader.stage is Headers,
        exchanges.last() is Over,
        all_written(events),
        sends(events, lines, bytes),
        forall|i: int| 0 <= i < lines.len() ==> http::goes_on(#[trigger] lines[i]),
        utf8::encode_utf8(reader.headers + http::joined(lines)).len() <= reader.max_header_bytes,
        ({
            let headers = reader.headers + http::joined(lines) + "\r\n"@;
            let request = http::ReadActionView::Respond(line, body);
            if bytes.len() > 0 {
                &&& http::after_headers(headers, reader.max_body_bytes)
                    == http::ReadActionView::ReadBody(bytes.len())
                &&& http::after_body(headers, bytes) == request
            } else {
                http::after_headers(headers, reader.max_body_bytes) == request
            }
        }),
    ensures
        exchanges.last() == Exchange::Over(ServeOutcome::Answered),
        exists|reply: Reply| #[trigger]
            replied(handler, caller, line, body, reply) && answers(
                exchanges[events.len() - 1],
                line,
                reply,
            ),
{
    reveal_strlit("\r\n");
    let block = lines.push("\r\n"@);
    let end = lines.len() as int;
    assert forall|i: int|
        #![trigger events[i]]
        0 <= i < lines.len() implies (events[i] matches Event::LineRead(Ok(line)) && line@
        == lines[i]) by {
        assert(block[i] == lines[i]);
    }
    lines_are_read(handler, caller, exchanges, events, reader, lines);
    assert(block[end] == "\r\n"@);
    assert(events[end] is LineRead);
    if bytes.len() > 0 {
        assert(exchanges[end + 1] is Reading);
        assert(events[end + 1] is BodyRead);
        assert(taken_up(handler, caller, line, body, exchanges[end + 2]));
        what_was_taken_up_is_answered(handler, caller, exchanges, events, end + 2, line, body);
    } else {
        assert(taken_up(handler, caller, line, body, exchanges[end + 1]));
        what_was_taken_up_is_answered(handler, caller, exchanges, events, end + 1, line, body);
    }
}

/// What a client writes is answered: a request as a client frames it, within
/// bounds and sent whole, ends as answered with the framed reply to the method,
/// the path and the body that the client meant.
pub proof fn a_framed_request_is_answered(
    handler: Handler,
    caller: Caller,
    exchanges: Seq<Exchange>,
    events: Seq<Event>,
    reader: http::ReaderView,
    method: Seq<char>,
    path: Seq<char>,
    version: Seq<char>,
    body: Seq<char>,
)
    requires
        runs(handler, caller, exchanges, events),
        exchanges[0] matches Exchange::Reading(read) && read@ == reader,
        reader.stage is Headers,
        reader.headers.len() == 0,
        exchanges.last() is Over,
        all_written(events),
        sends(
            events,
            http::head_lines(method, path, version, utf8::encode_utf8(body).len()),
            utf8::encode_utf8(body),
        ),
        http::is_field(method),
        text::position(method, ':') < method.len() ==> text::lowered(
            method.take(text::position(method, ':')),
        ) != "content-length"@,
        http::is_field(path),
        http::speaks(version),
        utf8::encode_utf8(
            http::joined(http::head_lines(method, path, version, utf8::encode_utf8(body).len())),
        ).len() <= reader.max_header_bytes,
        utf8::encode_utf8(body).len() <= reader.max_body_bytes,
        utf8::encode_utf8(body).len() <= usize::MAX,
    ensures
        exchanges.last() == Exchange::Over(ServeOutcome::Answered),
        exists|reply: Reply| #[trigger]
            replied(
                handler,
                caller,
                http::RequestLineView { method, verb: service::verb_of(method), path },
                body,
                reply,
            ) && answers(
                exchanges[events.len() - 1],
                http::RequestLineView { method, verb: service::verb_of(method), path },
                reply,
            ),
{
    let bytes = utf8::encode_utf8(body);
    let lines = http::head_lines(method, path, version, bytes.len());
    let line = http::RequestLineView { method, verb: service::verb_of(method), path };
    http::a_framed_request_reads_back(method, path, version, body, reader.max_body_bytes);
    http::head_is_its_lines(method, path, version, bytes.len());
    assert(reader.headers + http::joined(lines) =~= http::joined(lines));
    assert(reader.headers + http::joined(lines) + "\r\n"@ =~= http::request_head(
        method,
        path,
        version,
        bytes.len(),
    ));
    a_request_is_answered(
        handler,
        caller,
        exchanges,
        events,
        reader,
        lines,
        bytes,
        line,
        body,
    );
}

/// Which event each exchange waits for. A reader takes a line while it reads
/// headers, and as many bytes as it asked for after that.
pub proof fn each_exchange_waits_for_one_thing(exchange: Exchange, event: Event)
    ensures
        exchange matches Exchange::Reading(reader) ==> (awaits(exchange, event) <==> match event {
            Event::LineRead(_) => reader@.stage is Headers,
            Event::BodyRead(Ok(bytes)) => reader@.stage == ReadStage::Body(bytes@.len() as usize),
            Event::BodyRead(Err(_)) => reader@.stage is Body,
            _ => false,
        }),
        exchange is Refusing || exchange is Answering ==> (awaits(exchange, event)
            <==> event is Written),
        exchange matches Exchange::Identifying { call, .. } ==> (awaits(exchange, event) <==> (event
            matches Event::Identified(account) && handler::attributed(
            call@,
            match account {
                Some(known) => Some(known@),
                None => None,
            },
        ))),
        exchange is Announcing ==> (awaits(exchange, event) <==> event is Announced),
        exchange is Returning ==> (awaits(exchange, event) <==> event is Clocked),
        exchange is Reporting ==> (awaits(exchange, event) <==> event is Said),
        exchange is Over ==> !awaits(exchange, event),
{
}

/// Whether an exchange waits for this reply to be written, in full and for this
/// request.
pub proof fn an_answer_is_the_framed_reply(
    exchange: Exchange,
    line: http::RequestLineView,
    reply: Reply,
)
    requires
        answers(exchange, line, reply),
    ensures
        exchange matches Exchange::Answering { line: asked, response } && asked@ == line
            && response@ == http::response(reply.status, reply.body@),
{
}

/// What a reader asked for is what becomes of an exchange: more is read, a probe
/// is left alone, a refusal is encoded by the service and framed, and a request
/// is taken up by the pipeline for the caller on the connection. What the
/// pipeline answers is framed, and a call that it wants run is taken up as it
/// is.
pub proof fn a_readers_action_is_carried_out(
    handler: Handler,
    caller: Caller,
    reader: http::ReaderView,
    action: http::ReadActionView,
    after: Exchange,
)
    requires
        read_on(handler, caller, reader, action, after),
    ensures
        action is ReadLine || action is ReadBody ==> (after matches Exchange::Reading(next) && next@
            == reader),
        action is Probe ==> after == Exchange::Over(ServeOutcome::Probe),
        action matches http::ReadActionView::Refuse(kind, reason) ==> (after
            matches Exchange::Refusing { message, response } && message@ == reason && exists|
            reply: Reply,
        | #[trigger]
            handler.reports(kind, reason, reply) && response@ == http::response(
                reply.status,
                reply.body@,
            )),
        action matches http::ReadActionView::Respond(line, body) ==> exists|step: Step|
            #[trigger] handler.responds(line.verb, line.path, body, caller, step) && match step {
                Step::Answer(reply) => after matches Exchange::Answering { line: asked, response }
                    && asked@ == line && response@ == http::response(reply.status, reply.body@),
                Step::Dispatch(pending) => after matches Exchange::Identifying { line: asked, call }
                    && asked@ == line && call@ == pending@,
            },
{
    if let http::ReadActionView::Respond(line, body) = action {
        let step = choose|step: Step|
            #[trigger] handler.responds(line.verb, line.path, body, caller, step) && responded(
                line,
                step,
                after,
            );
        assert(handler.responds(line.verb, line.path, body, caller, step));
    }
}

/// What was read is handed to the reader as it is, and the exchange goes on with
/// what the reader wants. What could not be read ends it with that failure.
pub proof fn what_was_read_is_taken_in(
    handler: Handler,
    caller: Caller,
    reader: RequestReader,
    event: Event,
    after: Exchange,
)
    requires
        follows(handler, caller, Exchange::Reading(reader), event, after),
    ensures
        event matches Event::LineRead(Ok(line)) ==> {
            let action = http::after_line(reader@, line@);
            read_on(
                handler,
                caller,
                http::ReaderView {
                    max_header_bytes: reader@.max_header_bytes,
                    max_body_bytes: reader@.max_body_bytes,
                    headers: reader@.headers + line@,
                    stage: http::stage_for(action),
                },
                action,
                after,
            )
        },
        event matches Event::BodyRead(Ok(bytes)) ==> read_on(
            handler,
            caller,
            http::ReaderView { stage: ReadStage::Done, ..reader@ },
            http::after_body(reader@.headers, bytes@),
            after,
        ),
        event matches Event::LineRead(Err(error)) ==> after == Exchange::Over(
            ServeOutcome::Failed { context: None, error },
        ),
        event matches Event::BodyRead(Err(error)) ==> after == Exchange::Over(
            ServeOutcome::Failed { context: None, error },
        ),
        event is LineRead || event is BodyRead,
{
}

/// A request that was refused ends as failed for the reason of the refusal,
/// whether or not the refusal could be written.
pub proof fn a_refusal_ends_as_its_reason(
    handler: Handler,
    caller: Caller,
    message: String,
    response: String,
    event: Event,
    after: Exchange,
)
    requires
        follows(handler, caller, Exchange::Refusing { message, response }, event, after),
    ensures
        event is Written,
        after matches Exchange::Over(ServeOutcome::Failed { context, error }) && context is None
            && error.kind is Other && error.message == message,
{
}

/// A call that was taken up is put on the record as it is, for its own caller
/// and under the name of the account that was looked up, and the service's name
/// is asked for then. It is run as it was taken up, and its time counts from its
/// announcement.
pub proof fn a_call_is_run_as_it_was_taken_up(
    handler: Handler,
    caller: Caller,
    before: Exchange,
    event: Event,
    after: Exchange,
)
    requires
        follows(handler, caller, before, event, after),
    ensures
        before matches Exchange::Identifying { line, call } ==> (event matches Event::Identified(
            account,
        ) && after matches Exchange::Announcing { line: asked, running } && asked@ == line@
            && running@.call == call@ && exists|name: Seq<char>| #[trigger]
            handler.serves().names_itself(name) && running@.announcement
                == audit::route_announcement(
                name,
                call@.route,
                call@.caller,
                match account {
                    Some(known) => known@.name,
                    None => None,
                },
            )),
        before matches Exchange::Announcing { line, running } ==> (event matches Event::Announced(
            now,
        ) && after matches Exchange::Returning { line: asked, finished } && asked@ == line@
            && handler.serves().dispatches(
            running@.call.route,
            running@.call.request,
            running@.call.caller,
            finished@.outcome,
        ) && finished@.operation == match running@.announcement {
            Some(announcement) => Some(audit::started(announcement, now)),
            None => None,
        }),
{
    if let Exchange::Identifying { line, call } = before {
        let account = event->Identified_0;
        let running = after->Announcing_running;
        assert(begun(handler, call@, account_in(account), running@));
        let name = choose|name: Seq<char>| #[trigger]
            handler.serves().names_itself(name) && running@.announcement
                == audit::route_announcement(
                name,
                call@.route,
                call@.caller,
                handler::name_in(account_in(account)),
            );
        assert(handler.serves().names_itself(name));
    }
}

/// What came of a call is what the client is told, value or failure, and what
/// the report says of it, if the call is audited: that it failed, with the
/// status and the words of the failure, exactly where it did. Then the reply is
/// framed and written, and the exchange ends as answered, or as failed under the
/// name of its request where the writing failed.
pub proof fn an_outcome_is_told_and_reported(
    handler: Handler,
    caller: Caller,
    before: Exchange,
    event: Event,
    after: Exchange,
)
    requires
        follows(handler, caller, before, event, after),
    ensures
        before matches Exchange::Returning { line, finished } ==> (event matches Event::Clocked(now)
            && after matches Exchange::Reporting { line: asked, reply, report } && asked@ == line@
            && match finished@.outcome {
            Ok(value) => {
                &&& reply.status == 200
                &&& reply.body@ == "{\"ok\":"@ + json::json_content(value) + "}"@
                &&& finished@.operation matches Some(operation) ==> text::text_in(report)
                    == audit::end_line(operation, None, now)
            },
            Err(failure) => {
                &&& reply.status == failure.status
                &&& reply.body@ == failure.body@
                &&& finished@.operation matches Some(operation) ==> text::text_in(report)
                    == audit::end_line(operation, Some(audit::failure_text(failure)), now)
            },
        } && (finished@.operation is None ==> report is None)),
        before matches Exchange::Reporting { line, reply, .. } ==> {
            &&& event is Said
            &&& after matches Exchange::Answering { line: asked, response }
            &&& asked@ == line@
            &&& response@ == http::response(reply.status, reply.body@)
        },
        before matches Exchange::Answering { line, .. } ==> (event matches Event::Written(written)
            && match written {
            Ok(_) => after == Exchange::Over(ServeOutcome::Answered),
            Err(error) => after matches Exchange::Over(
                ServeOutcome::Failed { context: Some(context), error: cause },
            ) && context@ == line.method@ + seq![' '] + line.path@ && cause == error,
        }),
        !(before is Over),
{
    reveal_strlit(" ");
    assert(" "@ =~= seq![' ']);
}

/// A reply to a call is its value under `ok` with a 200, or its failure as the
/// service encoded it; a reply to a request that no call is run for is what the
/// pipeline answered.
pub proof fn a_reply_is_what_came_of_the_request(
    handler: Handler,
    caller: Caller,
    line: http::RequestLineView,
    body: Seq<char>,
    reply: Reply,
)
    requires
        replied(handler, caller, line, body, reply),
    ensures
        exists|step: Step|
            #[trigger] handler.responds(line.verb, line.path, body, caller, step) && match step {
                Step::Answer(answer) => reply == answer,
                Step::Dispatch(call) => exists|outcome: Result<serde_json::Value, WireError>|
                    #[trigger] handler.serves().dispatches(
                        call@.route,
                        call@.request,
                        call@.caller,
                        outcome,
                    ) && match outcome {
                        Ok(value) => reply.status == 200 && reply.body@ == "{\"ok\":"@
                            + json::json_content(value) + "}"@,
                        Err(failure) => reply.status == failure.status && reply.body@
                            == failure.body@,
                    },
            },
{
    let step = choose|step: Step|
        #[trigger] handler.responds(line.verb, line.path, body, caller, step) && match step {
            Step::Answer(answer) => reply == answer,
            Step::Dispatch(call) => dispatched(handler, call@, reply),
        };
    assert(handler.responds(line.verb, line.path, body, caller, step));
    if let Step::Dispatch(call) = step {
        assert(dispatched(handler, call@, reply));
        let outcome = choose|outcome: Result<serde_json::Value, WireError>|
            #[trigger] handler.serves().dispatches(
                call@.route,
                call@.request,
                call@.caller,
                outcome,
            ) && outcome_replied(outcome, reply);
        assert(handler.serves().dispatches(call@.route, call@.request, call@.caller, outcome));
    }
}

/// Whether a call that is about to run was let through is whether the authorizer
/// may let its own caller make it.
pub proof fn what_is_about_to_run_was_let_through(handler: Handler, exchange: Exchange)
    ensures
        exchange matches Exchange::Identifying { call, .. } ==> (admitted(handler, exchange)
            <==> handler.admits(call@.route, call@.caller)),
        exchange matches Exchange::Announcing { running, .. } ==> (admitted(handler, exchange)
            <==> handler.admits(running@.call.route, running@.call.caller)),
        !(exchange is Identifying) && !(exchange is Announcing) ==> admitted(handler, exchange),
{
}

/// The lines of a header block, each with its end.
pub open spec fn ended(lines: Seq<Seq<char>>) -> Seq<Seq<char>> {
    lines.map_values(|line: Seq<char>| line + seq!['\r', '\n'])
}

/// Lines with their ends and a blank one are a header block.
proof fn ended_lines_are_a_block(lines: Seq<Seq<char>>)
    ensures
        http::joined(ended(lines)) + "\r\n"@ == http::header_block(lines),
    decreases lines.len(),
{
    reveal_strlit("\r\n");
    assert("\r\n"@ =~= seq!['\r', '\n']);
    if lines.len() == 0 {
        assert(http::joined(ended(lines)) + "\r\n"@ =~= seq!['\r', '\n']);
    } else {
        ended_lines_are_a_block(lines.skip(1));
        assert(ended(lines).skip(1) =~= ended(lines.skip(1)));
        assert(http::joined(ended(lines)) + "\r\n"@ =~= ended(lines)[0] + (http::joined(
            ended(lines.skip(1)),
        ) + "\r\n"@));
    }
}

/// What a client writes is answered, whatever other headers it sends and
/// however many, before its length and after it: within bounds and sent whole,
/// the request ends as answered with the framed reply to the method, the path
/// and the body that the client meant.
pub proof fn a_request_among_any_headers_is_answered(
    handler: Handler,
    caller: Caller,
    exchanges: Seq<Exchange>,
    events: Seq<Event>,
    reader: http::ReaderView,
    method: Seq<char>,
    path: Seq<char>,
    version: Seq<char>,
    before: Seq<Seq<char>>,
    after: Seq<Seq<char>>,
    body: Seq<char>,
)
    requires
        runs(handler, caller, exchanges, events),
        exchanges[0] matches Exchange::Reading(read) && read@ == reader,
        reader.stage is Headers,
        reader.headers.len() == 0,
        exchanges.last() is Over,
        all_written(events),
        http::is_field(method),
        text::position(method, ':') < method.len() ==> text::lowered(
            method.take(text::position(method, ':')),
        ) != "content-length"@,
        http::is_field(path),
        http::speaks(version),
        forall|i: int|
            0 <= i < before.len() ==> http::is_other_header(#[trigger] before[i]) && before[i].len()
                > 0,
        forall|i: int|
            0 <= i < after.len() ==> http::is_other_header(#[trigger] after[i]) && after[i].len()
                > 0,
        ({
            let first = method + seq![' '] + path + seq![' '] + version;
            let bytes = utf8::encode_utf8(body);
            let lines = ended(http::request_lines(first, before, bytes.len(), after));
            &&& sends(events, lines, bytes)
            &&& utf8::encode_utf8(http::joined(lines)).len() <= reader.max_header_bytes
            &&& bytes.len() <= reader.max_body_bytes
            &&& bytes.len() <= usize::MAX
        }),
    ensures
        exchanges.last() == Exchange::Over(ServeOutcome::Answered),
        exists|reply: Reply| #[trigger]
            replied(
                handler,
                caller,
                http::RequestLineView { method, verb: service::verb_of(method), path },
                body,
                reply,
            ) && answers(
                exchanges[events.len() - 1],
                http::RequestLineView { method, verb: service::verb_of(method), path },
                reply,
            ),
{
    let first = method + seq![' '] + path + seq![' '] + version;
    let bytes = utf8::encode_utf8(body);
    let plain = http::request_lines(first, before, bytes.len(), after);
    let lines = ended(plain);
    let line = http::RequestLineView { method, verb: service::verb_of(method), path };
    assert forall|i: int| 0 <= i < before.len() implies http::is_other_header(
        #[trigger] before[i],
    ) by {}
    assert forall|i: int| 0 <= i < after.len() implies http::is_other_header(
        #[trigger] after[i],
    ) by {}
    http::a_request_reads_back_among_any_headers(
        method,
        path,
        version,
        before,
        after,
        body,
        reader.max_body_bytes,
    );
    ended_lines_are_a_block(plain);
    reveal_strlit("\r\n");
    reveal_strlit("content-length: ");
    assert forall|i: int| 0 <= i < lines.len() implies http::goes_on(#[trigger] lines[i]) by {
        assert(lines[i] == plain[i] + seq!['\r', '\n']);
        let at = i - 1;
        if i == 0 {
            assert(plain[i] == first);
        } else if at < before.len() {
            assert(plain[i] == before[at]);
        } else if at == before.len() {
            assert(plain[i] == http::length_line_of(bytes.len()));
        } else {
            assert(plain[i] == after[at - before.len() - 1]);
        }
        assert(plain[i].len() > 0);
        assert(lines[i].len() > 2);
    }
    assert(reader.headers + http::joined(lines) =~= http::joined(lines));
    a_request_is_answered(
        handler,
        caller,
        exchanges,
        events,
        reader,
        lines,
        bytes,
        line,
        body,
    );
}

/// An exchange begins with nothing read, under the ceilings it was configured
/// with.
pub proof fn an_exchange_begins_unread(config: ServerConfig, exchange: Exchange)
    requires
        call_ensures(Exchange::new, (&config,), exchange),
    ensures
        ({
            &&& exchange matches Exchange::Reading(reader)
            &&& reader@.headers.len() == 0
            &&& reader@.stage is Headers
            &&& reader@.max_header_bytes == config.max_header_bytes
            &&& reader@.max_body_bytes == config.max_body_bytes
        }),
{
}

}
