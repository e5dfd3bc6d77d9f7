//! One connection, from the moment it was accepted.
//!
//! The kernel is asked who is on a connection before anything else is done
//! with it: nothing a request carries can establish who sent it. Then the read
//! deadline is set, and only then is the first byte read. The caller that was
//! read at the start is the one that everything on the connection is for.
use crate::caller::{self, Caller, PeerCredentials};
use crate::exchange::{self, Event, Exchange};
use crate::handler::Handler;
use crate::http::{self, ReadStage, ServeOutcome};
use crate::io::IoError;
use crate::server::ServerConfig;
use crate::socket::{self, Accepted, Identified};
use vstd::prelude::*;

verus! {

/// A connection, by what it is waiting for.
pub enum Connection {
    /// For the kernel's answer about who is on it.
    Accepted {
        /// What takes that answer.
        accepted: Accepted,
        /// What is to follow.
        exchange: Exchange,
    },
    /// For the read deadline to be set on the stream. Chosen, not inherited
    /// from the listener.
    Identified {
        /// Who is on the connection, and which deadline to set.
        identified: Identified,
        /// What is to follow.
        exchange: Exchange,
    },
    /// For what its exchange is waiting for.
    Serving {
        /// Who is on the connection.
        caller: Caller,
        /// The request and its answer.
        exchange: Exchange,
    },
    /// For nothing any more.
    Over(ServeOutcome),
}

/// What came of the thing that a connection was waiting for.
pub enum ConnectionEvent {
    /// The kernel answered who is on the connection, or why it would not.
    PeerRead(Result<PeerCredentials, String>),
    /// The read deadline was set, or could not be.
    DeadlineSet(Result<(), IoError>),
    /// The thing that the exchange was waiting for came about.
    Exchanged(Event),
}

/// Whether an event is what a connection was waiting for.
pub open spec fn awaits(connection: Connection, event: ConnectionEvent) -> bool {
    match connection {
        Connection::Accepted { .. } => event is PeerRead,
        Connection::Identified { .. } => event is DeadlineSet,
        Connection::Serving { exchange, .. } => event matches ConnectionEvent::Exchanged(what)
            && exchange::awaits(exchange, what),
        Connection::Over(_) => false,
    }
}

/// Whether an exchange is one of which nothing has been read, under the
/// ceilings of a configuration.
pub open spec fn untouched(config: ServerConfig, exchange: Exchange) -> bool {
    exchange matches Exchange::Reading(reader) && reader@ == (http::ReaderView {
        max_header_bytes: config.max_header_bytes as nat,
        max_body_bytes: config.max_body_bytes as nat,
        headers: seq![],
        stage: ReadStage::Headers,
    })
}

/// Whether a connection is one that was just accepted.
pub open spec fn opened(config: ServerConfig, connection: Connection) -> bool {
    connection matches Connection::Accepted { accepted, exchange } && accepted@
        == socket::Deadline::Within(config.request_read_timeout) && untouched(config, exchange)
}

/// Whether whatever call a connection is about to run was let through.
pub open spec fn admitted(handler: Handler, connection: Connection) -> bool {
    match connection {
        Connection::Accepted { exchange, .. } => exchange is Reading,
        Connection::Identified { exchange, .. } => exchange is Reading,
        Connection::Serving { exchange, .. } => exchange::admitted(handler, exchange),
        Connection::Over(_) => true,
    }
}

/// Where a connection stands with its exchange.
pub open spec fn serving(caller: Caller, exchange: Exchange) -> Connection {
    match exchange {
        Exchange::Over(outcome) => Connection::Over(outcome),
        _ => Connection::Serving { caller, exchange },
    }
}

/// Whether a connection is where what came of its exchange leads.
pub open spec fn carried_on(
    handler: Handler,
    caller: Caller,
    before: Exchange,
    event: Event,
    after: Connection,
) -> bool {
    exists|next: Exchange|
        #[trigger] exchange::follows(handler, caller, before, event, next) && after == serving(
            caller,
            next,
        )
}

/// Whether a connection is where an event leads.
pub open spec fn follows(
    handler: Handler,
    before: Connection,
    event: ConnectionEvent,
    after: Connection,
) -> bool {
    match (before, event) {
        (Connection::Accepted { accepted, exchange }, ConnectionEvent::PeerRead(answer)) => {
            after matches Connection::Identified { identified, exchange: next } && identified@ == (
            socket::IdentifiedView { caller: caller::caller_for(answer), deadline: accepted@ })
                && next == exchange
        },
        (Connection::Identified { identified, exchange }, ConnectionEvent::DeadlineSet(set)) => {
            match set {
                Ok(()) => after == (Connection::Serving { caller: identified@.caller, exchange }),
                Err(error) => after == Connection::Over(
                    ServeOutcome::Failed { context: None, error },
                ),
            }
        },
        (Connection::Serving { caller, exchange }, ConnectionEvent::Exchanged(what)) => {
            carried_on(handler, caller, exchange, what, after)
        },
        _ => false,
    }
}

impl Connection {
    /// A connection that was just accepted.
    pub fn new(config: &ServerConfig) -> (connection: Self)
        ensures
            opened(*config, connection),
    {
        Connection::Accepted { accepted: config.accepted(), exchange: Exchange::new(config) }
    }

    /// Take in what came of the thing that the connection was waiting for.
    pub fn step(self, handler: &Handler, event: ConnectionEvent) -> (after: Self)
        requires
            awaits(self, event),
            admitted(*handler, self),
        ensures
            follows(*handler, self, event, after),
            admitted(*handler, after),
    {
        match (self, event) {
            (Connection::Accepted { accepted, exchange }, ConnectionEvent::PeerRead(answer)) => {
                Connection::Identified { identified: accepted.peer_read(answer), exchange }
            },
            (
                Connection::Identified { identified, exchange },
                ConnectionEvent::DeadlineSet(set),
            ) => match identified.deadline_set(set) {
                Ok(caller) => Connection::Serving { caller, exchange },
                Err(error) => Connection::Over(ServeOutcome::unreadable(error)),
            },
            (Connection::Serving { caller, exchange }, ConnectionEvent::Exchanged(what)) => {
                let next = exchange.step(handler, &caller, what);
                assert(exchange::follows(*handler, caller, exchange, what, next));
                match next {
                    Exchange::Over(outcome) => Connection::Over(outcome),
                    next => Connection::Serving { caller, exchange: next },
                }
            },
            (connection, _) => connection,
        }
    }
}

/// Whether a connection went through these states on these events.
pub open spec fn ran(
    handler: Handler,
    config: ServerConfig,
    states: Seq<Connection>,
    events: Seq<ConnectionEvent>,
) -> bool {
    &&& states.len() == events.len() + 1
    &&& opened(config, states[0])
    &&& forall|i: int|
        #![trigger events[i]]
        0 <= i < events.len() ==> awaits(states[i], events[i]) && follows(
            handler,
            states[i],
            events[i],
            states[i + 1],
        )
}

/// Whether a call that an exchange has taken up, and has not yet run, is made
/// for this caller.
pub open spec fn made_for(exchange: Exchange, caller: Caller) -> bool {
    match exchange {
        Exchange::Identifying { call, .. } => call@.caller == caller,
        Exchange::Announcing { running, .. } => running@.call.caller == caller,
        _ => true,
    }
}

/// Whether an event brings something of the request.
pub open spec fn brings_request(event: ConnectionEvent) -> bool {
    event matches ConnectionEvent::Exchanged(what) && (what is LineRead || what is BodyRead)
}

/// What holds of each state of a run: the caller is the one that the kernel
/// named first, and calls are made for it.
spec fn kept(config: ServerConfig, events: Seq<ConnectionEvent>, i: int, state: Connection) -> bool {
    match state {
        Connection::Accepted { accepted, exchange } => i == 0 && opened(config, state),
        Connection::Identified { identified, exchange } => {
            &&& i == 1
            &&& events[0] matches ConnectionEvent::PeerRead(answer)
            &&& identified@.caller == caller::caller_for(answer)
            &&& identified@.deadline == socket::Deadline::Within(config.request_read_timeout)
            &&& untouched(config, exchange)
        },
        Connection::Serving { caller, exchange } => {
            &&& i >= 2
            &&& events[0] matches ConnectionEvent::PeerRead(answer)
            &&& events[1] matches ConnectionEvent::DeadlineSet(Ok(_))
            &&& caller == caller::caller_for(answer)
            &&& made_for(exchange, caller)
        },
        Connection::Over(_) => i >= 2,
    }
}

proof fn kept_throughout(
    handler: Handler,
    config: ServerConfig,
    states: Seq<Connection>,
    events: Seq<ConnectionEvent>,
    i: int,
)
    requires
        ran(handler, config, states, events),
        0 <= i < states.len(),
    ensures
        kept(config, events, i, states[i]),
    decreases i,
{
    if i > 0 {
        kept_throughout(handler, config, states, events, i - 1);
        let before = states[i - 1];
        let event = events[i - 1];
        assert(follows(handler, before, event, states[i]));
        if let Connection::Serving { caller, exchange } = before {
            let what = event->Exchanged_0;
            let next = choose|next: Exchange|
                #[trigger] exchange::follows(handler, caller, exchange, what, next) && states[i]
                    == serving(caller, next);
            if next is Identifying {
                exchange::only_let_through_calls_are_taken_up(
                    handler,
                    caller,
                    exchange,
                    what,
                    next,
                );
            }
        }
    }
}

/// The kernel is asked who is on a connection before anything else: the first
/// thing that comes of a connection is its answer, and no byte of the request
/// is read before it, nor before the read deadline was set.
pub proof fn the_caller_is_read_before_the_request(
    handler: Handler,
    config: ServerConfig,
    states: Seq<Connection>,
    events: Seq<ConnectionEvent>,
    i: int,
)
    requires
        ran(handler, config, states, events),
        0 <= i < events.len(),
        brings_request(events[i]),
    ensures
        i >= 2,
        events[0] is PeerRead,
        events[1] matches ConnectionEvent::DeadlineSet(Ok(_)),
{
    kept_throughout(handler, config, states, events, i);
    assert(awaits(states[i], events[i]));
}

/// A call that is taken up on a connection, and that is put on the record and
/// run, is made for the caller that the kernel named before the request was
/// read, whatever the request says.
pub proof fn calls_are_made_for_the_caller_read_first(
    handler: Handler,
    config: ServerConfig,
    states: Seq<Connection>,
    events: Seq<ConnectionEvent>,
    i: int,
    caller: Caller,
    exchange: Exchange,
)
    requires
        ran(handler, config, states, events),
        0 <= i < states.len(),
        states[i] == (Connection::Serving { caller, exchange }),
    ensures
        events[0] matches ConnectionEvent::PeerRead(answer) && caller == caller::caller_for(answer),
        exchange matches Exchange::Identifying { call, .. } ==> call@.caller == caller,
        exchange matches Exchange::Announcing { running, .. } ==> running@.call.caller == caller,
{
    kept_throughout(handler, config, states, events, i);
}

/// The read deadline that is set on an accepted stream is the configured one,
/// and it is set before the request is read.
pub proof fn the_deadline_is_the_configured_one(
    handler: Handler,
    config: ServerConfig,
    states: Seq<Connection>,
    events: Seq<ConnectionEvent>,
    i: int,
    identified: Identified,
    exchange: Exchange,
)
    requires
        ran(handler, config, states, events),
        0 <= i < states.len(),
        states[i] == (Connection::Identified { identified, exchange }),
    ensures
        identified@.deadline == socket::Deadline::Within(config.request_read_timeout),
        i == 1,
{
    kept_throughout(handler, config, states, events, i);
}

/// A connection goes on with the caller that the kernel named and under the
/// deadline it was accepted with. Once that deadline is set its exchange begins,
/// as it was, and a deadline that could not be set ends the connection with that
/// failure. From then on its exchange decides, and what that ends as is what the
/// connection ends as.
pub proof fn a_connection_step_by_step(
    handler: Handler,
    before: Connection,
    event: ConnectionEvent,
    after: Connection,
)
    requires
        follows(handler, before, event, after),
    ensures
        before matches Connection::Accepted { accepted, exchange } ==> (event
            matches ConnectionEvent::PeerRead(answer) && after matches Connection::Identified {
            identified,
            exchange: next,
        } && identified@.deadline == accepted@ && next == exchange && match answer {
            Ok(peer) => identified@.caller == (Caller::Peer {
                pid: peer.pid,
                uid: peer.uid,
                gid: peer.gid,
            }),
            Err(reason) => identified@.caller == Caller::Unreadable(reason),
        }),
        before matches Connection::Identified { identified, exchange } ==> (event
            matches ConnectionEvent::DeadlineSet(set) && match set {
            Ok(_) => after == (Connection::Serving { caller: identified@.caller, exchange }),
            Err(error) => after == Connection::Over(ServeOutcome::Failed { context: None, error }),
        }),
        before matches Connection::Serving { caller, exchange } ==> (event
            matches ConnectionEvent::Exchanged(what) && exists|next: Exchange|
            #[trigger] exchange::follows(handler, caller, exchange, what, next) && match next {
                Exchange::Over(outcome) => after == Connection::Over(outcome),
                _ => after == (Connection::Serving { caller, exchange: next }),
            }),
        !(before is Over),
{
    if let Connection::Serving { caller, exchange } = before {
        let what = event->Exchanged_0;
        let next = choose|next: Exchange|
            #[trigger] exchange::follows(handler, caller, exchange, what, next) && after == serving(
                caller,
                next,
            );
        assert(exchange::follows(handler, caller, exchange, what, next));
    }
}

/// Which event each connection waits for.
pub proof fn each_connection_waits_for_one_thing(connection: Connection, event: ConnectionEvent)
    ensures
        connection is Accepted ==> (awaits(connection, event) <==> event is PeerRead),
        connection is Identified ==> (awaits(connection, event) <==> event is DeadlineSet),
        connection matches Connection::Serving { exchange, .. } ==> (awaits(connection, event)
            <==> (event matches ConnectionEvent::Exchanged(what) && exchange::awaits(
            exchange,
            what,
        ))),
        connection is Over ==> !awaits(connection, event),
{
}

/// A connection that was just accepted has read nothing, and is held to the
/// ceilings and the deadline of its configuration.
pub proof fn a_fresh_connection_is_as_configured(config: ServerConfig, connection: Connection)
    requires
        opened(config, connection),
    ensures
        ({
            &&& connection matches Connection::Accepted { accepted, exchange }
            &&& accepted@ == socket::Deadline::Within(config.request_read_timeout)
            &&& exchange matches Exchange::Reading(reader)
            &&& reader@.headers.len() == 0
            &&& reader@.stage is Headers
            &&& reader@.max_header_bytes == config.max_header_bytes
            &&& reader@.max_body_bytes == config.max_body_bytes
        }),
{
}

/// A connection may go on where nothing was taken up on it yet, or where the
/// call that its exchange is about to run was let through.
pub proof fn a_connection_runs_what_was_let_through(handler: Handler, connection: Connection)
    ensures
        connection matches Connection::Accepted { exchange, .. } ==> (admitted(handler, connection)
            <==> exchange is Reading),
        connection matches Connection::Identified { exchange, .. } ==> (admitted(
            handler,
            connection,
        ) <==> exchange is Reading),
        connection matches Connection::Serving { exchange, .. } ==> (admitted(handler, connection)
            <==> exchange::admitted(handler, exchange)),
        connection is Over ==> admitted(handler, connection),
{
}

}
