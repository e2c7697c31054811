//! The loops that move datagrams between the socket and the connections.
//!
//! A loop is a machine: its phase names the work that comes next, and the
//! outcome of that work is the event that decides the phase after it. The
//! driver of the machine does the work.
use quiche::Error;
use vstd::prelude::*;

use crate::server::RouteKind;

verus! {

/// How sending or receiving a datagram ended.
#[derive(Clone, Copy, Debug, PartialEq, Eq, Structural)]
pub enum IoOutcome {
    /// A datagram was sent or received.
    Done,
    /// The socket has no datagram, or no room for one.
    WouldBlock,
    /// The socket failed.
    Failed,
}

/// How asking a connection for its next packet ended.
#[derive(Clone, Copy, Debug, PartialEq, Eq, Structural)]
pub enum Produced {
    /// There is a packet to send.
    Packet,
    /// There is nothing to send.
    Nothing,
    /// The connection failed.
    Failed,
}

impl Produced {
    /// Reads the answer of `Connection::send`.
    pub fn from_answer(res: Result<usize, Error>) -> (produced: Produced)
        ensures
            produced == match res {
                Ok(_) => Produced::Packet,
                Err(e) => if e is Done {
                    Produced::Nothing
                } else {
                    Produced::Failed
                },
            },
    {
        match res {
            Ok(_) => Produced::Packet,
            Err(Error::Done) => Produced::Nothing,
            Err(_) => Produced::Failed,
        }
    }
}

/// What comes after the first datagram of a client was sent.
#[derive(Clone, Copy, Debug, PartialEq, Eq, Structural)]
pub enum FirstSend {
    /// The datagram is on its way: the client is connecting.
    Sent,
    /// The socket had no room: send it again.
    Again,
    /// The client cannot connect.
    Panic,
}

impl FirstSend {
    /// Decides what comes after the first datagram was sent: it is sent again
    /// until the socket has room for it.
    pub fn after(outcome: IoOutcome) -> (next: FirstSend)
        ensures
            next == match outcome {
                IoOutcome::Done => FirstSend::Sent,
                IoOutcome::WouldBlock => FirstSend::Again,
                IoOutcome::Failed => FirstSend::Panic,
            },
    {
        match outcome {
            IoOutcome::Done => FirstSend::Sent,
            IoOutcome::WouldBlock => FirstSend::Again,
            IoOutcome::Failed => FirstSend::Panic,
        }
    }
}

/// The work that comes next in the loop of a client.
#[derive(Clone, Copy, Debug, PartialEq, Eq, Structural)]
pub enum ClientPhase {
    /// Wait until the socket is ready or the connection's timeout is over.
    Poll,
    /// Tell the connection that its timeout is over.
    ExpireTimers,
    /// Receive a datagram.
    Receive,
    /// Hand the datagram to the connection.
    Process,
    /// Ask whether the connection is closed, before anything is written.
    CheckBeforeWrite,
    /// Ask the connection for a packet.
    Produce,
    /// Send the packet.
    Transmit,
    /// Close the connection, which failed.
    Abort,
    /// Ask whether the connection is closed, now that all was written.
    CheckAfterWrite,
    /// The loop is over: the connection is closed.
    Exit,
    /// The loop is over: waiting failed.
    PollFailed,
    /// The loop cannot go on: the socket failed.
    Panic,
}

/// How the work of a phase of a client's loop ended.
#[derive(Clone, Copy, Debug, PartialEq, Eq, Structural)]
pub enum ClientEvent {
    /// The wait is over; `idle` if nothing happened on the socket.
    Polled { idle: bool },
    PollFailed,
    TimersExpired,
    Received(IoOutcome),
    /// The connection has seen the datagram, and may have refused it.
    Processed,
    /// Whether the connection is closed.
    Closed(bool),
    Produced(Produced),
    Transmitted(IoOutcome),
    Aborted,
}

/// The phase of a client's loop after `event` in `phase`. An event that is no
/// outcome of the phase's work changes nothing.
pub open spec fn client_next(phase: ClientPhase, event: ClientEvent) -> ClientPhase {
    match (phase, event) {
        (ClientPhase::Poll, ClientEvent::Polled { idle: true }) => ClientPhase::ExpireTimers,
        (ClientPhase::Poll, ClientEvent::Polled { idle: false }) => ClientPhase::Receive,
        (ClientPhase::Poll, ClientEvent::PollFailed) => ClientPhase::PollFailed,
        (ClientPhase::ExpireTimers, ClientEvent::TimersExpired) => ClientPhase::CheckBeforeWrite,
        (ClientPhase::Receive, ClientEvent::Received(IoOutcome::Done)) => ClientPhase::Process,
        (
            ClientPhase::Receive,
            ClientEvent::Received(IoOutcome::WouldBlock),
        ) => ClientPhase::CheckBeforeWrite,
        (ClientPhase::Receive, ClientEvent::Received(IoOutcome::Failed)) => ClientPhase::Panic,
        (ClientPhase::Process, ClientEvent::Processed) => ClientPhase::Receive,
        (ClientPhase::CheckBeforeWrite, ClientEvent::Closed(true)) => ClientPhase::Exit,
        (ClientPhase::CheckBeforeWrite, ClientEvent::Closed(false)) => ClientPhase::Produce,
        (ClientPhase::Produce, ClientEvent::Produced(Produced::Packet)) => ClientPhase::Transmit,
        (
            ClientPhase::Produce,
            ClientEvent::Produced(Produced::Nothing),
        ) => ClientPhase::CheckAfterWrite,
        (ClientPhase::Produce, ClientEvent::Produced(Produced::Failed)) => ClientPhase::Abort,
        (ClientPhase::Transmit, ClientEvent::Transmitted(IoOutcome::Done)) => ClientPhase::Produce,
        (
            ClientPhase::Transmit,
            ClientEvent::Transmitted(IoOutcome::WouldBlock),
        ) => ClientPhase::CheckAfterWrite,
        (ClientPhase::Transmit, ClientEvent::Transmitted(IoOutcome::Failed)) => ClientPhase::Panic,
        (ClientPhase::Abort, ClientEvent::Aborted) => ClientPhase::CheckAfterWrite,
        (ClientPhase::CheckAfterWrite, ClientEvent::Closed(true)) => ClientPhase::Exit,
        (ClientPhase::CheckAfterWrite, ClientEvent::Closed(false)) => ClientPhase::Poll,
        _ => phase,
    }
}

/// Decides the next phase of a client's loop.
pub fn client_step(phase: ClientPhase, event: ClientEvent) -> (next: ClientPhase)
    ensures
        next == client_next(phase, event),
{
    match event {
        ClientEvent::Polled { idle } => match phase {
            ClientPhase::Poll => if idle {
                ClientPhase::ExpireTimers
            } else {
                ClientPhase::Receive
            },
            _ => phase,
        },
        ClientEvent::PollFailed => match phase {
            ClientPhase::Poll => ClientPhase::PollFailed,
            _ => phase,
        },
        ClientEvent::TimersExpired => match phase {
            ClientPhase::ExpireTimers => ClientPhase::CheckBeforeWrite,
            _ => phase,
        },
        ClientEvent::Received(outcome) => match phase {
            ClientPhase::Receive => match outcome {
                IoOutcome::Done => ClientPhase::Process,
                IoOutcome::WouldBlock => ClientPhase::CheckBeforeWrite,
                IoOutcome::Failed => ClientPhase::Panic,
            },
            _ => phase,
        },
        ClientEvent::Processed => match phase {
            ClientPhase::Process => ClientPhase::Receive,
            _ => phase,
        },
        ClientEvent::Closed(closed) => match phase {
            ClientPhase::CheckBeforeWrite => if closed {
                ClientPhase::Exit
            } else {
                ClientPhase::Produce
            },
            ClientPhase::CheckAfterWrite => if closed {
                ClientPhase::Exit
            } else {
                ClientPhase::Poll
            },
            _ => phase,
        },
        ClientEvent::Produced(produced) => match phase {
            ClientPhase::Produce => match produced {
                Produced::Packet => ClientPhase::Transmit,
                Produced::Nothing => ClientPhase::CheckAfterWrite,
                Produced::Failed => ClientPhase::Abort,
            },
            _ => phase,
        },
        ClientEvent::Transmitted(outcome) => match phase {
            ClientPhase::Transmit => match outcome {
                IoOutcome::Done => ClientPhase::Produce,
                IoOutcome::WouldBlock => ClientPhase::CheckAfterWrite,
                IoOutcome::Failed => ClientPhase::Panic,
            },
            _ => phase,
        },
        ClientEvent::Aborted => match phase {
            ClientPhase::Abort => ClientPhase::CheckAfterWrite,
            _ => phase,
        },
    }
}

/// A client's loop is over.
pub open spec fn client_over(phase: ClientPhase) -> bool {
    phase is Exit || phase is PollFailed || phase is Panic
}

/// A client's loop ends only when the connection was found closed, when waiting
/// failed or when the socket failed; once over it stays over.
pub proof fn client_loop_ends_for_a_reason(phase: ClientPhase, event: ClientEvent)
    ensures
        client_over(phase) ==> client_next(phase, event) == phase,
        !client_over(phase) && client_next(phase, event) is Exit ==> event == ClientEvent::Closed(
            true,
        ),
        !client_over(phase) && client_next(phase, event) is PollFailed ==> event
            is PollFailed,
        !client_over(phase) && client_next(phase, event) is Panic ==> event
            == ClientEvent::Received(IoOutcome::Failed) || event == ClientEvent::Transmitted(
            IoOutcome::Failed,
        ),
{
}

/// A client reads until the socket would block: it stops receiving only then,
/// or when the socket fails.
pub proof fn client_drains_the_socket(phase: ClientPhase, event: ClientEvent)
    requires
        phase is Receive || phase is Process,
        !(client_next(phase, event) is Receive),
        !(client_next(phase, event) is Process),
    ensures
        event == ClientEvent::Received(IoOutcome::WouldBlock) || event == ClientEvent::Received(
            IoOutcome::Failed,
        ),
{
}

/// A client asks whether the connection is closed before it writes, and again
/// before it waits: writing starts, and waiting starts again, only after the
/// answer was no.
pub proof fn client_writes_and_waits_only_while_open(phase: ClientPhase, event: ClientEvent)
    ensures
        client_next(phase, event) is Produce && !(phase is Produce) && !(phase is Transmit)
            ==> event == ClientEvent::Closed(false),
        client_next(phase, event) is Poll && !(phase is Poll) ==> event == ClientEvent::Closed(
            false,
        ),
{
}

/// Every datagram that a client receives is handed to its connection, and what
/// the connection has to send is sent: a packet is handed to the socket, the
/// connection is asked again after that until it has nothing more, and is closed
/// if it fails.
pub proof fn client_moves_every_datagram()
    ensures
        client_next(ClientPhase::Receive, ClientEvent::Received(IoOutcome::Done)) is Process,
        client_next(ClientPhase::Process, ClientEvent::Processed) is Receive,
        client_next(ClientPhase::Produce, ClientEvent::Produced(Produced::Packet)) is Transmit,
        client_next(ClientPhase::Transmit, ClientEvent::Transmitted(IoOutcome::Done)) is Produce,
        client_next(ClientPhase::Produce, ClientEvent::Produced(Produced::Failed)) is Abort,
{
}

/// A client reads when something happened on the socket, lets timers expire when
/// nothing did, and then asks whether the connection is closed. It writes while
/// the connection is open, asks again when nothing more can be written, and
/// waits again while the connection is open.
pub proof fn client_goes_through_its_round(idle: bool, closed: bool)
    ensures
        ({
            let next = client_next(ClientPhase::Poll, ClientEvent::Polled { idle });
            if idle {
                next is ExpireTimers
            } else {
                next is Receive
            }
        }),
        client_next(ClientPhase::ExpireTimers, ClientEvent::TimersExpired) is CheckBeforeWrite,
        client_next(
            ClientPhase::Receive,
            ClientEvent::Received(IoOutcome::WouldBlock),
        ) is CheckBeforeWrite,
        ({
            let next = client_next(ClientPhase::CheckBeforeWrite, ClientEvent::Closed(closed));
            if closed {
                next is Exit
            } else {
                next is Produce
            }
        }),
        client_next(
            ClientPhase::Produce,
            ClientEvent::Produced(Produced::Nothing),
        ) is CheckAfterWrite,
        client_next(
            ClientPhase::Transmit,
            ClientEvent::Transmitted(IoOutcome::WouldBlock),
        ) is CheckAfterWrite,
        client_next(ClientPhase::Abort, ClientEvent::Aborted) is CheckAfterWrite,
        ({
            let next = client_next(ClientPhase::CheckAfterWrite, ClientEvent::Closed(closed));
            if closed {
                next is Exit
            } else {
                next is Poll
            }
        }),
{
}

/// A client stops exactly when its connection is found closed, or when waiting or
/// the socket fails.
pub proof fn client_stops_only_for_cause(phase: ClientPhase, event: ClientEvent)
    ensures
        client_next(phase, event) is Exit <==> phase is Exit || ((phase is CheckBeforeWrite || phase
            is CheckAfterWrite) && event == ClientEvent::Closed(true)),
        client_next(phase, event) is PollFailed <==> phase is PollFailed || (phase is Poll && event
            is PollFailed),
        client_next(phase, event) is Panic <==> phase is Panic || (phase is Receive && event
            == ClientEvent::Received(IoOutcome::Failed)) || (phase is Transmit && event
            == ClientEvent::Transmitted(IoOutcome::Failed)),
{
}

/// Only the outcome of its own work takes a client from one phase to another.
pub proof fn client_moves_by_its_own_work_only(phase: ClientPhase, event: ClientEvent)
    requires
        client_next(phase, event) != phase,
    ensures
        match phase {
            ClientPhase::Poll => event is Polled || event is PollFailed,
            ClientPhase::ExpireTimers => event is TimersExpired,
            ClientPhase::Receive => event is Received,
            ClientPhase::Process => event is Processed,
            ClientPhase::CheckBeforeWrite => event is Closed,
            ClientPhase::Produce => event is Produced,
            ClientPhase::Transmit => event is Transmitted,
            ClientPhase::Abort => event is Aborted,
            ClientPhase::CheckAfterWrite => event is Closed,
            _ => false,
        },
{
}

/// The work that comes next in the loop of a server. The number in the phases
/// that write is the position of the connection that is written.
#[derive(Clone, Copy, Debug, PartialEq, Eq, Structural)]
pub enum ServerPhase {
    /// Wait until the socket is ready or the shortest timeout is over.
    Poll,
    /// Tell every connection that its timeout is over.
    ExpireTimers,
    /// Receive a datagram.
    Receive,
    /// Decide what is to be done with the datagram.
    Route,
    /// Send the reply to the datagram.
    Reply,
    /// Open a connection for the datagram.
    Open,
    /// Hand the datagram to its connection.
    Deliver,
    /// Ask the connection for a packet.
    Produce(usize),
    /// Send the packet.
    Transmit(usize),
    /// Close the connection, which failed.
    Abort(usize),
    /// Give up the connections that nobody needs.
    Collect,
    /// The loop cannot go on.
    Panic,
}

/// How the work of a phase of a server's loop ended.
#[derive(Clone, Copy, Debug, PartialEq, Eq, Structural)]
pub enum ServerEvent {
    /// The wait is over; `idle` if nothing happened on the socket.
    Polled { idle: bool },
    PollFailed,
    TimersExpired,
    Received(IoOutcome),
    Routed(RouteKind),
    Replied(IoOutcome),
    /// Whether the connection could be opened.
    Opened(bool),
    /// The connection has seen the datagram, and may have refused it.
    Delivered,
    Produced(Produced),
    Transmitted(IoOutcome),
    Aborted,
    /// Whether every connection had a status.
    Collected(bool),
}

/// Writing starts at the first of `clients` connections, if there is one.
pub open spec fn first_write(clients: nat) -> ServerPhase {
    if clients > 0 {
        ServerPhase::Produce(0)
    } else {
        ServerPhase::Collect
    }
}

/// After the connection at position `i`, the next of `clients` connections is
/// written, if there is one.
pub open spec fn next_write(i: usize, clients: nat) -> ServerPhase {
    if i + 1 < clients {
        ServerPhase::Produce((i + 1) as usize)
    } else {
        ServerPhase::Collect
    }
}

/// The phase of a server's loop after `event` in `phase`, with `clients`
/// connections. An event that is no outcome of the phase's work changes nothing.
pub open spec fn server_next(phase: ServerPhase, event: ServerEvent, clients: nat) -> ServerPhase {
    match (phase, event) {
        (ServerPhase::Poll, ServerEvent::Polled { idle: true }) => ServerPhase::ExpireTimers,
        (ServerPhase::Poll, ServerEvent::Polled { idle: false }) => ServerPhase::Receive,
        (ServerPhase::Poll, ServerEvent::PollFailed) => ServerPhase::Panic,
        (ServerPhase::ExpireTimers, ServerEvent::TimersExpired) => first_write(clients),
        (ServerPhase::Receive, ServerEvent::Received(IoOutcome::Done)) => ServerPhase::Route,
        (ServerPhase::Receive, ServerEvent::Received(IoOutcome::WouldBlock)) => first_write(
            clients,
        ),
        (ServerPhase::Receive, ServerEvent::Received(IoOutcome::Failed)) => ServerPhase::Panic,
        (ServerPhase::Route, ServerEvent::Routed(RouteKind::Discard)) => ServerPhase::Receive,
        (ServerPhase::Route, ServerEvent::Routed(RouteKind::Reply)) => ServerPhase::Reply,
        (ServerPhase::Route, ServerEvent::Routed(RouteKind::Open)) => ServerPhase::Open,
        (ServerPhase::Route, ServerEvent::Routed(RouteKind::Deliver)) => ServerPhase::Deliver,
        (ServerPhase::Reply, ServerEvent::Replied(IoOutcome::Done)) => ServerPhase::Receive,
        (ServerPhase::Reply, ServerEvent::Replied(IoOutcome::WouldBlock)) => ServerPhase::Receive,
        (ServerPhase::Reply, ServerEvent::Replied(IoOutcome::Failed)) => ServerPhase::Panic,
        (ServerPhase::Open, ServerEvent::Opened(true)) => ServerPhase::Deliver,
        (ServerPhase::Open, ServerEvent::Opened(false)) => ServerPhase::Panic,
        (ServerPhase::Deliver, ServerEvent::Delivered) => ServerPhase::Receive,
        (
            ServerPhase::Produce(i),
            ServerEvent::Produced(Produced::Packet),
        ) => ServerPhase::Transmit(i),
        (ServerPhase::Produce(i), ServerEvent::Produced(Produced::Nothing)) => next_write(
            i,
            clients,
        ),
        (ServerPhase::Produce(i), ServerEvent::Produced(Produced::Failed)) => ServerPhase::Abort(i),
        (
            ServerPhase::Transmit(i),
            ServerEvent::Transmitted(IoOutcome::Done),
        ) => ServerPhase::Produce(i),
        (ServerPhase::Transmit(i), ServerEvent::Transmitted(IoOutcome::WouldBlock)) => next_write(
            i,
            clients,
        ),
        (
            ServerPhase::Transmit(_),
            ServerEvent::Transmitted(IoOutcome::Failed),
        ) => ServerPhase::Panic,
        (ServerPhase::Abort(i), ServerEvent::Aborted) => next_write(i, clients),
        (ServerPhase::Collect, ServerEvent::Collected(true)) => ServerPhase::Poll,
        (ServerPhase::Collect, ServerEvent::Collected(false)) => ServerPhase::Panic,
        _ => phase,
    }
}

fn start_writing(clients: usize) -> (phase: ServerPhase)
    ensures
        phase == first_write(clients as nat),
{
    if clients > 0 {
        ServerPhase::Produce(0)
    } else {
        ServerPhase::Collect
    }
}

fn continue_writing(i: usize, clients: usize) -> (phase: ServerPhase)
    ensures
        phase == next_write(i, clients as nat),
{
    if i < clients && i + 1 < clients {
        ServerPhase::Produce(i + 1)
    } else {
        ServerPhase::Collect
    }
}

/// Decides the next phase of a server's loop, with `clients` connections.
pub fn server_step(phase: ServerPhase, event: ServerEvent, clients: usize) -> (next: ServerPhase)
    ensures
        next == server_next(phase, event, clients as nat),
{
    match phase {
        ServerPhase::Poll => match event {
            ServerEvent::Polled { idle } => if idle {
                ServerPhase::ExpireTimers
            } else {
                ServerPhase::Receive
            },
            ServerEvent::PollFailed => ServerPhase::Panic,
            _ => phase,
        },
        ServerPhase::ExpireTimers => match event {
            ServerEvent::TimersExpired => start_writing(clients),
            _ => phase,
        },
        ServerPhase::Receive => match event {
            ServerEvent::Received(IoOutcome::Done) => ServerPhase::Route,
            ServerEvent::Received(IoOutcome::WouldBlock) => start_writing(clients),
            ServerEvent::Received(IoOutcome::Failed) => ServerPhase::Panic,
            _ => phase,
        },
        ServerPhase::Route => match event {
            ServerEvent::Routed(RouteKind::Discard) => ServerPhase::Receive,
            ServerEvent::Routed(RouteKind::Reply) => ServerPhase::Reply,
            ServerEvent::Routed(RouteKind::Open) => ServerPhase::Open,
            ServerEvent::Routed(RouteKind::Deliver) => ServerPhase::Deliver,
            _ => phase,
        },
        ServerPhase::Reply => match event {
            ServerEvent::Replied(IoOutcome::Done) => ServerPhase::Receive,
            ServerEvent::Replied(IoOutcome::WouldBlock) => ServerPhase::Receive,
            ServerEvent::Replied(IoOutcome::Failed) => ServerPhase::Panic,
            _ => phase,
        },
        ServerPhase::Open => match event {
            ServerEvent::Opened(opened) => if opened {
                ServerPhase::Deliver
            } else {
                ServerPhase::Panic
            },
            _ => phase,
        },
        ServerPhase::Deliver => match event {
            ServerEvent::Delivered => ServerPhase::Receive,
            _ => phase,
        },
        ServerPhase::Produce(i) => match event {
            ServerEvent::Produced(Produced::Packet) => ServerPhase::Transmit(i),
            ServerEvent::Produced(Produced::Nothing) => continue_writing(i, clients),
            ServerEvent::Produced(Produced::Failed) => ServerPhase::Abort(i),
            _ => phase,
        },
        ServerPhase::Transmit(i) => match event {
            ServerEvent::Transmitted(IoOutcome::Done) => ServerPhase::Produce(i),
            ServerEvent::Transmitted(IoOutcome::WouldBlock) => continue_writing(i, clients),
            ServerEvent::Transmitted(IoOutcome::Failed) => ServerPhase::Panic,
            _ => phase,
        },
        ServerPhase::Abort(i) => match event {
            ServerEvent::Aborted => continue_writing(i, clients),
            _ => phase,
        },
        ServerPhase::Collect => match event {
            ServerEvent::Collected(consistent) => if consistent {
                ServerPhase::Poll
            } else {
                ServerPhase::Panic
            },
            _ => phase,
        },
        ServerPhase::Panic => phase,
    }
}

/// The server is busy with the datagrams that the socket has.
pub open spec fn server_reading(phase: ServerPhase) -> bool {
    phase is Receive || phase is Route || phase is Reply || phase is Open || phase is Deliver
}

/// The position of the connection that the server writes, if it writes.
pub open spec fn written_client(phase: ServerPhase) -> Option<usize> {
    match phase {
        ServerPhase::Produce(i) => Some(i),
        ServerPhase::Transmit(i) => Some(i),
        ServerPhase::Abort(i) => Some(i),
        _ => None,
    }
}

/// A server reads until the socket has no more datagrams: it goes on to write
/// only then, and a reply that the socket has no room for does not stop it.
/// Otherwise it keeps reading, or stops because the socket or the opening of a
/// connection failed.
pub proof fn server_drains_the_socket(phase: ServerPhase, event: ServerEvent, clients: nat)
    requires
        server_reading(phase),
        !server_reading(server_next(phase, event, clients)),
    ensures
        server_next(phase, event, clients) is Panic || (event == ServerEvent::Received(
            IoOutcome::WouldBlock,
        ) && server_next(phase, event, clients) == first_write(clients)),
{
}

/// A server writes its connections one after the other: it leaves a connection
/// only for the next one, or for the collection after the last one, and only
/// when the connection had nothing more to send, was closed for having failed,
/// or the socket had no room.
pub proof fn server_writes_every_client(
    phase: ServerPhase,
    event: ServerEvent,
    clients: nat,
    i: usize,
)
    requires
        written_client(phase) == Some(i),
        written_client(server_next(phase, event, clients)) != Some(i),
    ensures
        server_next(phase, event, clients) is Panic || (server_next(phase, event, clients)
            == next_write(i, clients) && (event == ServerEvent::Produced(Produced::Nothing) || event
            is Aborted || event == ServerEvent::Transmitted(IoOutcome::WouldBlock))),
{
}

/// A server writes its connections one after the other, without leaving one out:
/// after the connection at position `i` comes the one at position `i + 1`, and
/// after the last one the collection. It leaves a connection only when that had
/// nothing more to send, was closed for having failed, or the socket had no room;
/// only a socket that fails stops it.
pub proof fn server_goes_on_with_the_next_client(
    phase: ServerPhase,
    event: ServerEvent,
    clients: nat,
    i: usize,
)
    requires
        clients <= usize::MAX,
        i < clients,
        phase == ServerPhase::Produce(i) || phase == ServerPhase::Transmit(i) || phase
            == ServerPhase::Abort(i),
    ensures
        ({
            let next = server_next(phase, event, clients);
            let stays = next == ServerPhase::Produce(i) || next == ServerPhase::Transmit(i) || next
                == ServerPhase::Abort(i);
            let done = (phase is Produce && event == ServerEvent::Produced(Produced::Nothing)) || (
            phase is Abort && event is Aborted) || (phase is Transmit && event
                == ServerEvent::Transmitted(IoOutcome::WouldBlock));
            let broken = phase is Transmit && event == ServerEvent::Transmitted(IoOutcome::Failed);
            &&& done && i + 1 < clients ==> next is Produce && next->Produce_0 == i + 1
            &&& done && i + 1 == clients ==> next is Collect
            &&& broken ==> next is Panic
            &&& !done && !broken ==> stays
        }),
{
}

/// What a connection has to send is sent: a packet is handed to the socket, the
/// same connection is asked again after that, and a connection that fails is
/// closed.
pub proof fn server_sends_what_a_connection_has(i: usize, clients: nat)
    ensures
        server_next(
            ServerPhase::Produce(i),
            ServerEvent::Produced(Produced::Packet),
            clients,
        ) == ServerPhase::Transmit(i),
        server_next(
            ServerPhase::Transmit(i),
            ServerEvent::Transmitted(IoOutcome::Done),
            clients,
        ) == ServerPhase::Produce(i),
        server_next(
            ServerPhase::Produce(i),
            ServerEvent::Produced(Produced::Failed),
            clients,
        ) == ServerPhase::Abort(i),
{
}

/// Writing starts at the first connection, once the timers have expired or the
/// socket has no more datagrams; without connections it is over at once.
pub proof fn server_starts_to_write_at_the_first_client(
    phase: ServerPhase,
    event: ServerEvent,
    clients: nat,
)
    requires
        (phase is ExpireTimers && event is TimersExpired) || (phase is Receive && event
            == ServerEvent::Received(IoOutcome::WouldBlock)),
    ensures
        clients > 0 ==> server_next(phase, event, clients) is Produce && server_next(
            phase,
            event,
            clients,
        )->Produce_0 == 0,
        clients == 0 ==> server_next(phase, event, clients) is Collect,
{
}

/// `phases` are the phases of a server's loop with `clients` connections that
/// follow one another by `events`, the collection coming at the end at most.
pub open spec fn server_run(
    phases: Seq<ServerPhase>,
    events: Seq<ServerEvent>,
    clients: nat,
) -> bool {
    &&& phases.len() == events.len() + 1
    &&& forall|k: int|
        0 <= k < events.len() ==> {
            &&& !(phases[k] is Collect)
            &&& phases[k + 1] == server_next(phases[k], #[trigger] events[k], clients)
        }
}

proof fn writing_goes_on(
    phases: Seq<ServerPhase>,
    events: Seq<ServerEvent>,
    clients: nat,
    k: int,
)
    requires
        0 < clients <= usize::MAX,
        server_run(phases, events, clients),
        phases[0] == ServerPhase::Produce(0),
        0 <= k < phases.len(),
    ensures
        phases[k] is Collect || phases[k] is Panic || (written_client(phases[k]) matches Some(i)
            && i < clients),
    decreases k,
{
    if k > 0 {
        writing_goes_on(phases, events, clients, k - 1);
        let event = events[k - 1];
        match written_client(phases[k - 1]) {
            Some(i) => server_goes_on_with_the_next_client(phases[k - 1], event, clients, i),
            None => {},
        }
    }
}

proof fn earlier_clients_were_written(
    phases: Seq<ServerPhase>,
    events: Seq<ServerEvent>,
    clients: nat,
    k: int,
    i: usize,
) -> (m: int)
    requires
        i < clients <= usize::MAX,
        server_run(phases, events, clients),
        phases[0] == ServerPhase::Produce(0),
        0 <= k < phases.len(),
        phases[k] is Collect || (written_client(phases[k]) matches Some(p) && i <= p),
    ensures
        0 <= m <= k,
        phases[m] == ServerPhase::Produce(i),
    decreases k,
{
    if k == 0 {
        0
    } else {
        writing_goes_on(phases, events, clients, k - 1);
        let event = events[k - 1];
        match written_client(phases[k - 1]) {
            Some(p) => {
                server_goes_on_with_the_next_client(phases[k - 1], event, clients, p);
                if i <= p {
                    earlier_clients_were_written(phases, events, clients, k - 1, i)
                } else {
                    k
                }
            },
            None => {
                assert(phases[k] is Panic);
                0
            },
        }
    }
}

/// In every round each connection is asked for what it has to send: whatever
/// happens from the start of writing to the collection, there is a time at which
/// the connection at position `i` is asked.
pub proof fn every_client_is_asked_in_every_round(
    phases: Seq<ServerPhase>,
    events: Seq<ServerEvent>,
    clients: nat,
    i: usize,
)
    requires
        i < clients <= usize::MAX,
        server_run(phases, events, clients),
        phases[0] == ServerPhase::Produce(0),
        phases.last() is Collect,
    ensures
        exists|m: int| 0 <= m < phases.len() && #[trigger] phases[m] == ServerPhase::Produce(i),
{
    let m = earlier_clients_were_written(phases, events, clients, phases.len() - 1, i);
    assert(phases[m] == ServerPhase::Produce(i));
}

/// Every datagram is dealt with before the next one is received: it is dropped,
/// replied to, handed to its connection, or a connection is opened for it and
/// gets it first. A reply that is sent, or that the socket has no room for, does
/// not stop reception.
pub proof fn server_deals_with_every_datagram(kind: RouteKind, clients: nat)
    ensures
        server_next(ServerPhase::Receive, ServerEvent::Received(IoOutcome::Done), clients) is Route,
        ({
            let next = server_next(ServerPhase::Route, ServerEvent::Routed(kind), clients);
            match kind {
                RouteKind::Discard => next is Receive,
                RouteKind::Reply => next is Reply,
                RouteKind::Open => next is Open,
                RouteKind::Deliver => next is Deliver,
            }
        }),
        server_next(ServerPhase::Open, ServerEvent::Opened(true), clients) is Deliver,
        server_next(ServerPhase::Deliver, ServerEvent::Delivered, clients) is Receive,
        server_next(ServerPhase::Reply, ServerEvent::Replied(IoOutcome::Done), clients) is Receive,
        server_next(
            ServerPhase::Reply,
            ServerEvent::Replied(IoOutcome::WouldBlock),
            clients,
        ) is Receive,
{
}

/// A server reads when something happened on the socket, and lets timers expire
/// when nothing did; it waits again after it has collected.
pub proof fn server_reads_or_lets_timers_expire(idle: bool, clients: nat)
    ensures
        idle ==> server_next(ServerPhase::Poll, ServerEvent::Polled { idle }, clients)
            is ExpireTimers,
        !idle ==> server_next(ServerPhase::Poll, ServerEvent::Polled { idle }, clients) is Receive,
        server_next(ServerPhase::Collect, ServerEvent::Collected(true), clients) is Poll,
{
}

/// A server stops exactly when waiting, the socket or the opening of a connection
/// fails, or when a connection has no status.
pub proof fn server_stops_only_on_failure(phase: ServerPhase, event: ServerEvent, clients: nat)
    ensures
        server_next(phase, event, clients) is Panic <==> {
            ||| phase is Panic
            ||| phase is Poll && event is PollFailed
            ||| phase is Receive && event == ServerEvent::Received(IoOutcome::Failed)
            ||| phase is Reply && event == ServerEvent::Replied(IoOutcome::Failed)
            ||| phase is Open && event == ServerEvent::Opened(false)
            ||| phase is Transmit && event == ServerEvent::Transmitted(IoOutcome::Failed)
            ||| phase is Collect && event == ServerEvent::Collected(false)
        },
{
}

/// Only the outcome of its own work takes a server from one phase to another.
pub proof fn server_moves_by_its_own_work_only(phase: ServerPhase, event: ServerEvent, clients: nat)
    requires
        server_next(phase, event, clients) != phase,
    ensures
        match phase {
            ServerPhase::Poll => event is Polled || event is PollFailed,
            ServerPhase::ExpireTimers => event is TimersExpired,
            ServerPhase::Receive => event is Received,
            ServerPhase::Route => event is Routed,
            ServerPhase::Reply => event is Replied,
            ServerPhase::Open => event is Opened,
            ServerPhase::Deliver => event is Delivered,
            ServerPhase::Produce(_) => event is Produced,
            ServerPhase::Transmit(_) => event is Transmitted,
            ServerPhase::Abort(_) => event is Aborted,
            ServerPhase::Collect => event is Collected,
            ServerPhase::Panic => false,
        },
{
}

/// The position that a server writes at is that of a connection that it has.
pub proof fn server_writes_only_clients(phase: ServerPhase, event: ServerEvent, clients: nat)
    requires
        clients <= usize::MAX,
        written_client(phase) matches Some(i) ==> i < clients,
    ensures
        written_client(server_next(phase, event, clients)) matches Some(i) ==> i < clients,
{
}

/// A server waits again only after it has collected, so that every round ends
/// with a collection; and when it cannot go on, it stays so.
pub proof fn server_collects_every_round(phase: ServerPhase, event: ServerEvent, clients: nat)
    ensures
        server_next(phase, event, clients) is Poll && !(phase is Poll) ==> phase is Collect && event
            == ServerEvent::Collected(true),
        phase is Panic ==> server_next(phase, event, clients) is Panic,
{
}

} // verus!
