//! The operations of a `quiche::Connection` that this library uses.
//!
//! What a connection answers is a function of the state it is in, and that
//! rests on its peer, on the network and on time. So the answers have names
//! here, and the functions of this library say what they do with each answer.
use quiche::{Connection, Error, RecvInfo};
use vstd::prelude::*;

verus! {

/// `quiche::Connection`, opaque.
#[verifier::external_type_specification]
#[verifier::external_body]
pub struct ExConnection(quiche::Connection);

/// `quiche::RecvInfo`, opaque: where a packet came from.
#[verifier::external_type_specification]
#[verifier::external_body]
pub struct ExRecvInfo(quiche::RecvInfo);

/// Whether the handshake of a connection is complete, as
/// `quiche::Connection::is_established` tells it.
pub uninterp spec fn established(conn: Connection) -> bool;

/// Whether a connection takes early data, as
/// `quiche::Connection::is_in_early_data` tells it.
pub uninterp spec fn early_data(conn: Connection) -> bool;

/// Whether a connection is closed, as `quiche::Connection::is_closed` tells it.
pub uninterp spec fn closed(conn: Connection) -> bool;

/// The connection ID that a connection calls itself by, as
/// `quiche::Connection::source_id` tells it.
pub uninterp spec fn source_id(conn: Connection) -> Seq<u8>;

/// What `quiche::Connection::stream_send` answers.
pub uninterp spec fn send_answer(conn: Connection, stream_id: u64, buf: Seq<u8>, fin: bool) -> Result<usize, Error>;

/// The state of a connection after `quiche::Connection::stream_send`.
pub uninterp spec fn after_stream_send(conn: Connection, stream_id: u64, buf: Seq<u8>, fin: bool) -> Connection;

/// What `quiche::Connection::stream_recv` answers, and what its buffer holds
/// then.
pub uninterp spec fn recv_answer(conn: Connection, stream_id: u64, out: Seq<u8>) -> (Result<(usize, bool), Error>, Seq<u8>);

/// The state of a connection after `quiche::Connection::stream_recv`.
pub uninterp spec fn after_stream_recv(conn: Connection, stream_id: u64, out: Seq<u8>) -> Connection;

/// What `quiche::Connection::close` answers.
pub uninterp spec fn close_answer(conn: Connection, app: bool, err: u64, reason: Seq<u8>) -> Result<(), Error>;

/// The state of a connection after `quiche::Connection::close`.
pub uninterp spec fn after_close(conn: Connection, app: bool, err: u64, reason: Seq<u8>) -> Connection;

/// `quiche::Connection::recv`, given the packet `buf` and where it came from, may
/// answer `res` and bring a connection from the state `before` to `after`. More
/// than one outcome is possible, as it rests on the time too.
pub uninterp spec fn recv_outcome(before: Connection, buf: Seq<u8>, info: RecvInfo, after: Connection, res: Result<usize, Error>) -> bool;

/// The streams that have data or a failure to hand out, as
/// `quiche::Connection::readable` lists them.
pub uninterp spec fn readable_streams(conn: Connection) -> Set<u64>;

/// The streams that take data, as `quiche::Connection::writable` lists them.
pub uninterp spec fn writable_streams(conn: Connection) -> Set<u64>;

/// Trusted: `quiche::Connection::is_established` reads one flag of the
/// connection, which `established` names.
pub assume_specification[ Connection::is_established ](conn: &Connection) -> (answer: bool)
    ensures
        answer == established(*conn),
;

/// Trusted: `quiche::Connection::is_in_early_data` asks the handshake state of
/// the connection. `early_data` names its answer.
pub assume_specification[ Connection::is_in_early_data ](conn: &Connection) -> (answer: bool)
    ensures
        answer == early_data(*conn),
;

/// Trusted: `quiche::Connection::is_closed` reads one flag of the connection,
/// which `closed` names.
pub assume_specification[ Connection::is_closed ](conn: &Connection) -> (answer: bool)
    ensures
        answer == closed(*conn),
;

/// Trusted: `quiche::Connection::stream_send` takes a prefix of `buf`. It
/// answers `Ok(0)` for an empty `buf` only. How much it takes, and whether it
/// fails, rests on the state of the connection and on what it was given;
/// `send_answer` names it, and `after_stream_send` what becomes of the
/// connection, which keeps its source ID.
pub assume_specification[ Connection::stream_send ](
    conn: &mut Connection,
    stream_id: u64,
    buf: &[u8],
    fin: bool,
) -> (res: Result<usize, Error>)
    ensures
        res == send_answer(*old(conn), stream_id, buf@, fin),
        *final(conn) == after_stream_send(*old(conn), stream_id, buf@, fin),
        source_id(*final(conn)) == source_id(*old(conn)),
        res matches Ok(n) ==> n <= buf@.len() && (n == 0 ==> buf@.len() == 0),
;

/// Trusted: `quiche::Connection::stream_recv` writes what it read at the front
/// of `out` and leaves the rest of `out` alone; if it fails, all of it. Which
/// bytes it reads, and whether it fails, rests on the state of the connection,
/// on the stream and on the room in `out`; `recv_answer` names it, and
/// `after_stream_recv` what becomes of the connection, which keeps its source ID.
/// If it answers `Done` it leaves the connection alone.
pub assume_specification[ Connection::stream_recv ](
    conn: &mut Connection,
    stream_id: u64,
    out: &mut [u8],
) -> (res: Result<(usize, bool), Error>)
    ensures
        (res, final(out)@) == recv_answer(*old(conn), stream_id, old(out)@),
        *final(conn) == after_stream_recv(*old(conn), stream_id, old(out)@),
        source_id(*final(conn)) == source_id(*old(conn)),
        res matches Err(e) && e is Done ==> *final(conn) == *old(conn),
        final(out)@.len() == old(out)@.len(),
        match res {
            Ok((n, fin)) => n <= old(out)@.len() && final(out)@.skip(n as int) == old(out)@.skip(
                n as int,
            ),
            Err(e) => final(out)@ == old(out)@,
        },
;

/// Trusted: `quiche::Connection::close` fails in one way only, with `Done`, and
/// does so on a connection that is closed. Whether it fails on another one rests
/// on whether that is closing already; `close_answer` names the answer, and
/// `after_close` what becomes of the connection, which keeps its source ID. If it
/// fails it leaves the connection alone.
pub assume_specification[ Connection::close ](
    conn: &mut Connection,
    app: bool,
    err: u64,
    reason: &[u8],
) -> (res: Result<(), Error>)
    ensures
        res == close_answer(*old(conn), app, err, reason@),
        *final(conn) == after_close(*old(conn), app, err, reason@),
        source_id(*final(conn)) == source_id(*old(conn)),
        res matches Err(e) ==> e is Done && *final(conn) == *old(conn),
        closed(*old(conn)) ==> res is Err,
;

/// Trusted: `quiche::Connection::recv` processes all of `buf` or fails. It may
/// rewrite `buf` in place, and keeps its length; the connection keeps its source
/// ID. It refuses an empty `buf` with
/// `BufferTooShort` and then leaves the connection alone. A connection that is
/// closed swallows any other `buf` unread: whether it takes data, on which
/// streams, and that it is closed, stays as it was. What it answers for another
/// connection, and what becomes of that, rests on the time too; `recv_outcome`
/// names the outcomes that are possible.
pub assume_specification[ Connection::recv ](
    conn: &mut Connection,
    buf: &mut [u8],
    info: RecvInfo,
) -> (res: Result<usize, Error>)
    ensures
        recv_outcome(*old(conn), old(buf)@, info, *final(conn), res),
        source_id(*final(conn)) == source_id(*old(conn)),
        final(buf)@.len() == old(buf)@.len(),
        res matches Ok(n) ==> n == old(buf)@.len(),
        old(buf)@.len() == 0 ==> {
            &&& res matches Err(e) && e is BufferTooShort
            &&& *final(conn) == *old(conn)
        },
        closed(*old(conn)) && old(buf)@.len() > 0 ==> {
            &&& res is Ok
            &&& final(buf)@ == old(buf)@
            &&& closed(*final(conn))
            &&& established(*final(conn)) == established(*old(conn))
            &&& early_data(*final(conn)) == early_data(*old(conn))
            &&& writable_streams(*final(conn)) == writable_streams(*old(conn))
        },
;

/// Trusted: `quiche::Connection::source_id`, its bytes copied. It reads one field
/// of the connection, which `source_id` names.
#[verifier::external_body]
pub(crate) fn own_id(conn: &Connection) -> (id: Vec<u8>)
    ensures
        id@ == source_id(*conn),
{
    conn.source_id().to_vec()
}

/// Trusted: `quiche::Connection::readable`, its iterator collected. It walks a
/// hash set of the connection: each stream comes once, in some order.
#[verifier::external_body]
pub(crate) fn readable(conn: &Connection) -> (streams: Vec<u64>)
    ensures
        streams@.to_set() == readable_streams(*conn),
        streams@.no_duplicates(),
{
    conn.readable().collect()
}

/// Trusted: `quiche::Connection::writable`, its iterator collected. It walks a
/// hash set of the connection: each stream comes once, in some order.
#[verifier::external_body]
pub(crate) fn writable(conn: &Connection) -> (streams: Vec<u64>)
    ensures
        streams@.to_set() == writable_streams(*conn),
        streams@.no_duplicates(),
{
    conn.writable().collect()
}

/// Data may be exchanged on the connection: the handshake is complete, or early
/// data is under way.
pub open spec fn usable(conn: Connection) -> bool {
    established(conn) || early_data(conn)
}

/// Whether data may be exchanged on the connection.
pub fn is_usable(conn: &Connection) -> (answer: bool)
    ensures
        answer == usable(*conn),
        answer == (established(*conn) || early_data(*conn)),
{
    let established: bool = conn.is_established();
    let in_early_data: bool = conn.is_in_early_data();
    established || in_early_data
}

/// What a connection is closed with: whether the application closes it, the
/// error code and the reason.
#[derive(Debug)]
pub struct CloseRequest {
    pub app: bool,
    pub err: u64,
    pub reason: Vec<u8>,
}

impl CloseRequest {
    /// The request that ends a connection in good order.
    pub fn goodbye() -> (request: CloseRequest)
        ensures
            request.app,
            request.err == 0,
            request.reason@.len() == 0,
    {
        CloseRequest { app: true, err: 0, reason: Vec::new() }
    }

    /// The request that ends a connection that failed, with the reason `fail`.
    pub fn abort() -> (request: CloseRequest)
        ensures
            !request.app,
            request.err == 1,
            request.reason@ == seq![0x66u8, 0x61, 0x69, 0x6c],
    {
        let reason: Vec<u8> = vec![0x66, 0x61, 0x69, 0x6c];
        assert(reason@ =~= seq![0x66u8, 0x61, 0x69, 0x6c]);
        CloseRequest { app: false, err: 1, reason }
    }

    /// Closes a connection. Fails, with `Done`, if it is closing already.
    pub fn send(&self, conn: &mut Connection) -> (res: Result<(), Error>)
        ensures
            res == close_answer(*old(conn), self.app, self.err, self.reason@),
            *final(conn) == after_close(*old(conn), self.app, self.err, self.reason@),
            source_id(*final(conn)) == source_id(*old(conn)),
            res matches Err(e) ==> e is Done && *final(conn) == *old(conn),
            closed(*old(conn)) ==> res is Err,
    {
        conn.close(self.app, self.err, self.reason.as_slice())
    }
}

/// A connection takes data as soon as its handshake is complete, and already
/// before that while it takes early data; otherwise it does not.
pub proof fn connections_take_data_when_ready(conn: Connection)
    ensures
        established(conn) ==> usable(conn),
        early_data(conn) ==> usable(conn),
        !established(conn) && !early_data(conn) ==> !usable(conn),
{
}

} // verus!
