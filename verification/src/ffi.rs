//! The functions behind the C interface.
//!
//! They decide and they report; what has to do with pointers, sockets and
//! threads is done by their callers, who hand in what came of it.
use libc::c_int;
use quiche::{Connection, Error};
use vstd::prelude::*;

use crate::api::DtpApi;
use crate::bytes::copy_bytes;
use crate::error::{error_code, error_to_c, DtpError};
use crate::quic::{
    after_close, after_stream_recv, after_stream_send, close_answer, closed, early_data, established, is_usable, readable, readable_streams, recv_answer,
    send_answer, source_id, usable, CloseRequest,
};
use crate::status::{waiting, with_status, ClientStatus, SharedStreams};

verus! {

broadcast use vstd::std_specs::hash::group_hash_axioms;

/// Opens a descriptor. Returns it, above zero, or -1 if there are no more.
pub fn dtp_socket<S, C, V, M, W, H>(api: &mut DtpApi<S, C, V, M, W, H>) -> (sock: c_int)
    requires
        old(api).wf(),
    ensures
        final(api).wf(),
        if old(api).next_fd == c_int::MAX {
            sock == -1 && final(api).same(old(api))
        } else {
            &&& sock == old(api).next_fd
            &&& sock > 0
            &&& !old(api).sock_map@.contains_key(sock)
            &&& final(api).next_fd == old(api).next_fd + 1
            &&& final(api).sock_map@ == old(api).sock_map@.insert(sock, None)
            &&& final(api).client_map@ == old(api).client_map@
            &&& final(api).server_map@ == old(api).server_map@
            &&& final(api).same_running(old(api))
        },
{
    api.create_udp_fd()
}

/// Closes a descriptor that nothing uses. Returns 0, or -1 if it is not open or
/// is in use.
pub fn dtp_socket_close<S, C, V, M, W, H>(
    api: &mut DtpApi<S, C, V, M, W, H>,
    sock: c_int,
) -> (code: c_int)
    requires
        old(api).wf(),
    ensures
        final(api).wf(),
        code == if old(api).closable(sock) {
            0int
        } else {
            -1int
        },
        final(api).sock_map@ == if old(api).closable(sock) {
            old(api).sock_map@.remove(sock)
        } else {
            old(api).sock_map@
        },
        final(api).client_map@ == old(api).client_map@,
        final(api).server_map@ == old(api).server_map@,
        final(api).next_fd == old(api).next_fd,
        final(api).same_running(old(api)),
{
    if !api.has_sock_entry(sock) {
        return -1;
    }
    if api.has_client(sock) {
        return -1;
    }
    if api.has_server(sock) {
        return -1;
    }
    api.sock_map.remove(&sock);
    0
}

/// Whether a server may be bound to a descriptor.
pub fn may_bind<S, C, V, M, W, H>(api: &DtpApi<S, C, V, M, W, H>, sock: c_int) -> (may: bool)
    ensures
        may == api.bindable(sock),
{
    api.has_sock_entry(sock) && !api.has_server(sock)
}

/// Binds a server to a descriptor. `bound` is the socket and the server, if both
/// could be made. Returns 1, or -1 if nothing was bound.
pub fn dtp_bind<S, C, V, M, W, H>(
    api: &mut DtpApi<S, C, V, M, W, H>,
    sock: c_int,
    bound: Option<(S, V)>,
) -> (code: c_int)
    requires
        old(api).wf(),
    ensures
        final(api).wf(),
        match bound {
            Some((socket, server)) if old(api).bindable(sock) => {
                &&& code == 1
                &&& final(api).sock_map@ == old(api).sock_map@.insert(sock, Some(socket))
                &&& final(api).server_map@ == old(api).server_map@.insert(sock, server)
                &&& final(api).client_map@ == old(api).client_map@
                &&& final(api).next_fd == old(api).next_fd
                &&& final(api).same_running(old(api))
            },
            _ => code == -1 && final(api).same(old(api)),
        },
{
    if !may_bind(api, sock) {
        return -1;
    }
    match bound {
        Some((socket, server)) => {
            api.sock_map.insert(sock, Some(socket));
            api.server_map.insert(sock, server);
            1
        },
        None => -1,
    }
}

/// Takes the server that is bound to a descriptor, so that it can run. `None` if
/// there is none.
pub fn dtp_listen<S, C, V, M, W, H>(api: &mut DtpApi<S, C, V, M, W, H>, sock: c_int) -> (server:
    Option<V>)
    requires
        old(api).wf(),
    ensures
        final(api).wf(),
        server == if old(api).server_map@.contains_key(sock) {
            Some(old(api).server_map@[sock])
        } else {
            None
        },
        final(api).server_map@ == old(api).server_map@.remove(sock),
        final(api).sock_map@ == old(api).sock_map@,
        final(api).client_map@ == old(api).client_map@,
        final(api).next_fd == old(api).next_fd,
        final(api).same_running(old(api)),
{
    api.server_map.remove(&sock)
}

/// Records a server that runs: its thread, its streams and its waker.
pub fn server_started<S, C, V, M, W, H>(
    api: &mut DtpApi<S, C, V, M, W, H>,
    sock: c_int,
    handle: H,
    streams: M,
    waker: W,
)
    requires
        old(api).wf(),
    ensures
        final(api).wf(),
        final(api).server_handles@ == old(api).server_handles@.insert(sock, handle),
        final(api).server_shared_map@ == old(api).server_shared_map@.insert(sock, streams),
        final(api).server_waker_map@ == old(api).server_waker_map@.insert(sock, waker),
        final(api).client_handles@ == old(api).client_handles@,
        final(api).sock_map@ == old(api).sock_map@,
        final(api).client_map@ == old(api).client_map@,
        final(api).server_map@ == old(api).server_map@,
        final(api).next_fd == old(api).next_fd,
{
    api.server_handles.insert(sock, handle);
    api.server_shared_map.insert(sock, streams);
    api.server_waker_map.insert(sock, waker);
}

/// Whether a client may be connected by a descriptor.
pub fn may_connect<S, C, V, M, W, H>(api: &DtpApi<S, C, V, M, W, H>, sock: c_int) -> (may: bool)
    ensures
        may == api.connectable(sock),
{
    api.has_sock_entry(sock) && !api.has_client(sock)
}

/// Records a client that is connected by a descriptor. `connected` is its
/// socket, the client and its thread, if there is a connection. Returns whether
/// there is a client now.
pub fn dtp_connect<S, C, V, M, W, H>(
    api: &mut DtpApi<S, C, V, M, W, H>,
    sock: c_int,
    connected: Option<(S, C, H)>,
) -> (done: bool)
    requires
        old(api).wf(),
    ensures
        final(api).wf(),
        match connected {
            Some((socket, client, handle)) if old(api).connectable(sock) => {
                &&& done
                &&& final(api).sock_map@ == old(api).sock_map@.insert(sock, Some(socket))
                &&& final(api).client_map@ == old(api).client_map@.insert(sock, client)
                &&& final(api).client_handles@ == old(api).client_handles@.insert(sock, handle)
                &&& final(api).server_map@ == old(api).server_map@
                &&& final(api).server_handles@ == old(api).server_handles@
                &&& final(api).server_shared_map@ == old(api).server_shared_map@
                &&& final(api).server_waker_map@ == old(api).server_waker_map@
                &&& final(api).next_fd == old(api).next_fd
            },
            _ => !done && final(api).same(old(api)),
        },
{
    if !may_connect(api, sock) {
        return false;
    }
    match connected {
        Some((socket, client, handle)) => {
            api.sock_map.insert(sock, Some(socket));
            api.client_map.insert(sock, client);
            api.client_handles.insert(sock, handle);
            true
        },
        None => false,
    }
}

/// Forgets a client that is being closed, and hands out its thread.
pub fn client_closed<S, C, V, M, W, H>(api: &mut DtpApi<S, C, V, M, W, H>, sock: c_int) -> (handle:
    Option<H>)
    requires
        old(api).wf(),
    ensures
        final(api).wf(),
        handle == if old(api).client_handles@.contains_key(sock) {
            Some(old(api).client_handles@[sock])
        } else {
            None
        },
        final(api).client_handles@ == old(api).client_handles@.remove(sock),
        final(api).client_map@ == old(api).client_map@.remove(sock),
        final(api).sock_map@ == old(api).sock_map@,
        final(api).server_map@ == old(api).server_map@,
        final(api).server_handles@ == old(api).server_handles@,
        final(api).server_shared_map@ == old(api).server_shared_map@,
        final(api).server_waker_map@ == old(api).server_waker_map@,
        final(api).next_fd == old(api).next_fd,
{
    api.client_map.remove(&sock);
    api.client_handles.remove(&sock)
}

/// One end of a connection, as it is handed to the users of the interface.
#[derive(Debug)]
pub struct DtpConnection {
    pub is_server_side: bool,
    /// The descriptor of a client.
    pub sockid: Option<c_int>,
    /// The connection ID that a server knows the connection by.
    pub conn_id: Option<Vec<u8>>,
}

impl DtpConnection {
    /// The server's end is known by a connection ID, the client's end by a
    /// descriptor.
    pub open spec fn wf(&self) -> bool {
        if self.is_server_side {
            self.conn_id is Some && self.sockid is None
        } else {
            self.conn_id is None && self.sockid is Some
        }
    }

    /// The server's end of the connection `conn_id`.
    pub fn accepted(conn_id: Vec<u8>) -> (conn_io: Self)
        ensures
            conn_io.wf(),
            conn_io.is_server_side,
            conn_io.conn_id == Some(conn_id),
            conn_io.sockid is None,
    {
        DtpConnection { is_server_side: true, sockid: None, conn_id: Some(conn_id) }
    }

    /// The client's end of the connection of a descriptor.
    pub fn connected(sock: c_int) -> (conn_io: Self)
        ensures
            conn_io.wf(),
            !conn_io.is_server_side,
            conn_io.sockid == Some(sock),
            conn_io.conn_id is None,
    {
        DtpConnection { is_server_side: false, sockid: Some(sock), conn_id: None }
    }
}

/// What came of looking for a connection to accept.
#[derive(Debug)]
pub enum AcceptStep {
    /// The connection at this position is accepted.
    Accepted(usize, DtpConnection),
    /// None waits; look again in a while.
    TryAgain,
    /// None waits, and the caller does not.
    Nothing,
}

/// Accepts the oldest connection that waits.
pub fn dtp_accept<T>(streams: &mut SharedStreams<T>, is_block: bool) -> (step: AcceptStep)
    requires
        old(streams).wf(),
    ensures
        final(streams).wf(),
        final(streams).order() == old(streams).order(),
        match step {
            AcceptStep::Accepted(i, conn_io) => {
                let id = old(streams).order()[i as int];
                &&& i < old(streams).order().len()
                &&& waiting(old(streams)@, id)
                &&& forall|j: int|
                    0 <= j < i ==> !waiting(old(streams)@, #[trigger] old(streams).order()[j])
                &&& final(streams)@ == with_status(old(streams)@, id, ClientStatus::Accepted)
                &&& conn_io.wf()
                &&& conn_io.is_server_side
                &&& conn_io.conn_id->0@ == id
            },
            AcceptStep::TryAgain => is_block && final(streams)@ == old(streams)@ && forall|
                id: Seq<u8>,
            |
                !#[trigger] waiting(old(streams)@, id),
            AcceptStep::Nothing => !is_block && final(streams)@ == old(streams)@ && forall|
                id: Seq<u8>,
            |
                !#[trigger] waiting(old(streams)@, id),
        },
{
    match streams.accept() {
        Some(i) => {
            let id: Vec<u8> = copy_bytes(streams.client_status.id_at(i).as_slice());
            AcceptStep::Accepted(i, DtpConnection::accepted(id))
        },
        None => if is_block {
            AcceptStep::TryAgain
        } else {
            AcceptStep::Nothing
        },
    }
}

/// What reception from a connection gave: the number to report, and the stream
/// that was read, with whether the data is its last.
#[derive(Clone, Copy, Debug)]
pub struct RecvReport {
    pub code: c_int,
    pub stream: Option<(c_int, bool)>,
}

/// The report on the answer of one readable stream; `None` if there is nothing
/// to report, so that the next stream is tried.
pub open spec fn stream_report(stream_id: u64, answer: Result<(usize, bool), Error>) -> Option<
    RecvReport,
> {
    match answer {
        Ok((n, fin)) => Some(
            RecvReport { code: n as c_int, stream: Some((stream_id as c_int, fin)) },
        ),
        Err(Error::Done) => None,
        Err(e) => Some(RecvReport { code: error_code(e) as c_int, stream: None }),
    }
}

/// What came of reception into `buf` on a connection in the state `conn`: the
/// report, what `buf` holds then, and the state of the connection then. One
/// readable stream that has something to report is read, once; which one, if
/// there are more, is left open. If none has, nothing is read and nothing
/// changes.
pub open spec fn may_report(
    conn: Connection,
    buf: Seq<u8>,
    report: RecvReport,
    out: Seq<u8>,
    then: Connection,
) -> bool {
    ||| {
        &&& forall|id: u64| #[trigger]
            readable_streams(conn).contains(id) ==> stream_report(
                id,
                recv_answer(conn, id, buf).0,
            ) is None
        &&& report == (RecvReport { code: 0, stream: None })
        &&& out == buf
        &&& then == conn
    }
    ||| exists|id: u64|
        {
            &&& #[trigger] readable_streams(conn).contains(id)
            &&& stream_report(id, recv_answer(conn, id, buf).0) == Some(report)
            &&& recv_answer(conn, id, buf).0 matches Ok((n, _)) ==> n <= buf.len()
            &&& out == recv_answer(conn, id, buf).1
            &&& then == after_stream_recv(conn, id, buf)
        }
}

/// Reports the answer of one readable stream; `None` if the next stream is to be
/// tried.
pub fn report_stream(stream_id: u64, answer: Result<(usize, bool), Error>) -> (report: Option<
    RecvReport,
>)
    ensures
        report == stream_report(stream_id, answer),
{
    match answer {
        Ok((n, fin)) => Some(
            RecvReport {
                code: #[verifier::truncate] (n as c_int),
                stream: Some((#[verifier::truncate] (stream_id as c_int), fin)),
            },
        ),
        Err(Error::Done) => None,
        Err(e) => Some(RecvReport { code: error_to_c(e) as c_int, stream: None }),
    }
}

/// Receives from the first readable stream that has data or a failure to hand
/// out.
pub fn receive(conn: &mut Connection, buf: &mut [u8]) -> (report: RecvReport)
    ensures
        may_report(*old(conn), old(buf)@, report, final(buf)@, *final(conn)),
        source_id(*final(conn)) == source_id(*old(conn)),
        final(buf)@.len() == old(buf)@.len(),
        report.stream is Some && old(buf)@.len() <= c_int::MAX ==> 0 <= report.code
            <= old(buf)@.len(),
        report.stream is None ==> -16 <= report.code <= 0 && final(buf)@ == old(buf)@,
{
    let streams: Vec<u64> = readable(conn);
    let mut i: usize = 0;
    while i < streams.len()
        invariant
            buf@ == old(buf)@,
            *conn == *old(conn),
            streams@.to_set() == readable_streams(*old(conn)),
            i <= streams@.len(),
            forall|j: int|
                0 <= j < i ==> stream_report(
                    #[trigger] streams@[j],
                    recv_answer(*old(conn), streams@[j], old(buf)@).0,
                ) is None,
        decreases streams@.len() - i,
    {
        assert(streams@.to_set().contains(streams@[i as int]));
        let answer: Result<(usize, bool), Error> = conn.stream_recv(streams[i], buf);
        match report_stream(streams[i], answer) {
            Some(report) => {
                return report;
            },
            None => {},
        }
        i += 1;
    }
    proof {
        assert forall|id: u64| #[trigger] readable_streams(*old(conn)).contains(
            id,
        ) implies stream_report(id, recv_answer(*old(conn), id, old(buf)@).0) is None by {
            assert(streams@.contains(id));
            let j = choose|j: int| 0 <= j < streams@.len() && streams@[j] == id;
            assert(stream_report(streams@[j], recv_answer(*old(conn), streams@[j], old(buf)@).0)
                is None);
        }
    }
    RecvReport { code: 0, stream: None }
}

/// Receives from the first readable stream that has data or a failure to hand
/// out, into `buf`. Tells which stream it was, and whether the data is its last.
///
/// Returns the number of bytes received, 0 if there are none, or the number of a
/// failure, which is -1 if anything is missing. Does not wait.
pub fn dtp_recv(
    conn: Option<&mut Connection>,
    buf: &mut [u8],
    stream_id: Option<&mut c_int>,
    fin: Option<&mut bool>,
) -> (code: c_int)
    ensures
        final(buf)@.len() == old(buf)@.len(),
        conn matches Some(c) ==> source_id(*final(c)) == source_id(*c),
        (conn matches Some(c) && !established(*c) && !early_data(*c)) && stream_id is Some && fin
            is Some ==> code == -42,
        (conn matches Some(c) && (established(*c) || early_data(*c))) && stream_id is Some && fin
            is Some && old(buf)@.len() <= c_int::MAX ==> code != -42,
        old(buf)@.len() <= c_int::MAX && code < 0 ==> {
            &&& stream_id matches Some(s) ==> *final(s) == *s
            &&& fin matches Some(f) ==> *final(f) == *f
        },
        conn matches Some(c) && usable(*c) && stream_id is Some && fin is Some && old(buf)@.len()
            <= c_int::MAX ==> -16 <= code <= old(buf)@.len(),
        match (conn, stream_id, fin) {
            (Some(c), Some(s), Some(f)) => if usable(*c) {
                exists|report: RecvReport|
                    {
                        &&& #[trigger] may_report(*c, old(buf)@, report, final(buf)@, *final(c))
                        &&& code == report.code
                        &&& report.stream is Some && old(buf)@.len() <= c_int::MAX ==> 0
                            <= report.code <= old(buf)@.len()
                        &&& (*final(s), *final(f)) == match report.stream {
                            Some(told) => told,
                            None => (*s, *f),
                        }
                    }
            } else {
                &&& code == DtpError::DtpNotEstablished.spec_code()
                &&& *final(c) == *c
                &&& final(buf)@ == old(buf)@
                &&& *final(s) == *s
                &&& *final(f) == *f
            },
            _ => {
                &&& code == -1
                &&& final(buf)@ == old(buf)@
                &&& conn matches Some(c) ==> *final(c) == *c
                &&& stream_id matches Some(s) ==> *final(s) == *s
                &&& fin matches Some(f) ==> *final(f) == *f
            },
        },
{
    match (conn, stream_id, fin) {
        (Some(conn), Some(stream_id), Some(fin)) => {
            if !is_usable(conn) {
                return DtpError::DtpNotEstablished.code();
            }
            let report: RecvReport = receive(conn, buf);
            match report.stream {
                Some((id, last)) => {
                    *stream_id = id;
                    *fin = last;
                },
                None => {},
            }
            report.code
        },
        _ => -1,
    }
}

/// What sending on a connection gave: the number to report, and whether the
/// thread of the connection is to be woken.
#[derive(Clone, Copy, Debug, PartialEq, Eq, Structural)]
pub struct SendReport {
    pub code: c_int,
    pub wake: bool,
}

/// The report on the answer of a stream that was sent to.
pub open spec fn send_report(answer: Result<usize, Error>) -> SendReport {
    SendReport {
        code: match answer {
            Ok(n) => n as c_int,
            Err(e) => error_code(e) as c_int,
        },
        wake: true,
    }
}

/// Reports the answer of a stream that was sent to.
pub fn report_send(answer: Result<usize, Error>) -> (report: SendReport)
    ensures
        report == send_report(answer),
{
    let code: c_int = match answer {
        Ok(n) => #[verifier::truncate] (n as c_int),
        Err(e) => error_to_c(e) as c_int,
    };
    SendReport { code, wake: true }
}

/// Sends `buf` on a stream, as the last of it if `fin`.
///
/// Reports the number of bytes that were taken, or the number of a failure, which
/// is -1 if there is no connection. What was taken is sent later, by the thread
/// of the connection.
pub fn dtp_send(conn: Option<&mut Connection>, buf: &[u8], fin: bool, stream_id: c_int) -> (report:
    SendReport)
    ensures
        conn matches Some(c) ==> source_id(*final(c)) == source_id(*c),
        conn matches Some(c) ==> if established(*c) || early_data(*c) {
            &&& report.wake
            &&& *final(c) == after_stream_send(*c, stream_id as u64, buf@, fin)
            &&& report.code == match send_answer(*c, stream_id as u64, buf@, fin) {
                Ok(n) => n as c_int,
                Err(e) => error_code(e) as c_int,
            }
        } else {
            report.code == -42 && !report.wake && *final(c) == *c
        },
        match conn {
            Some(c) => if usable(*c) {
                let answer = send_answer(*c, stream_id as u64, buf@, fin);
                &&& report == send_report(answer)
                &&& answer matches Ok(n) ==> n <= buf@.len()
                &&& *final(c) == after_stream_send(*c, stream_id as u64, buf@, fin)
            } else {
                &&& report.code == DtpError::DtpNotEstablished.spec_code()
                &&& !report.wake
                &&& *final(c) == *c
            },
            None => report.code == -1 && !report.wake,
        },
{
    match conn {
        Some(conn) => {
            if !is_usable(conn) {
                return SendReport { code: DtpError::DtpNotEstablished.code(), wake: false };
            }
            let answer: Result<usize, Error> = conn.stream_send(
                #[verifier::truncate] (stream_id as u64),
                buf,
                fin,
            );
            report_send(answer)
        },
        None => SendReport { code: -1, wake: false },
    }
}

/// What is to be done to close one end of a connection.
#[derive(Clone, Copy, Debug, PartialEq, Eq, Structural)]
pub enum CloseStep {
    /// Nothing: it cannot be closed now.
    Refuse,
    /// The peer is told; the client's thread is to be woken and waited for.
    StopClient,
    /// The server is to be told that the user is done.
    ReleaseServer,
}

/// What is to be done to close one end of a connection: a client closes a
/// connection that is established, a server's user is done with a connection
/// that is closed.
pub open spec fn close_step(is_server_side: bool, established: bool, closed: bool) -> CloseStep {
    if is_server_side {
        if closed {
            CloseStep::ReleaseServer
        } else {
            CloseStep::Refuse
        }
    } else if established {
        CloseStep::StopClient
    } else {
        CloseStep::Refuse
    }
}

/// Decides how one end of a connection is closed.
pub fn plan_close(is_server_side: bool, established: bool, closed: bool) -> (step: CloseStep)
    ensures
        step == close_step(is_server_side, established, closed),
{
    if is_server_side {
        if closed {
            CloseStep::ReleaseServer
        } else {
            CloseStep::Refuse
        }
    } else if established {
        CloseStep::StopClient
    } else {
        CloseStep::Refuse
    }
}

impl CloseStep {
    /// The number that reports how closing ended: 1, or -1 if it was refused.
    pub fn code(self) -> (code: c_int)
        ensures
            code == if self is Refuse {
                -1int
            } else {
                1int
            },
    {
        match self {
            CloseStep::Refuse => -1,
            _ => 1,
        }
    }
}

/// What comes of closing one end of a connection that is in a certain state:
/// what `close_step` says, but nothing is closed where telling the peer fails.
pub open spec fn closing(is_server_side: bool, conn: Connection) -> CloseStep {
    let step = close_step(is_server_side, established(conn), closed(conn));
    if step is StopClient && close_answer(conn, true, 0, Seq::empty()) is Err {
        CloseStep::Refuse
    } else {
        step
    }
}

/// Starts to close one end of a connection. A client that closes tells its peer.
pub fn dtp_close(conn_io: Option<(&DtpConnection, &mut Connection)>) -> (step: CloseStep)
    ensures
        match conn_io {
            Some((io, conn)) => {
                &&& step == closing(io.is_server_side, *conn)
                &&& source_id(*final(conn)) == source_id(*conn)
                &&& !io.is_server_side && established(*conn) && close_answer(
                    *conn,
                    true,
                    0,
                    Seq::empty(),
                ) is Ok ==> step is StopClient && *final(conn) == after_close(
                    *conn,
                    true,
                    0,
                    Seq::empty(),
                )
                &&& *final(conn) == if step is StopClient {
                    after_close(*conn, true, 0, Seq::empty())
                } else {
                    *conn
                }
            },
            None => step is Refuse,
        },
{
    match conn_io {
        Some((io, conn)) => {
            let is_established: bool = conn.is_established();
            let is_closed: bool = conn.is_closed();
            let step: CloseStep = plan_close(io.is_server_side, is_established, is_closed);
            match step {
                CloseStep::StopClient => {
                    let request: CloseRequest = CloseRequest::goodbye();
                    assert(request.reason@ =~= Seq::empty());
                    match request.send(conn) {
                        Ok(()) => step,
                        Err(_) => CloseStep::Refuse,
                    }
                },
                _ => step,
            }
        },
        None => CloseStep::Refuse,
    }
}

/// Tells the server that the user is done with a connection that it accepted.
pub fn release<T>(conn_io: &DtpConnection, streams: &mut SharedStreams<T>)
    requires
        conn_io.wf(),
        conn_io.is_server_side,
        old(streams).wf(),
    ensures
        final(streams).wf(),
        final(streams).order() == old(streams).order(),
        final(streams)@ == with_status(old(streams)@, conn_io.conn_id->0@, ClientStatus::Close),
{
    match &conn_io.conn_id {
        Some(id) => {
            streams.mark_closed(id.as_slice());
        },
        None => {},
    }
}

/// A connection goes from `before` to `after` when it is closed in good order. It
/// keeps its source ID.
pub open spec fn said_goodbye(before: Connection, after: Connection) -> bool {
    after == after_close(before, true, 0, Seq::empty()) && source_id(after) == source_id(before)
}

/// Closes one connection of a server, whether it is established or not, and
/// tells its peer. A connection that is closing already stays as it is.
pub fn close_connection(conn: &mut Connection)
    ensures
        said_goodbye(*old(conn), *final(conn)),
        *final(conn) == after_close(*old(conn), true, 0, Seq::empty()),
{
    let request: CloseRequest = CloseRequest::goodbye();
    assert(request.reason@ =~= Seq::empty());
    let _ = request.send(conn);
}

/// Closes all connections of a server, established or not. Returns 1, or -1 if
/// there is no server.
pub fn dtp_close_connections(conns: Option<Vec<&mut Connection>>) -> (code: c_int)
    ensures
        code == if conns is Some {
            1int
        } else {
            -1int
        },
        conns is Some ==> forall|i: int|
            0 <= i < conns->0@.len() ==> said_goodbye(
                *#[trigger] conns->0@[i],
                *final(conns->0@[i]),
            ),
{
    match conns {
        Some(mut conns) => {
            let ghost all = conns@;
            while conns.len() > 0
                invariant
                    conns@.len() <= all.len(),
                    conns@ == all.take(conns@.len() as int),
                    forall|i: int|
                        conns@.len() <= i < all.len() ==> said_goodbye(
                            *#[trigger] all[i],
                            *final(all[i]),
                        ),
                decreases conns@.len(),
            {
                match conns.pop() {
                    Some(conn) => {
                        close_connection(conn);
                    },
                    None => {},
                }
            }
            1
        },
        None => -1,
    }
}

/// A descriptor to watch the connections of a server by is not offered: always
/// -1.
pub fn dtp_get_conns_listenfd() -> (code: c_int)
    ensures
        code == -1,
{
    -1
}

/// A descriptor to watch a connection by is not offered: always -1.
pub fn dtp_get_connio_listenfd() -> (code: c_int)
    ensures
        code == -1,
{
    -1
}

/// The number that reports whether a connection is closed: 1 if it is, 0 if it
/// is not, -1 if there is no connection.
pub fn report_closed(closed: Option<bool>) -> (code: c_int)
    ensures
        code == match closed {
            Some(true) => 1int,
            Some(false) => 0,
            None => -1,
        },
{
    match closed {
        Some(true) => 1,
        Some(false) => 0,
        None => -1,
    }
}

/// Reports whether a connection is closed: 1 if it is, 0 if it is not, -1 if
/// there is no connection.
pub fn dtp_connect_is_close(conn: Option<&Connection>) -> (code: c_int)
    ensures
        code == match conn {
            Some(c) => if closed(*c) {
                1int
            } else {
                0
            },
            None => -1,
        },
{
    match conn {
        Some(conn) => report_closed(Some(conn.is_closed())),
        None => report_closed(None),
    }
}

/// What a sender does about the number that sending reported.
#[derive(Clone, Copy, Debug, PartialEq, Eq, Structural)]
pub enum SendStatus {
    /// Some bytes were taken.
    Sent,
    /// Nothing is taken.
    Done,
    /// The connection is not ready; try again in a while.
    Retry,
    /// Sending failed.
    Failed,
}

/// What a sender does about the number that sending reported.
pub open spec fn send_status(code: int) -> SendStatus {
    if code >= 0 {
        SendStatus::Sent
    } else if code == error_code(Error::Done) {
        SendStatus::Done
    } else if code == DtpError::DtpNotEstablished.spec_code() {
        SendStatus::Retry
    } else {
        SendStatus::Failed
    }
}

impl SendStatus {
    /// Reads the number that sending reported.
    pub fn of_code(code: c_int) -> (status: SendStatus)
        ensures
            status == send_status(code as int),
    {
        if code >= 0 {
            SendStatus::Sent
        } else if code == -1 {
            SendStatus::Done
        } else if code == DtpError::DtpNotEstablished.code() {
            SendStatus::Retry
        } else {
            SendStatus::Failed
        }
    }
}

/// A sender reads from the number alone what came of sending: that bytes were
/// taken, if the number of bytes sent fits the number; that nothing is taken; that
/// the connection is not ready; or any other failure.
pub proof fn send_codes_are_understood(n: usize, e: Error)
    ensures
        n <= c_int::MAX ==> send_report(Ok(n)).code == n && send_status(
            send_report(Ok(n)).code as int,
        ) is Sent,
        send_status(send_report(Err(e)).code as int) == if e is Done {
            SendStatus::Done
        } else {
            SendStatus::Failed
        },
        send_status(DtpError::DtpNotEstablished.spec_code()) is Retry,
{
}

/// A descriptor that was just opened may be closed, and closing it leaves the
/// open descriptors as they were before; only its number is spent.
pub proof fn closing_undoes_opening<S, C, V, M, W, H>(
    before: DtpApi<S, C, V, M, W, H>,
    opened: DtpApi<S, C, V, M, W, H>,
)
    requires
        before.wf(),
        opened.sock_map@ == before.sock_map@.insert(before.next_fd, None),
        opened.client_map@ == before.client_map@,
        opened.server_map@ == before.server_map@,
    ensures
        opened.closable(before.next_fd),
        opened.sock_map@.remove(before.next_fd) == before.sock_map@,
{
    let fd = before.next_fd;
    assert(!before.sock_map@.contains_key(fd));
    assert(!before.client_map@.contains_key(fd));
    assert(!before.server_map@.contains_key(fd));
    assert(before.sock_map@.insert(fd, None).remove(fd) =~= before.sock_map@);
}

/// A descriptor that a client or a bound server uses is open and stays open: it
/// may not be closed.
pub proof fn used_descriptors_stay_open<S, C, V, M, W, H>(
    api: DtpApi<S, C, V, M, W, H>,
    sock: c_int,
)
    requires
        api.wf(),
        api.client_map@.contains_key(sock) || api.server_map@.contains_key(sock),
    ensures
        api.sock_map@.contains_key(sock),
        !api.closable(sock),
{
}

/// A descriptor takes one client at a time and one bound server at a time: while
/// it has one no other can be connected or bound, and once the client is closed
/// or the server listens, it can be used again.
pub proof fn one_user_at_a_time<S, C, V, M, W, H>(
    api: DtpApi<S, C, V, M, W, H>,
    later: DtpApi<S, C, V, M, W, H>,
    sock: c_int,
)
    requires
        api.wf(),
        later.sock_map@ == api.sock_map@,
    ensures
        api.client_map@.contains_key(sock) ==> !api.connectable(sock),
        api.server_map@.contains_key(sock) ==> !api.bindable(sock),
        api.client_map@.contains_key(sock) && later.client_map@ == api.client_map@.remove(sock)
            ==> later.connectable(sock),
        api.server_map@.contains_key(sock) && later.server_map@ == api.server_map@.remove(sock)
            ==> later.bindable(sock),
{
}

/// No descriptor is handed out twice. `next_fds` are the numbers of the next
/// descriptor over a run of operations, which never lower it; a descriptor is
/// handed out where it goes up by one.
pub proof fn descriptors_are_never_reused(next_fds: Seq<c_int>, i: int, j: int)
    requires
        0 <= i < j < next_fds.len() - 1,
        forall|k: int|
            0 <= k < next_fds.len() - 1 ==> {
                ||| #[trigger] next_fds[k + 1] == next_fds[k]
                ||| next_fds[k + 1] == next_fds[k] + 1
            },
        next_fds[i + 1] == next_fds[i] + 1,
        next_fds[j + 1] == next_fds[j] + 1,
    ensures
        next_fds[i] < next_fds[j],
    decreases j - i,
{
    numbers_do_not_fall(next_fds, i + 1, j);
}

proof fn numbers_do_not_fall(next_fds: Seq<c_int>, i: int, j: int)
    requires
        0 <= i <= j < next_fds.len(),
        forall|k: int|
            0 <= k < next_fds.len() - 1 ==> {
                ||| #[trigger] next_fds[k + 1] == next_fds[k]
                ||| next_fds[k + 1] == next_fds[k] + 1
            },
    ensures
        next_fds[i] <= next_fds[j],
    decreases j - i,
{
    if i < j {
        numbers_do_not_fall(next_fds, i, j - 1);
        assert(next_fds[(j - 1) + 1] == next_fds[j]);
    }
}

/// A server's user is done with a connection only once it is closed, and a
/// client closes only a connection that is established.
pub proof fn nothing_is_closed_too_early(is_server_side: bool, conn: Connection)
    ensures
        closing(is_server_side, conn) is ReleaseServer <==> is_server_side && closed(conn),
        closing(is_server_side, conn) is StopClient <==> !is_server_side && established(conn)
            && close_answer(conn, true, 0, Seq::empty()) is Ok,
{
}

/// What a stream answers is what its reader is told: the number of bytes, the
/// stream and whether the data is its last, each as far as the number fits.
/// `Done` is not reported, and any other failure by its number alone.
pub proof fn reader_is_told_what_the_stream_answered(
    stream_id: u64,
    n: usize,
    fin: bool,
    e: Error,
)
    ensures
        ({
            let report = stream_report(stream_id, Ok((n, fin)));
            &&& report is Some
            &&& report->0.stream matches Some((told, last)) && last == fin && (stream_id
                <= c_int::MAX ==> told == stream_id)
            &&& n <= c_int::MAX ==> report->0.code == n
        }),
        ({
            let report = stream_report(stream_id, Err(e));
            &&& report is None <==> e is Done
            &&& report is Some ==> report->0.stream is None && report->0.code == error_code(e)
        }),
{
}

/// Reception tells what was read, and passes over nothing. A stream that is told
/// is one that the connection has, with the bytes, the number and the end that it
/// answered, and was read once; a failure is one of such a stream; and if there is
/// neither, every stream was without data and nothing was touched.
pub proof fn reception_tells_what_was_read(
    conn: Connection,
    buf: Seq<u8>,
    report: RecvReport,
    out: Seq<u8>,
    then: Connection,
)
    requires
        may_report(conn, buf, report, out, then),
    ensures
        report.stream matches Some((told, last)) ==> exists|id: u64|
            {
                &&& #[trigger] readable_streams(conn).contains(id)
                &&& recv_answer(conn, id, buf).0 matches Ok((n, fin)) && fin == last && n
                    <= buf.len() && (n <= c_int::MAX ==> report.code == n)
                &&& id <= c_int::MAX ==> told == id
                &&& out == recv_answer(conn, id, buf).1
                &&& then == after_stream_recv(conn, id, buf)
            },
        report.stream is None && report.code != 0 ==> exists|id: u64|
            {
                &&& #[trigger] readable_streams(conn).contains(id)
                &&& recv_answer(conn, id, buf).0 matches Err(e) && !(e is Done) && report.code
                    == error_code(e)
                &&& out == recv_answer(conn, id, buf).1
                &&& then == after_stream_recv(conn, id, buf)
            },
        report.stream is None && report.code == 0 ==> out == buf && then == conn && forall|id: u64|
            #[trigger]
            readable_streams(conn).contains(id) ==> recv_answer(conn, id, buf).0 == Err::<
                (usize, bool),
                Error,
            >(Error::Done),
{
    if exists|id: u64|
        {
            &&& #[trigger] readable_streams(conn).contains(id)
            &&& stream_report(id, recv_answer(conn, id, buf).0) == Some(report)
            &&& (recv_answer(conn, id, buf).0 matches Ok((n, _)) ==> n <= buf.len())
            &&& out == recv_answer(conn, id, buf).1
            &&& then == after_stream_recv(conn, id, buf)
        } {
        let id = choose|id: u64|
            {
                &&& #[trigger] readable_streams(conn).contains(id)
                &&& stream_report(id, recv_answer(conn, id, buf).0) == Some(report)
                &&& (recv_answer(conn, id, buf).0 matches Ok((n, _)) ==> n <= buf.len())
                &&& out == recv_answer(conn, id, buf).1
                &&& then == after_stream_recv(conn, id, buf)
            };
        match recv_answer(conn, id, buf).0 {
            Ok((n, fin)) => {
                assert(report.stream == Some((id as c_int, fin)));
            },
            Err(e) => {
                assert(report.stream is None && report.code == error_code(e));
            },
        }
    }
}

/// What is sent is reported as it was answered: the number of bytes as far as it
/// fits, a failure by its number. Either way the connection's thread is woken.
pub proof fn sender_is_told_what_was_answered(n: usize, e: Error)
    ensures
        n <= c_int::MAX ==> send_report(Ok(n)).code == n,
        send_report(Err(e)).code == error_code(e),
        send_report(Ok(n)).wake,
        send_report(Err(e)).wake,
{
}

/// A sender goes on by the number: at or above zero it has sent, on -1 it is done,
/// on -42 it tries again, and any other number is a failure.
pub proof fn sender_goes_on_by_the_code(code: int)
    ensures
        send_status(code) is Sent <==> code >= 0,
        send_status(code) is Done <==> code == -1,
        send_status(code) is Retry <==> code == -42,
        send_status(code) is Failed <==> code < -1 && code != -42,
{
}

/// A client's end is closed exactly if the connection is established and the peer
/// can be told; the user of a server is done with its end exactly if the
/// connection is closed; otherwise nothing is closed.
pub proof fn ends_are_closed_exactly_when_they_can_be(is_server_side: bool, conn: Connection)
    ensures
        closing(is_server_side, conn) is StopClient <==> {
            &&& !is_server_side
            &&& established(conn)
            &&& close_answer(conn, true, 0, Seq::empty()) is Ok
        },
        closing(is_server_side, conn) is ReleaseServer <==> is_server_side && closed(conn),
        closing(is_server_side, conn) is Refuse <==> {
            ||| is_server_side && !closed(conn)
            ||| !is_server_side && !established(conn)
            ||| !is_server_side && close_answer(conn, true, 0, Seq::empty()) is Err
        },
{
}

/// A client closes an established connection, whether it is closed already or
/// not; a server's user gives up a closed one, whether it was established or not.
pub proof fn each_side_closes_by_its_own_condition(established: bool, closed: bool)
    ensures
        close_step(false, established, closed) is StopClient <==> established,
        close_step(false, established, closed) is Refuse <==> !established,
        close_step(true, established, closed) is ReleaseServer <==> closed,
        close_step(true, established, closed) is Refuse <==> !closed,
{
}

/// A connection that said goodbye was closed by the application, with the number
/// 0 and no reason.
pub proof fn goodbye_is_a_close_in_good_order(before: Connection, after: Connection)
    requires
        said_goodbye(before, after),
    ensures
        after == after_close(before, true, 0, Seq::empty()),
        source_id(after) == source_id(before),
{
}

} // verus!
