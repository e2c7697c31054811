//! Requests to the task that owns a connection, and its replies.
use quiche::{Connection, Error};
use vstd::prelude::*;
use vstd::utf8::encode_utf8;

use crate::quic::{
    after_close, after_stream_recv, after_stream_send, close_answer, established, recv_answer,
    send_answer, source_id,
};

verus! {

/// A request to the owner of a connection, or a reply of it.
#[derive(Debug)]
#[allow(inconsistent_fields)]
pub enum DtpMsg {
    /// Send `buf` on a stream, as the last of it if `fin`.
    DtpSend { buf: Vec<u8>, fin: bool, stream_id: u64 },
    /// How many bytes the stream took.
    DtpSendRet { res: Result<usize, Error> },
    /// The connection is not ready; the request is to be made again.
    DtpSendRetry,
    /// Receive from a stream.
    DtpRecv { stream_id: u64, buflen: usize },
    /// How many bytes the stream gave, and whether they are the last.
    DtpRecvRet { res: Result<(usize, bool), Error> },
    /// Close the connection.
    DtpClose { app: bool, err: u64, reason: String },
    /// Whether the connection could be closed.
    DtpCloseRet { res: Result<(), Error> },
}

/// The message is a request, so that it is replied to.
pub open spec fn is_request(msg: DtpMsg) -> bool {
    msg is DtpSend || msg is DtpRecv || msg is DtpClose
}

/// The reply to a message, on a connection in a certain state. A request to send
/// is carried out if the handshake is complete. A request to receive brings no
/// room for data, so that no byte is read. What is no request has no reply.
pub open spec fn reply_to(conn: Connection, msg: DtpMsg) -> Option<DtpMsg> {
    match msg {
        DtpMsg::DtpSend { buf, fin, stream_id } => Some(
            if established(conn) {
                DtpMsg::DtpSendRet { res: send_answer(conn, stream_id, buf@, fin) }
            } else {
                DtpMsg::DtpSendRetry
            },
        ),
        DtpMsg::DtpRecv { stream_id, .. } => Some(
            DtpMsg::DtpRecvRet { res: recv_answer(conn, stream_id, Seq::empty()).0 },
        ),
        DtpMsg::DtpClose { app, err, reason } => Some(
            DtpMsg::DtpCloseRet { res: close_answer(conn, app, err, encode_utf8(reason@)) },
        ),
        _ => None,
    }
}

/// The state of a connection after a message was carried out on it. Nothing is
/// sent before the handshake is complete, and what is no request changes nothing.
pub open spec fn conn_after(conn: Connection, msg: DtpMsg) -> Connection {
    match msg {
        DtpMsg::DtpSend { buf, fin, stream_id } => if established(conn) {
            after_stream_send(conn, stream_id, buf@, fin)
        } else {
            conn
        },
        DtpMsg::DtpRecv { stream_id, .. } => after_stream_recv(conn, stream_id, Seq::empty()),
        DtpMsg::DtpClose { app, err, reason } => after_close(conn, app, err, encode_utf8(reason@)),
        _ => conn,
    }
}

/// A reply that fits a request: a stream takes no more bytes than it was given,
/// and hands out none without room for any; closing fails with `Done` only.
pub open spec fn fits_request(reply: DtpMsg, msg: DtpMsg) -> bool {
    match msg {
        DtpMsg::DtpSend { buf, .. } => {
            ||| reply is DtpSendRetry
            ||| reply matches DtpMsg::DtpSendRet { res } && (res matches Ok(n) ==> n <= buf@.len())
        },
        DtpMsg::DtpRecv { .. } => reply matches DtpMsg::DtpRecvRet { res } && (
        res matches Ok((n, fin)) ==> n == 0),
        DtpMsg::DtpClose { .. } => reply matches DtpMsg::DtpCloseRet { res } && (
        res matches Err(e) ==> e is Done),
        _ => false,
    }
}

/// Carries a request out on the connection, and replies to it.
pub fn handle_msg(conn: &mut Connection, msg: DtpMsg) -> (reply: Option<DtpMsg>)
    ensures
        reply == reply_to(*old(conn), msg),
        *final(conn) == conn_after(*old(conn), msg),
        source_id(*final(conn)) == source_id(*old(conn)),
        is_request(msg) <==> reply is Some,
        reply matches Some(r) ==> fits_request(r, msg),
{
    match msg {
        DtpMsg::DtpSend { buf, fin, stream_id } => {
            if conn.is_established() {
                let res: Result<usize, Error> = conn.stream_send(stream_id, buf.as_slice(), fin);
                Some(DtpMsg::DtpSendRet { res })
            } else {
                Some(DtpMsg::DtpSendRetry)
            }
        },
        DtpMsg::DtpRecv { stream_id, .. } => {
            let mut out: Vec<u8> = Vec::new();
            let res: Result<(usize, bool), Error> = conn.stream_recv(stream_id, out.as_mut_slice());
            Some(DtpMsg::DtpRecvRet { res })
        },
        DtpMsg::DtpClose { app, err, reason } => {
            let res: Result<(), Error> = conn.close(app, err, reason.as_str().as_bytes());
            Some(DtpMsg::DtpCloseRet { res })
        },
        _ => None,
    }
}

/// Why a request to send did not go well.
#[derive(Debug)]
pub enum SendError {
    /// The transport failed.
    Transport(Error),
    /// The connection is not ready; the request is to be made again.
    Retry,
    /// The reply is none to a request to send.
    UnexpectedReply,
}

impl SendError {
    /// The text of the failure; `None` for a failure of the transport, which
    /// has a text of its own.
    pub fn message(&self) -> (text: Option<&'static str>)
        ensures
            match text {
                Some(t) => self is Retry && t@ == "retry"@ || self is UnexpectedReply && t@
                    == "error in send ret recv"@,
                None => self is Transport,
            },
    {
        match self {
            SendError::Transport(_) => None,
            SendError::Retry => Some("retry"),
            SendError::UnexpectedReply => Some("error in send ret recv"),
        }
    }
}

/// The outcome of a request to send, from the reply to it.
pub open spec fn send_outcome(reply: DtpMsg) -> Result<usize, SendError> {
    match reply {
        DtpMsg::DtpSendRet { res: Ok(n) } => Ok(n),
        DtpMsg::DtpSendRet { res: Err(e) } => Err(SendError::Transport(e)),
        DtpMsg::DtpSendRetry => Err(SendError::Retry),
        _ => Err(SendError::UnexpectedReply),
    }
}

/// The request that sends `buf` on a stream.
pub fn send_request(buf: Vec<u8>, fin: bool, stream_id: u64) -> (msg: DtpMsg)
    ensures
        msg == (DtpMsg::DtpSend { buf, fin, stream_id }),
{
    DtpMsg::DtpSend { buf, fin, stream_id }
}

/// Reads the reply to a request to send.
pub fn send_result(reply: DtpMsg) -> (outcome: Result<usize, SendError>)
    ensures
        outcome == send_outcome(reply),
{
    match reply {
        DtpMsg::DtpSendRet { res } => match res {
            Ok(n) => Ok(n),
            Err(e) => Err(SendError::Transport(e)),
        },
        DtpMsg::DtpSendRetry => Err(SendError::Retry),
        _ => Err(SendError::UnexpectedReply),
    }
}

/// A request to send is always answered as such: its sender learns how many of
/// its bytes were taken, that the transport failed, or that it has to try again,
/// and never meets a reply that it does not understand.
pub proof fn send_reply_is_understood(reply: DtpMsg, msg: DtpMsg)
    requires
        msg is DtpSend,
        fits_request(reply, msg),
    ensures
        send_outcome(reply) matches Ok(n) ==> n <= msg->buf@.len(),
        send_outcome(reply) matches Err(e) ==> !(e is UnexpectedReply),
{
}

/// A request to send is carried out exactly as it was made, once, if the handshake
/// is complete; before that the sender is told to try again and nothing is sent.
pub proof fn requests_to_send_are_carried_out(
    conn: Connection,
    buf: Vec<u8>,
    fin: bool,
    stream_id: u64,
)
    ensures
        ({
            let msg = DtpMsg::DtpSend { buf, fin, stream_id };
            if established(conn) {
                &&& reply_to(conn, msg) == Some(
                    DtpMsg::DtpSendRet { res: send_answer(conn, stream_id, buf@, fin) },
                )
                &&& conn_after(conn, msg) == after_stream_send(conn, stream_id, buf@, fin)
            } else {
                &&& reply_to(conn, msg) == Some(DtpMsg::DtpSendRetry)
                &&& conn_after(conn, msg) == conn
            }
        }),
{
}

/// A request to receive asks its stream, and a request to close closes with what
/// it brings; both are replied to with what came of it.
pub proof fn requests_to_receive_and_to_close_are_carried_out(
    conn: Connection,
    stream_id: u64,
    buflen: usize,
    app: bool,
    err: u64,
    reason: String,
)
    ensures
        reply_to(conn, DtpMsg::DtpRecv { stream_id, buflen }) == Some(
            DtpMsg::DtpRecvRet { res: recv_answer(conn, stream_id, Seq::empty()).0 },
        ),
        conn_after(conn, DtpMsg::DtpRecv { stream_id, buflen }) == after_stream_recv(
            conn,
            stream_id,
            Seq::empty(),
        ),
        reply_to(conn, DtpMsg::DtpClose { app, err, reason }) == Some(
            DtpMsg::DtpCloseRet { res: close_answer(conn, app, err, encode_utf8(reason@)) },
        ),
        conn_after(conn, DtpMsg::DtpClose { app, err, reason }) == after_close(
            conn,
            app,
            err,
            encode_utf8(reason@),
        ),
{
}

/// Requests are replied to; what is no request is not, and changes nothing.
pub proof fn only_requests_have_an_effect(conn: Connection, msg: DtpMsg)
    ensures
        reply_to(conn, msg) is Some <==> msg is DtpSend || msg is DtpRecv || msg is DtpClose,
        reply_to(conn, msg) is None ==> conn_after(conn, msg) == conn,
        is_request(msg) <==> msg is DtpSend || msg is DtpRecv || msg is DtpClose,
{
}

/// A sender learns the number of bytes or the failure that the stream answered,
/// or that it has to try again; any other reply is one that it did not ask for.
pub proof fn senders_learn_what_was_answered(reply: DtpMsg, n: usize, e: Error)
    ensures
        send_outcome(DtpMsg::DtpSendRet { res: Ok(n) }) == Ok::<usize, SendError>(n),
        send_outcome(DtpMsg::DtpSendRet { res: Err(e) }) == Err::<usize, SendError>(
            SendError::Transport(e),
        ),
        send_outcome(DtpMsg::DtpSendRetry) == Err::<usize, SendError>(SendError::Retry),
        !(reply is DtpSendRet) && !(reply is DtpSendRetry) ==> send_outcome(reply) == Err::<
            usize,
            SendError,
        >(SendError::UnexpectedReply),
{
}

} // verus!
