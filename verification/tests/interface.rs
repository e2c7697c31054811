use nanwei_api_rust::api::DtpApi;
use nanwei_api_rust::error::{error_to_c, DtpError};
use nanwei_api_rust::ffi::{
    client_closed, dtp_accept, dtp_bind, dtp_close, dtp_close_connections, dtp_connect,
    dtp_connect_is_close,    dtp_get_connio_listenfd, dtp_get_conns_listenfd, dtp_listen, dtp_socket, dtp_socket_close,
    may_bind, may_connect, plan_close, release, report_closed, report_send, report_stream,
    server_started, AcceptStep, CloseStep, DtpConnection, SendStatus,
};
use nanwei_api_rust::status::{ClientStatus, SharedStreams};
use quiche::Error;

fn api() -> DtpApi<&'static str, &'static str, &'static str, &'static str, &'static str, u32> {
    DtpApi::new()
}

#[test]
fn descriptors_start_above_zero_and_are_not_reused() {
    let mut a = api();
    assert_eq!(dtp_socket(&mut a), 1);
    assert_eq!(dtp_socket(&mut a), 2);
    assert_eq!(dtp_socket_close(&mut a, 2), 0);
    assert!(!a.has_sock_entry(2));
    assert_eq!(dtp_socket(&mut a), 3);
    assert!(a.has_sock_entry(1));
    assert!(!a.has_sock(1));
}

#[test]
fn descriptors_run_out() {
    let mut a = api();
    a.next_fd = i32::MAX;
    assert_eq!(dtp_socket(&mut a), -1);
    assert_eq!(a.next_fd, i32::MAX);
    assert!(a.sock_map.is_empty());
}

#[test]
fn unknown_descriptor_cannot_be_closed() {
    let mut a = api();
    assert_eq!(dtp_socket_close(&mut a, 1), -1);
    assert_eq!(dtp_socket_close(&mut a, -1), -1);
}

#[test]
fn server_is_bound_and_listens() {
    let mut a = api();
    assert!(!may_bind(&a, 1));
    assert_eq!(dtp_bind(&mut a, 1, Some(("socket", "server"))), -1);
    let sock = dtp_socket(&mut a);
    assert!(may_bind(&a, sock));
    assert_eq!(dtp_bind(&mut a, sock, None), -1);
    assert!(!a.has_sock(sock));
    assert_eq!(dtp_bind(&mut a, sock, Some(("socket", "server"))), 1);
    assert!(a.has_sock(sock));
    assert!(a.has_server(sock));
    assert_eq!(dtp_bind(&mut a, sock, Some(("other", "other"))), -1);
    assert_eq!(dtp_socket_close(&mut a, sock), -1);
    assert_eq!(dtp_listen(&mut a, sock), Some("server"));
    assert_eq!(dtp_listen(&mut a, sock), None);
    server_started(&mut a, sock, 77, "streams", "waker");
    assert_eq!(a.server_handles.get(&sock), Some(&77));
    assert_eq!(a.server_shared_map.get(&sock), Some(&"streams"));
    assert_eq!(a.server_waker_map.get(&sock), Some(&"waker"));
}

#[test]
fn client_is_connected_and_closed() {
    let mut a = api();
    assert!(!dtp_connect(&mut a, 1, Some(("socket", "client", 5))));
    let sock = dtp_socket(&mut a);
    assert!(may_connect(&a, sock));
    assert!(!dtp_connect(&mut a, sock, None));
    assert!(dtp_connect(&mut a, sock, Some(("socket", "client", 5))));
    assert!(a.has_client(sock));
    assert!(a.has_sock(sock));
    assert!(!may_connect(&a, sock));
    assert!(!dtp_connect(&mut a, sock, Some(("other", "other", 6))));
    assert_eq!(dtp_socket_close(&mut a, sock), -1);
    assert_eq!(client_closed(&mut a, sock), Some(5));
    assert_eq!(client_closed(&mut a, sock), None);
    assert!(!a.has_client(sock));
    assert_eq!(dtp_socket_close(&mut a, sock), 0);
}

#[test]
fn accepting_gives_the_end_of_the_oldest_connection() {
    let mut s: SharedStreams<u32> = SharedStreams::new();
    assert!(matches!(dtp_accept(&mut s, false), AcceptStep::Nothing));
    assert!(matches!(dtp_accept(&mut s, true), AcceptStep::TryAgain));
    s.connected(vec![7], 70);
    match dtp_accept(&mut s, true) {
        AcceptStep::Accepted(i, conn_io) => {
            assert_eq!(i, 0);
            assert!(conn_io.is_server_side);
            assert_eq!(conn_io.conn_id, Some(vec![7]));
            assert_eq!(conn_io.sockid, None);
            assert_eq!(s.status(&[7]), Some(ClientStatus::Accepted));
            release(&conn_io, &mut s);
            assert_eq!(s.status(&[7]), Some(ClientStatus::Close));
        }
        _ => panic!("not accepted"),
    }
    assert!(matches!(dtp_accept(&mut s, false), AcceptStep::Nothing));
}

#[test]
fn ends_of_connections() {
    let c = DtpConnection::connected(9);
    assert!(!c.is_server_side);
    assert_eq!(c.sockid, Some(9));
    assert_eq!(c.conn_id, None);
}

#[test]
fn reports_of_reception() {
    let r = report_stream(8, Ok((11, true))).unwrap();
    assert_eq!(r.code, 11);
    assert_eq!(r.stream, Some((8, true)));
    assert!(report_stream(8, Err(Error::Done)).is_none());
    let r = report_stream(8, Err(Error::StreamReset(3))).unwrap();
    assert_eq!(r.code, -16);
    assert_eq!(r.stream, None);
}

#[test]
fn reports_of_sending() {
    let r = report_send(Ok(11));
    assert_eq!(r.code, 11);
    assert!(r.wake);
    assert_eq!(report_send(Err(Error::Done)).code, -1);
    assert_eq!(report_send(Err(Error::FlowControl)).code, -11);
}

#[test]
fn sender_reads_the_code() {
    assert_eq!(SendStatus::of_code(0), SendStatus::Sent);
    assert_eq!(SendStatus::of_code(11), SendStatus::Sent);
    assert_eq!(SendStatus::of_code(-1), SendStatus::Done);
    assert_eq!(SendStatus::of_code(-42), SendStatus::Retry);
    assert_eq!(SendStatus::of_code(-404), SendStatus::Failed);
    assert_eq!(SendStatus::of_code(-7), SendStatus::Failed);
}

#[test]
fn closing_one_end() {
    assert_eq!(plan_close(false, true, false), CloseStep::StopClient);
    assert_eq!(plan_close(false, true, true), CloseStep::StopClient);
    assert_eq!(plan_close(false, false, false), CloseStep::Refuse);
    assert_eq!(plan_close(true, true, false), CloseStep::Refuse);
    assert_eq!(plan_close(true, false, true), CloseStep::ReleaseServer);
    assert_eq!(dtp_close(None), CloseStep::Refuse);
    assert_eq!(CloseStep::Refuse.code(), -1);
    assert_eq!(CloseStep::StopClient.code(), 1);
    assert_eq!(CloseStep::ReleaseServer.code(), 1);
}

#[test]
fn closed_connections_are_reported() {
    assert_eq!(report_closed(Some(true)), 1);
    assert_eq!(report_closed(Some(false)), 0);
    assert_eq!(report_closed(None), -1);
    assert_eq!(dtp_connect_is_close(None), -1);
}

#[test]
fn all_connections_are_closed_where_there_is_a_server() {
    assert_eq!(dtp_close_connections(None), -1);
    assert_eq!(dtp_close_connections(Some(vec![])), 1);
}

#[test]
fn what_is_not_offered() {
    assert_eq!(dtp_get_conns_listenfd(), -1);
    assert_eq!(dtp_get_connio_listenfd(), -1);
}

#[test]
fn numbers_of_failures() {
    let all = [
        Error::Done,
        Error::BufferTooShort,
        Error::UnknownVersion,
        Error::InvalidFrame,
        Error::InvalidPacket,
        Error::InvalidState,
        Error::InvalidStreamState(4),
        Error::InvalidTransportParam,
        Error::CryptoFail,
        Error::TlsFail,
        Error::FlowControl,
        Error::StreamLimit,
        Error::FinalSize,
        Error::CongestionControl,
        Error::StreamStopped(1),
        Error::StreamReset(2),
    ];
    for (i, e) in all.into_iter().enumerate() {
        assert_eq!(error_to_c(e), -1 - (i as isize));
    }
    assert_eq!(DtpError::DtpNotEstablished.code(), -42);
    assert_eq!(DtpError::DtpNull.code(), -404);
    assert_eq!(DtpError::DtpDefaultErr.code(), -444);
}
