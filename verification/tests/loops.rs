use nanwei_api_rust::event_loop::{
    client_step, server_step, ClientEvent, ClientPhase, FirstSend, IoOutcome, Produced,
    ServerEvent, ServerPhase,
};
use nanwei_api_rust::server::RouteKind;
use quiche::Error;

#[test]
fn round_of_a_client() {
    let steps = [
        (ClientEvent::Polled { idle: false }, ClientPhase::Receive),
        (ClientEvent::Received(IoOutcome::Done), ClientPhase::Process),
        (ClientEvent::Processed, ClientPhase::Receive),
        (ClientEvent::Received(IoOutcome::WouldBlock), ClientPhase::CheckBeforeWrite),
        (ClientEvent::Closed(false), ClientPhase::Produce),
        (ClientEvent::Produced(Produced::Packet), ClientPhase::Transmit),
        (ClientEvent::Transmitted(IoOutcome::Done), ClientPhase::Produce),
        (ClientEvent::Produced(Produced::Nothing), ClientPhase::CheckAfterWrite),
        (ClientEvent::Closed(false), ClientPhase::Poll),
    ];
    let mut phase = ClientPhase::Poll;
    for (event, expected) in steps {
        phase = client_step(phase, event);
        assert_eq!(phase, expected);
    }
}

#[test]
fn timeout_of_a_client() {
    let phase = client_step(ClientPhase::Poll, ClientEvent::Polled { idle: true });
    assert_eq!(phase, ClientPhase::ExpireTimers);
    let phase = client_step(phase, ClientEvent::TimersExpired);
    assert_eq!(phase, ClientPhase::CheckBeforeWrite);
    let phase = client_step(phase, ClientEvent::Closed(true));
    assert_eq!(phase, ClientPhase::Exit);
    assert_eq!(client_step(phase, ClientEvent::Polled { idle: true }), ClientPhase::Exit);
}

#[test]
fn failures_of_a_client() {
    assert_eq!(client_step(ClientPhase::Poll, ClientEvent::PollFailed), ClientPhase::PollFailed);
    assert_eq!(
        client_step(ClientPhase::Receive, ClientEvent::Received(IoOutcome::Failed)),
        ClientPhase::Panic
    );
    assert_eq!(
        client_step(ClientPhase::Transmit, ClientEvent::Transmitted(IoOutcome::Failed)),
        ClientPhase::Panic
    );
    assert_eq!(
        client_step(ClientPhase::Transmit, ClientEvent::Transmitted(IoOutcome::WouldBlock)),
        ClientPhase::CheckAfterWrite
    );
    let phase = client_step(ClientPhase::Produce, ClientEvent::Produced(Produced::Failed));
    assert_eq!(phase, ClientPhase::Abort);
    assert_eq!(client_step(phase, ClientEvent::Aborted), ClientPhase::CheckAfterWrite);
    assert_eq!(
        client_step(ClientPhase::CheckAfterWrite, ClientEvent::Closed(true)),
        ClientPhase::Exit
    );
}

#[test]
fn event_of_another_phase_changes_nothing() {
    assert_eq!(client_step(ClientPhase::Poll, ClientEvent::Processed), ClientPhase::Poll);
    assert_eq!(server_step(ServerPhase::Poll, ServerEvent::Delivered, 3), ServerPhase::Poll);
}

#[test]
fn round_of_a_server() {
    let steps = [
        (ServerEvent::Polled { idle: false }, ServerPhase::Receive),
        (ServerEvent::Received(IoOutcome::Done), ServerPhase::Route),
        (ServerEvent::Routed(RouteKind::Discard), ServerPhase::Receive),
        (ServerEvent::Received(IoOutcome::Done), ServerPhase::Route),
        (ServerEvent::Routed(RouteKind::Reply), ServerPhase::Reply),
        (ServerEvent::Replied(IoOutcome::Done), ServerPhase::Receive),
        (ServerEvent::Received(IoOutcome::Done), ServerPhase::Route),
        (ServerEvent::Routed(RouteKind::Open), ServerPhase::Open),
        (ServerEvent::Opened(true), ServerPhase::Deliver),
        (ServerEvent::Delivered, ServerPhase::Receive),
        (ServerEvent::Received(IoOutcome::Done), ServerPhase::Route),
        (ServerEvent::Routed(RouteKind::Deliver), ServerPhase::Deliver),
        (ServerEvent::Delivered, ServerPhase::Receive),
        (ServerEvent::Received(IoOutcome::WouldBlock), ServerPhase::Produce(0)),
        (ServerEvent::Produced(Produced::Packet), ServerPhase::Transmit(0)),
        (ServerEvent::Transmitted(IoOutcome::Done), ServerPhase::Produce(0)),
        (ServerEvent::Produced(Produced::Nothing), ServerPhase::Produce(1)),
        (ServerEvent::Produced(Produced::Failed), ServerPhase::Abort(1)),
        (ServerEvent::Aborted, ServerPhase::Collect),
        (ServerEvent::Collected(true), ServerPhase::Poll),
    ];
    let mut phase = ServerPhase::Poll;
    for (event, expected) in steps {
        phase = server_step(phase, event, 2);
        assert_eq!(phase, expected);
    }
}

#[test]
fn server_without_connections_only_collects() {
    let phase = server_step(ServerPhase::Poll, ServerEvent::Polled { idle: true }, 0);
    assert_eq!(phase, ServerPhase::ExpireTimers);
    assert_eq!(server_step(phase, ServerEvent::TimersExpired, 0), ServerPhase::Collect);
    assert_eq!(server_step(phase, ServerEvent::TimersExpired, 1), ServerPhase::Produce(0));
}

#[test]
fn failures_of_a_server() {
    let panics = [
        (ServerPhase::Poll, ServerEvent::PollFailed),
        (ServerPhase::Receive, ServerEvent::Received(IoOutcome::Failed)),
        (ServerPhase::Reply, ServerEvent::Replied(IoOutcome::Failed)),
        (ServerPhase::Open, ServerEvent::Opened(false)),
        (ServerPhase::Transmit(0), ServerEvent::Transmitted(IoOutcome::Failed)),
        (ServerPhase::Collect, ServerEvent::Collected(false)),
        (ServerPhase::Panic, ServerEvent::Polled { idle: true }),
    ];
    for (phase, event) in panics {
        assert_eq!(server_step(phase, event, 1), ServerPhase::Panic);
    }
    assert_eq!(
        server_step(ServerPhase::Reply, ServerEvent::Replied(IoOutcome::WouldBlock), 1),
        ServerPhase::Receive
    );
    assert_eq!(
        server_step(ServerPhase::Transmit(0), ServerEvent::Transmitted(IoOutcome::WouldBlock), 2),
        ServerPhase::Produce(1)
    );
}

#[test]
fn answers_of_a_connection() {
    assert_eq!(Produced::from_answer(Ok(1200)), Produced::Packet);
    assert_eq!(Produced::from_answer(Err(Error::Done)), Produced::Nothing);
    assert_eq!(Produced::from_answer(Err(Error::TlsFail)), Produced::Failed);
}

#[test]
fn first_datagram_is_sent_until_there_is_room() {
    assert_eq!(FirstSend::after(IoOutcome::Done), FirstSend::Sent);
    assert_eq!(FirstSend::after(IoOutcome::WouldBlock), FirstSend::Again);
    assert_eq!(FirstSend::after(IoOutcome::Failed), FirstSend::Panic);
}
