use nanwei_api_rust::conn_id::ConnIdSeed;
use nanwei_api_rust::id_table::IdTable;
use nanwei_api_rust::packet::PacketHeader;
use nanwei_api_rust::server::{
    add_client, collect_garbage, route, route_packet, shortest_timeout, ClientMap, DropReason,
    Route, RouteKind,
};
use nanwei_api_rust::status::{ClientStatus, SharedStreams};
use nanwei_api_rust::token::PeerIp;

const SRC: PeerIp = PeerIp::V4([192, 168, 0, 1]);

fn seed() -> ConnIdSeed {
    ConnIdSeed::from_bytes(vec![7; 32])
}

fn long_packet(first: u8, version: u32, dcid: &[u8], scid: &[u8], token: &[u8]) -> Vec<u8> {
    let mut pkt = vec![first];
    pkt.extend_from_slice(&version.to_be_bytes());
    pkt.push(dcid.len() as u8);
    pkt.extend_from_slice(dcid);
    pkt.push(scid.len() as u8);
    pkt.extend_from_slice(scid);
    assert!(token.len() < 64);
    pkt.push(token.len() as u8);
    pkt.extend_from_slice(token);
    pkt
}

fn initial(version: u32, dcid: &[u8], token: &[u8]) -> Vec<u8> {
    long_packet(0xc0, version, dcid, &[4, 4, 4], token)
}

fn nothing_known() -> IdTable<u8> {
    IdTable::new()
}

#[test]
fn malformed_packet_is_dropped() {
    let r = route_packet(&nothing_known(), &seed(), &[0xc0, 0], &SRC);
    assert!(matches!(r, Route::Discard(DropReason::Malformed)));
    let r = route_packet(&nothing_known(), &seed(), &[], &SRC);
    assert!(matches!(r, Route::Discard(DropReason::Malformed)));
    assert_eq!(r.kind(), RouteKind::Discard);
}

#[test]
fn packet_of_no_connection_is_dropped() {
    let mut short = vec![0x40];
    short.extend_from_slice(&[5; 20]);
    let r = route_packet(&nothing_known(), &seed(), &short, &SRC);
    assert!(matches!(r, Route::Discard(DropReason::NotInitial)));
    let handshake = long_packet(0xe0, 1, &[5; 20], &[4; 3], &[]);
    let r = route_packet(&nothing_known(), &seed(), &handshake, &SRC);
    assert!(matches!(r, Route::Discard(DropReason::NotInitial)));
}

#[test]
fn unknown_version_is_negotiated() {
    let r = route_packet(&nothing_known(), &seed(), &initial(0x0a0a0a0a, &[1; 8], &[]), &SRC);
    assert_eq!(r.kind(), RouteKind::Reply);
    match r {
        Route::Negotiate { scid, dcid } => {
            assert_eq!(scid, vec![4, 4, 4]);
            assert_eq!(dcid, vec![1; 8]);
        }
        _ => panic!("not negotiated"),
    }
}

#[test]
fn client_without_token_is_retried() {
    let r = route_packet(&nothing_known(), &seed(), &initial(1, &[1; 8], &[]), &SRC);
    assert_eq!(r.kind(), RouteKind::Reply);
    match r {
        Route::Retry { scid, dcid, new_scid, token, version } => {
            assert_eq!(scid, vec![4, 4, 4]);
            assert_eq!(dcid, vec![1; 8]);
            assert_eq!(new_scid, seed().derive(&[1; 8]));
            assert_eq!(token, b"quiche\xc0\xa8\x00\x01\x01\x01\x01\x01\x01\x01\x01\x01".to_vec());
            assert_eq!(version, 1);
        }
        _ => panic!("not retried"),
    }
}

#[test]
fn retried_client_comes_in() {
    let first = route_packet(&nothing_known(), &seed(), &initial(1, &[1; 8], &[]), &SRC);
    let (new_scid, token) = match first {
        Route::Retry { new_scid, token, .. } => (new_scid, token),
        _ => panic!("not retried"),
    };
    let r = route_packet(&nothing_known(), &seed(), &initial(1, &new_scid, &token), &SRC);
    assert_eq!(r.kind(), RouteKind::Open);
    match r {
        Route::Accept { scid, odcid } => {
            assert_eq!(scid, new_scid);
            assert_eq!(odcid, vec![1; 8]);
        }
        _ => panic!("not accepted"),
    }
}

#[test]
fn token_of_another_sender_is_dropped() {
    let token = b"quiche\xc0\xa8\x00\x02\x01";
    let r = route_packet(&nothing_known(), &seed(), &initial(1, &[1; 20], token), &SRC);
    assert!(matches!(r, Route::Discard(DropReason::InvalidToken)));
}

#[test]
fn destination_of_a_wrong_length_is_dropped() {
    let token = b"quiche\xc0\xa8\x00\x01\x01";
    let r = route_packet(&nothing_known(), &seed(), &initial(1, &[1; 8], token), &SRC);
    assert!(matches!(r, Route::Discard(DropReason::InvalidDestination)));
}

#[test]
fn known_connection_gets_its_packet() {
    let mut known: IdTable<u8> = IdTable::new();
    known.insert(vec![5; 20], 1);
    let mut short = vec![0x40];
    short.extend_from_slice(&[5; 20]);
    let r = route_packet(&known, &seed(), &short, &SRC);
    assert_eq!(r.kind(), RouteKind::Deliver);
    match r {
        Route::Deliver { id } => assert_eq!(id, vec![5; 20]),
        _ => panic!("not delivered"),
    }
}

#[test]
fn connection_is_found_by_its_derived_id() {
    let mut known: IdTable<u8> = IdTable::new();
    known.insert(seed().derive(&[1; 8]), 1);
    match route_packet(&known, &seed(), &initial(1, &[1; 8], &[]), &SRC) {
        Route::Deliver { id } => assert_eq!(id, seed().derive(&[1; 8])),
        _ => panic!("not delivered"),
    }
}

#[test]
fn routing_by_header() {
    let hdr = PacketHeader {
        ty: quiche::Type::Initial,
        version: 1,
        dcid: vec![1; 20],
        scid: vec![],
        token: Some(b"quiche\xc0\xa8\x00\x01\x09".to_vec()),
    };
    match route(&nothing_known(), &hdr, vec![2; 20], &SRC) {
        Route::Accept { scid, odcid } => {
            assert_eq!(scid, vec![1; 20]);
            assert_eq!(odcid, vec![9]);
        }
        _ => panic!("not accepted"),
    }
}

fn two_clients() -> (ClientMap<u32>, SharedStreams<u32>) {
    let mut clients: ClientMap<u32> = IdTable::new();
    let mut streams = SharedStreams::new();
    add_client(&mut clients, &mut streams, &[1], 10, 11);
    add_client(&mut clients, &mut streams, &[2], 20, 21);
    (clients, streams)
}

#[test]
fn new_client_is_known_and_waits() {
    let (clients, streams) = two_clients();
    assert_eq!(clients.len(), 2);
    assert_eq!(clients.value_at(1).conn, 20);
    assert!(clients.value_at(1).partial_responses.unsent(0).is_none());
    assert_eq!(streams.client_status.value_at(1).conn, 21);
    assert_eq!(streams.status(&[2]), Some(ClientStatus::Connected));
    assert_eq!(streams.status(&[3]), None);
}

#[test]
fn only_finished_connections_are_collected() {
    let (mut clients, mut streams) = two_clients();
    assert!(collect_garbage(&mut clients, &vec![true, true], &streams));
    assert_eq!(clients.len(), 2);
    streams.mark_closed(&[1]);
    assert!(collect_garbage(&mut clients, &vec![false, true], &streams));
    assert_eq!(clients.len(), 2);
    assert!(collect_garbage(&mut clients, &vec![true, true], &streams));
    assert_eq!(clients.len(), 1);
    assert!(!clients.contains(&[1]));
    assert!(clients.contains(&[2]));
    assert_eq!(clients.id_at(0), &vec![2]);
}

#[test]
fn both_tables_know_a_connection_under_one_id() {
    let mut clients: ClientMap<u32> = IdTable::new();
    let mut streams = SharedStreams::new();
    add_client(&mut clients, &mut streams, &[1], 10, 10);
    add_client(&mut clients, &mut streams, &[2], 20, 20);
    add_client(&mut clients, &mut streams, &[3], 30, 30);
    streams.accept();
    streams.mark_closed(&[1]);
    assert!(collect_garbage(&mut clients, &vec![true, true, false], &streams));
    assert_eq!(clients.len(), 2);
    for i in 0..clients.len() {
        let position = streams.client_status.position(clients.id_at(i)).unwrap();
        assert_eq!(streams.client_status.value_at(position).conn, clients.value_at(i).conn);
    }
}

#[test]
fn connection_without_status_is_noticed() {
    let (mut clients, _) = two_clients();
    let streams = SharedStreams::new();
    assert!(!collect_garbage(&mut clients, &vec![true, true], &streams));
    assert_eq!(clients.len(), 2);
}

#[test]
fn shortest_of_the_timeouts() {
    assert_eq!(shortest_timeout(&vec![]), None);
    assert_eq!(shortest_timeout(&vec![None, None]), None);
    assert_eq!(shortest_timeout(&vec![Some(7), None, Some(3), Some(5)]), Some(3));
    assert_eq!(shortest_timeout(&vec![Some(0), Some(9)]), Some(0));
}
