use nanwei_api_rust::conn_id::{random_conn_id, ConnIdSeed};
use nanwei_api_rust::packet::{retry_packet, MAX_CONN_ID_LEN, MAX_DATAGRAM_SIZE};

#[test]
fn connection_ids_are_as_long_as_the_transport_allows() {
    assert_eq!(MAX_CONN_ID_LEN, quiche::MAX_CONN_ID_LEN);
}

#[test]
fn retry_packet_reads_back() {
    let (scid, dcid, new_scid) = ([1u8; 8], [2u8; 9], [3u8; 20]);
    let mut pkt = retry_packet(&scid, &dcid, &new_scid, b"a token", 1).unwrap();
    assert_eq!(pkt.len(), 23 + 8 + 20 + 7);
    let hdr = quiche::Header::from_slice(&mut pkt, MAX_CONN_ID_LEN).unwrap();
    assert!(hdr.ty == quiche::Type::Retry);
    assert_eq!(hdr.version, 1);
    assert_eq!(hdr.dcid.to_vec(), scid.to_vec());
    assert_eq!(hdr.scid.to_vec(), new_scid.to_vec());
    assert_eq!(hdr.token, Some(b"a token".to_vec()));
}

#[test]
fn retry_packet_is_bound_to_the_first_connection_id() {
    let a = retry_packet(&[1; 8], &[2; 9], &[3; 20], b"t", 1).unwrap();
    let b = retry_packet(&[1; 8], &[2; 9], &[3; 20], b"t", 1).unwrap();
    let c = retry_packet(&[1; 8], &[4; 9], &[3; 20], b"t", 1).unwrap();
    assert_eq!(a, b);
    assert_ne!(a, c);
}

#[test]
fn retry_packet_of_an_unknown_version() {
    assert_eq!(
        retry_packet(&[1; 8], &[2; 9], &[3; 20], b"t", 0x0a0a0a0a),
        Err(quiche::Error::UnknownVersion)
    );
}

#[test]
fn retry_packet_has_to_fit_a_datagram() {
    let token = vec![7u8; MAX_DATAGRAM_SIZE - 23 - 8 - 20];
    let pkt = retry_packet(&[1; 8], &[2; 9], &[3; 20], &token, 1).unwrap();
    assert_eq!(pkt.len(), MAX_DATAGRAM_SIZE);
    let token = vec![7u8; MAX_DATAGRAM_SIZE - 23 - 8 - 20 + 1];
    assert_eq!(
        retry_packet(&[1; 8], &[2; 9], &[3; 20], &token, 1),
        Err(quiche::Error::BufferTooShort)
    );
}

#[test]
fn supported_versions() {
    for version in [1, 0xff00001b, 0xff00001c, 0xff00001d] {
        assert!(quiche::version_is_supported(version));
    }
    for version in [0, 2, 0xff00001a, 0xff00001e, 0x0a0a0a0a] {
        assert!(!quiche::version_is_supported(version));
    }
}

#[test]
fn derived_connection_id_is_an_hmac() {
    // The first test case of RFC 4231, cut to the length of a connection ID.
    let seed = ConnIdSeed::from_bytes(vec![0x0b; 20]);
    assert_eq!(
        seed.derive(b"Hi There"),
        vec![
            0xb0, 0x34, 0x4c, 0x61, 0xd8, 0xdb, 0x38, 0x53, 0x5c, 0xa8, 0xaf, 0xce, 0xaf, 0x0b,
            0xf1, 0x2b, 0x88, 0x1d, 0xc2, 0x00
        ]
    );
}

#[test]
fn generated_seeds_differ() {
    let a = ConnIdSeed::generate().unwrap();
    let b = ConnIdSeed::generate().unwrap();
    assert_ne!(a.derive(b"x"), b.derive(b"x"));
    assert_eq!(a.derive(b"x"), a.derive(b"x"));
}

#[test]
fn random_connection_ids_differ() {
    let a = random_conn_id().unwrap();
    let b = random_conn_id().unwrap();
    assert_eq!(a.len(), MAX_CONN_ID_LEN);
    assert_eq!(b.len(), MAX_CONN_ID_LEN);
    assert_ne!(a, b);
}
