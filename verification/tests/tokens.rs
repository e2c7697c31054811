use nanwei_api_rust::packet::PacketHeader;
use nanwei_api_rust::token::{mint_token, validate_token, PeerIp};

fn header(dcid: &[u8]) -> PacketHeader {
    PacketHeader {
        ty: quiche::Type::Initial,
        version: 1,
        dcid: dcid.to_vec(),
        scid: vec![9, 9],
        token: Some(vec![]),
    }
}

#[test]
fn token_holds_tag_address_and_connection_id() {
    let token = mint_token(&header(&[1, 2, 3]), &PeerIp::V4([127, 0, 0, 1]));
    assert_eq!(token, b"quiche\x7f\x00\x00\x01\x01\x02\x03".to_vec());
}

#[test]
fn token_round_trip_ipv4() {
    let src = PeerIp::V4([10, 0, 0, 7]);
    let token = mint_token(&header(&[5, 6, 7, 8]), &src);
    assert_eq!(validate_token(&src, &token), Some(vec![5, 6, 7, 8]));
}

#[test]
fn token_round_trip_ipv6() {
    let mut octets = [0u8; 16];
    octets[15] = 1;
    let src = PeerIp::V6(octets);
    let token = mint_token(&header(&[]), &src);
    assert_eq!(token.len(), 22);
    assert_eq!(validate_token(&src, &token), Some(vec![]));
}

#[test]
fn token_of_another_address_is_refused() {
    let token = mint_token(&header(&[5, 6]), &PeerIp::V4([10, 0, 0, 7]));
    assert_eq!(validate_token(&PeerIp::V4([10, 0, 0, 8]), &token), None);
}

#[test]
fn token_with_a_wrong_tag_is_refused() {
    let src = PeerIp::V4([10, 0, 0, 7]);
    assert_eq!(validate_token(&src, b"Quiche\x0a\x00\x00\x07\x01"), None);
}

#[test]
fn short_tokens_are_refused() {
    let src = PeerIp::V4([10, 0, 0, 7]);
    assert_eq!(validate_token(&src, b""), None);
    assert_eq!(validate_token(&src, b"quich"), None);
    assert_eq!(validate_token(&src, b"quiche"), None);
    assert_eq!(validate_token(&src, b"quiche\x0a\x00\x00"), None);
    assert_eq!(validate_token(&src, b"quiche\x0a\x00\x00\x07"), Some(vec![]));
}

#[test]
fn a_token_may_pass_for_one_of_the_other_family() {
    // The address of the token is followed by bytes that complete the other one.
    let token = mint_token(&header(&[0; 12]), &PeerIp::V4([0; 4]));
    assert_eq!(validate_token(&PeerIp::V6([0; 16]), &token), Some(vec![]));
}

#[test]
fn octets_of_addresses() {
    assert_eq!(PeerIp::V4([1, 2, 3, 4]).octets(), vec![1, 2, 3, 4]);
    assert_eq!(PeerIp::V6([7; 16]).octets(), vec![7; 16]);
}
