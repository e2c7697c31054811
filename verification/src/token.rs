//! Stateless retry tokens.
//!
//! A token is the tag `quiche`, the octets of the client's IP address and the
//! destination connection ID that the client chose first, one after the other.
//! Nothing in it is authenticated.
use vstd::prelude::*;
use vstd::slice::slice_subrange;

use crate::bytes::{append_bytes, bytes_eq, copy_bytes};
use crate::packet::{opt_bytes, PacketHeader};

verus! {

/// Number of bytes in the tag that every token starts with.
pub const TOKEN_TAG_LEN: usize = 6;

/// IP address of a peer, by its octets in network order.
#[derive(Clone, Copy, Debug, PartialEq, Eq)]
pub enum PeerIp {
    V4([u8; 4]),
    V6([u8; 16]),
}

impl View for PeerIp {
    type V = Seq<u8>;

    open spec fn view(&self) -> Seq<u8> {
        match self {
            PeerIp::V4(octets) => octets@,
            PeerIp::V6(octets) => octets@,
        }
    }
}

impl PeerIp {
    /// Whether two addresses are of the same family.
    pub open spec fn same_family(self, other: PeerIp) -> bool {
        self is V4 <==> other is V4
    }

    /// The octets of the address: four for IPv4, sixteen for IPv6.
    pub fn octets(&self) -> (octets: Vec<u8>)
        ensures
            octets@ == self@,
            self is V4 ==> octets@.len() == 4,
            self is V6 ==> octets@.len() == 16,
    {
        match self {
            PeerIp::V4(octets) => copy_bytes(octets.as_slice()),
            PeerIp::V6(octets) => copy_bytes(octets.as_slice()),
        }
    }
}

/// The tag that every token starts with: `quiche` in ASCII.
pub open spec fn token_tag() -> Seq<u8> {
    seq![0x71u8, 0x75, 0x69, 0x63, 0x68, 0x65]
}

/// The token for the address `octets` and the connection ID `dcid`.
pub open spec fn token_for(octets: Seq<u8>, dcid: Seq<u8>) -> Seq<u8> {
    token_tag() + octets + dcid
}

/// The connection ID that `token` holds for the address `octets`: what follows
/// the tag and the address, if the token starts with both.
pub open spec fn token_dcid(octets: Seq<u8>, token: Seq<u8>) -> Option<Seq<u8>> {
    let n = TOKEN_TAG_LEN + octets.len();
    if n <= token.len() && token.take(n) == token_tag() + octets {
        Some(token.skip(n))
    } else {
        None
    }
}

fn tag_bytes() -> (tag: Vec<u8>)
    ensures
        tag@ == token_tag(),
{
    let tag: Vec<u8> = vec![0x71, 0x75, 0x69, 0x63, 0x68, 0x65];
    assert(tag@ =~= token_tag());
    tag
}

/// Generates a stateless retry token.
///
/// The token holds the tag `quiche`, then the IP address of the client, then
/// the destination connection ID of `hdr`, which the client generated.
///
/// The token carries no cryptographic authentication.
pub fn mint_token(hdr: &PacketHeader, src: &PeerIp) -> (token: Vec<u8>)
    ensures
        token@ == token_for(src@, hdr.dcid@),
        token@ == seq![0x71u8, 0x75, 0x69, 0x63, 0x68, 0x65] + src@ + hdr.dcid@,
{
    let mut token: Vec<u8> = tag_bytes();
    let octets: Vec<u8> = src.octets();
    append_bytes(&mut token, octets.as_slice());
    append_bytes(&mut token, hdr.dcid.as_slice());
    token
}

/// Validates a stateless retry token.
///
/// The token is accepted exactly when it starts with the tag `quiche` and with
/// the client's IP address; what follows them is the original destination
/// connection ID.
pub fn validate_token(src: &PeerIp, token: &[u8]) -> (odcid: Option<Vec<u8>>)
    ensures
        opt_bytes(odcid) == token_dcid(src@, token@),
{
    let tag: Vec<u8> = tag_bytes();
    let octets: Vec<u8> = src.octets();
    let ghost n = TOKEN_TAG_LEN + octets@.len();
    if token.len() < TOKEN_TAG_LEN {
        return None;
    }
    if !bytes_eq(slice_subrange(token, 0, TOKEN_TAG_LEN), tag.as_slice()) {
        proof {
            if n <= token@.len() {
                assert(token@.subrange(0, 6) =~= token@.take(n as int).take(6));
                assert((token_tag() + octets@).take(6) =~= token_tag());
            }
        }
        return None;
    }
    let rest: &[u8] = slice_subrange(token, TOKEN_TAG_LEN, token.len());
    if rest.len() < octets.len() {
        return None;
    }
    let addr: &[u8] = slice_subrange(rest, 0, octets.len());
    assert(token@.take(n as int) =~= token_tag() + addr@);
    if !bytes_eq(addr, octets.as_slice()) {
        assert((token_tag() + addr@).skip(6) =~= addr@);
        assert((token_tag() + octets@).skip(6) =~= octets@);
        return None;
    }
    let cid: Vec<u8> = copy_bytes(slice_subrange(rest, octets.len(), rest.len()));
    assert(cid@ =~= token@.skip(n as int));
    Some(cid)
}

/// Validating a token for the address that it was minted for gives back the
/// connection ID that it was minted for.
pub proof fn minted_token_validates(octets: Seq<u8>, dcid: Seq<u8>)
    ensures
        token_dcid(octets, token_for(octets, dcid)) == Some(dcid),
{
    let n = (TOKEN_TAG_LEN + octets.len()) as int;
    assert(token_for(octets, dcid).take(n) =~= token_tag() + octets);
    assert(token_for(octets, dcid).skip(n) =~= dcid);
}

/// Only minted tokens validate: a token that gives a connection ID for an
/// address is the very token minted for that address and connection ID.
pub proof fn validated_token_was_minted(octets: Seq<u8>, token: Seq<u8>)
    requires
        token_dcid(octets, token) is Some,
    ensures
        token == token_for(octets, token_dcid(octets, token)->0),
{
    let n = (TOKEN_TAG_LEN + octets.len()) as int;
    assert(token =~= token.take(n) + token.skip(n));
}

/// A token is bound to the address that it was minted for: no other address of
/// the same family accepts it.
pub proof fn token_bound_to_address(minted: PeerIp, presented: PeerIp, dcid: Seq<u8>)
    requires
        minted.same_family(presented),
        minted@ != presented@,
    ensures
        token_dcid(presented@, token_for(minted@, dcid)) is None,
{
    let n = (TOKEN_TAG_LEN + minted@.len()) as int;
    assert(token_for(minted@, dcid).take(n) =~= token_tag() + minted@);
    assert((token_tag() + minted@).skip(6) =~= minted@);
    assert((token_tag() + presented@).skip(6) =~= presented@);
}

/// A token is made of the tag `quiche`, the address and the connection ID, one
/// after the other, and is read back from these places.
pub proof fn tokens_are_made_of_tag_address_and_id(octets: Seq<u8>, dcid: Seq<u8>)
    ensures
        token_for(octets, dcid).len() == 6 + octets.len() + dcid.len(),
        token_for(octets, dcid).take(6) == seq![0x71u8, 0x75, 0x69, 0x63, 0x68, 0x65],
        token_for(octets, dcid).subrange(6, 6 + octets.len() as int) == octets,
        token_for(octets, dcid).skip(6 + octets.len() as int) == dcid,
{
    let token = token_for(octets, dcid);
    assert(token.take(6) =~= seq![0x71u8, 0x75, 0x69, 0x63, 0x68, 0x65]);
    assert(token.subrange(6, 6 + octets.len() as int) =~= octets);
    assert(token.skip(6 + octets.len() as int) =~= dcid);
}

/// A token is accepted for an address exactly if it is the tag, that address and
/// something more, which is the connection ID that it holds.
pub proof fn tokens_are_accepted_for_their_address_only(
    octets: Seq<u8>,
    token: Seq<u8>,
    dcid: Seq<u8>,
)
    ensures
        token_dcid(octets, token) == Some(dcid) <==> token == seq![
            0x71u8,
            0x75,
            0x69,
            0x63,
            0x68,
            0x65,
        ] + octets + dcid,
{
    minted_token_validates(octets, dcid);
    if token_dcid(octets, token) is Some {
        validated_token_was_minted(octets, token);
    }
}

} // verus!
