//! QUIC packets as the server reads and writes them before a connection
//! exists: headers, version negotiation and stateless retry.
//!
//! The wire format is quiche's. Its packet functions are reached through the
//! items marked as trusted below; everything else here is proved.
use quiche::{ConnectionId, Error, Header};
use vstd::prelude::*;

verus! {

/// Length in bytes of the longest connection ID, and of every connection ID
/// that this server hands out.
pub const MAX_CONN_ID_LEN: usize = 20;

/// Size in bytes of the largest datagram that is sent.
pub const MAX_DATAGRAM_SIZE: usize = 1350;

/// `quiche::Error`, with its variants.
#[verifier::external_type_specification]
pub struct ExError(quiche::Error);

/// `quiche::Type`, the type of a packet, with its variants.
#[verifier::external_type_specification]
pub struct ExType(quiche::Type);

/// What the server reads of a packet's header.
#[derive(Debug)]
pub struct PacketHeader {
    /// Type of the packet.
    pub ty: quiche::Type,
    /// Version of the packet; 0 in short headers.
    pub version: u32,
    /// Destination connection ID.
    pub dcid: Vec<u8>,
    /// Source connection ID.
    pub scid: Vec<u8>,
    /// Address validation token, in Initial and Retry packets.
    pub token: Option<Vec<u8>>,
}

/// A packet header as a mathematical value.
pub struct HeaderView {
    pub ty: quiche::Type,
    pub version: u32,
    pub dcid: Seq<u8>,
    pub scid: Seq<u8>,
    pub token: Option<Seq<u8>>,
}

/// The bytes in an optional vector.
pub open spec fn opt_bytes(bytes: Option<Vec<u8>>) -> Option<Seq<u8>> {
    match bytes {
        Some(v) => Some(v@),
        None => None,
    }
}

impl View for PacketHeader {
    type V = HeaderView;

    open spec fn view(&self) -> HeaderView {
        HeaderView {
            ty: self.ty,
            version: self.version,
            dcid: self.dcid@,
            scid: self.scid@,
            token: opt_bytes(self.token),
        }
    }
}

/// The outcome of reading a header, with the header as a mathematical value.
pub open spec fn header_result(res: Result<PacketHeader, Error>) -> Result<HeaderView, Error> {
    match res {
        Ok(hdr) => Ok(hdr@),
        Err(e) => Err(e),
    }
}

/// The protocol versions that quiche speaks: QUIC version 1 and the drafts 27,
/// 28 and 29.
pub open spec fn supported_version(version: u32) -> bool {
    version == 0x0000_0001 || version == 0xff00_001b || version == 0xff00_001c || version
        == 0xff00_001d
}

/// What `quiche::Header::from_slice` reads from the packet `pkt` when short
/// headers carry connection IDs of `dcid_len` bytes.
pub uninterp spec fn parsed_header(pkt: Seq<u8>, dcid_len: nat) -> Result<HeaderView, Error>;

/// The packet that `quiche::retry` writes.
pub uninterp spec fn retry_packet_bytes(
    scid: Seq<u8>,
    dcid: Seq<u8>,
    new_scid: Seq<u8>,
    token: Seq<u8>,
    version: u32,
) -> Seq<u8>;

/// Trusted: `quiche::version_is_supported` answers true for QUIC version 1 and
/// for the drafts 27, 28 and 29, and for no other version.
pub assume_specification[ quiche::version_is_supported ](version: u32) -> (supported: bool)
    ensures
        supported == supported_version(version),
;

/// Trusted: `quiche::Header::from_slice`, on a copy of the packet.
///
/// The outcome is a function of the packet and of `dcid_len`. An Initial packet
/// always has a token, which may be empty; in a packet of a supported version
/// neither connection ID is longer than [`MAX_CONN_ID_LEN`]; in a short header
/// the connection ID has `dcid_len` bytes, and in any other header one byte
/// holds the length of each connection ID.
#[verifier::external_body]
pub(crate) fn read_header(pkt: &[u8], dcid_len: usize) -> (res: Result<PacketHeader, Error>)
    ensures
        header_result(res) == parsed_header(pkt@, dcid_len as nat),
        res matches Ok(hdr) ==> {
            &&& hdr.ty is Initial ==> hdr.token is Some
            &&& supported_version(hdr.version) ==> hdr.dcid@.len() <= MAX_CONN_ID_LEN
                && hdr.scid@.len() <= MAX_CONN_ID_LEN
            &&& hdr.ty is Short ==> hdr.dcid@.len() == dcid_len
            &&& !(hdr.ty is Short) ==> hdr.dcid@.len() <= 255 && hdr.scid@.len() <= 255
        },
{
    let mut copy = pkt.to_vec();
    let hdr = Header::from_slice(&mut copy, dcid_len)?;
    Ok(PacketHeader {
        ty: hdr.ty,
        version: hdr.version,
        dcid: hdr.dcid.to_vec(),
        scid: hdr.scid.to_vec(),
        token: hdr.token,
    })
}

/// Whether `quiche::Header::from_slice` reads the header `hdr` from `pkt`.
pub open spec fn reads_as(pkt: Seq<u8>, dcid_len: nat, hdr: HeaderView) -> bool {
    parsed_header(pkt, dcid_len) == Ok::<HeaderView, Error>(hdr)
}

/// Number of bytes in a retry packet, its sixteen byte integrity tag included.
pub open spec fn retry_packet_len(scid: Seq<u8>, new_scid: Seq<u8>, token: Seq<u8>) -> nat {
    23 + scid.len() + new_scid.len() + token.len()
}

/// The header of a retry packet: it is addressed to `scid`, comes from
/// `new_scid` and carries `token`.
pub open spec fn retry_header(
    scid: Seq<u8>,
    new_scid: Seq<u8>,
    token: Seq<u8>,
    version: u32,
) -> HeaderView {
    HeaderView {
        ty: quiche::Type::Retry,
        version,
        dcid: scid,
        scid: new_scid,
        token: Some(token),
    }
}

/// Trusted: `quiche::retry`, into a buffer of `out_len` bytes, cut to what was
/// written.
///
/// It fails with `UnknownVersion` if the version is not supported, and with
/// `BufferTooShort` if the packet does not fit. The packet is a function of the
/// arguments, and `quiche::Header::from_slice` reads back from it what was
/// written, if the connection IDs have legal lengths.
#[verifier::external_body]
pub(crate) fn write_retry(
    scid: &[u8],
    dcid: &[u8],
    new_scid: &[u8],
    token: &[u8],
    version: u32,
    out_len: usize,
) -> (res: Result<Vec<u8>, Error>)
    ensures
        match res {
            Ok(pkt) => {
                &&& supported_version(version)
                &&& retry_packet_len(scid@, new_scid@, token@) <= out_len
                &&& pkt@ == retry_packet_bytes(scid@, dcid@, new_scid@, token@, version)
                &&& pkt@.len() == retry_packet_len(scid@, new_scid@, token@)
            },
            Err(e) => if supported_version(version) {
                e is BufferTooShort && retry_packet_len(scid@, new_scid@, token@) > out_len
            } else {
                e is UnknownVersion
            },
        },
        res matches Ok(pkt) ==> (scid@.len() <= MAX_CONN_ID_LEN && new_scid@.len()
            <= MAX_CONN_ID_LEN ==> forall|dcid_len: nat| #[trigger]
            reads_as(pkt@, dcid_len, retry_header(scid@, new_scid@, token@, version))),
{
    let (scid, dcid) = (ConnectionId::from_ref(scid), ConnectionId::from_ref(dcid));
    let new_scid = ConnectionId::from_ref(new_scid);
    let mut out = vec![0; out_len];
    let len = quiche::retry(&scid, &dcid, &new_scid, token, version, &mut out)?;
    out.truncate(len);
    Ok(out)
}

/// The bytes of a version negotiation packet after the first: version 0, the
/// two connection IDs with a length byte each, and the supported versions.
pub open spec fn negotiation_tail(scid: Seq<u8>, dcid: Seq<u8>) -> Seq<u8> {
    seq![0u8, 0, 0, 0, scid.len() as u8] + scid + seq![dcid.len() as u8] + dcid + seq![
        0u8,
        0,
        0,
        1,
        0xff,
        0,
        0,
        0x1d,
        0xff,
        0,
        0,
        0x1c,
        0xff,
        0,
        0,
        0x1b,
    ]
}

/// Trusted: `quiche::negotiate_version`, into a buffer of `out_len` bytes, cut
/// to what was written.
///
/// It fails only with `BufferTooShort`, if the packet does not fit. The first
/// byte is random but for its top bit, which is set; the other bytes are
/// [`negotiation_tail`].
#[verifier::external_body]
pub(crate) fn write_negotiation(scid: &[u8], dcid: &[u8], out_len: usize) -> (res: Result<
    Vec<u8>,
    Error,
>)
    ensures
        match res {
            Ok(pkt) => {
                &&& 1 + negotiation_tail(scid@, dcid@).len() <= out_len
                &&& pkt@.len() > 0
                &&& pkt@[0] >= 0x80
                &&& pkt@.skip(1) == negotiation_tail(scid@, dcid@)
            },
            Err(e) => e is BufferTooShort && 1 + negotiation_tail(scid@, dcid@).len() > out_len,
        },
{
    let (scid, dcid) = (ConnectionId::from_ref(scid), ConnectionId::from_ref(dcid));
    let mut out = vec![0; out_len];
    let len = quiche::negotiate_version(&scid, &dcid, &mut out)?;
    out.truncate(len);
    Ok(out)
}

/// Writes the stateless retry packet that sends `token` to a client.
///
/// `scid` and `dcid` are the connection IDs of the client's packet; `new_scid`
/// is the connection ID that the server chose.
pub fn retry_packet(scid: &[u8], dcid: &[u8], new_scid: &[u8], token: &[u8], version: u32) -> (res:
    Result<Vec<u8>, Error>)
    ensures
        match res {
            Ok(pkt) => {
                &&& supported_version(version)
                &&& pkt@.len() == retry_packet_len(scid@, new_scid@, token@) <= MAX_DATAGRAM_SIZE
                &&& pkt@ == retry_packet_bytes(scid@, dcid@, new_scid@, token@, version)
            },
            Err(e) => if supported_version(version) {
                e is BufferTooShort && retry_packet_len(scid@, new_scid@, token@)
                    > MAX_DATAGRAM_SIZE
            } else {
                e is UnknownVersion
            },
        },
        res matches Ok(pkt) ==> (scid@.len() <= MAX_CONN_ID_LEN && new_scid@.len()
            <= MAX_CONN_ID_LEN ==> reads_as(
            pkt@,
            MAX_CONN_ID_LEN as nat,
            retry_header(scid@, new_scid@, token@, version),
        )),
{
    write_retry(scid, dcid, new_scid, token, version, MAX_DATAGRAM_SIZE)
}

/// Writes the packet that tells a client which versions the server speaks.
///
/// `scid` and `dcid` are the connection IDs of the client's packet.
pub fn negotiation_packet(scid: &[u8], dcid: &[u8]) -> (res: Result<Vec<u8>, Error>)
    ensures
        match res {
            Ok(pkt) => {
                &&& pkt@.len() == 1 + negotiation_tail(scid@, dcid@).len() <= MAX_DATAGRAM_SIZE
                &&& pkt@[0] >= 0x80
                &&& pkt@.skip(1) == negotiation_tail(scid@, dcid@)
            },
            Err(e) => e is BufferTooShort && 1 + negotiation_tail(scid@, dcid@).len()
                > MAX_DATAGRAM_SIZE,
        },
{
    write_negotiation(scid, dcid, MAX_DATAGRAM_SIZE)
}

/// QUIC version 1 and the drafts 27 to 29 are supported, and no other version.
pub proof fn version_one_and_three_drafts_are_supported(version: u32)
    ensures
        supported_version(version) <==> version == 1 || 0xff00_001b <= version <= 0xff00_001d,
{
}

} // verus!
