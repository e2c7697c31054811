//! What a server does with the packets and the connections that it has.
use quiche::{Connection, Error, RecvInfo};
use vstd::prelude::*;

use crate::bytes::{bytes_eq, copy_bytes};
use crate::conn_id::{derived_conn_id, hmac_sha256, ConnIdSeed};
use crate::id_table::{kept, IdTable};
use crate::packet::{
    negotiation_packet, negotiation_tail, parsed_header, read_header, reads_as, retry_header,
    retry_packet, retry_packet_bytes, retry_packet_len, supported_version, HeaderView,
    PacketHeader, MAX_CONN_ID_LEN, MAX_DATAGRAM_SIZE,
};
use crate::quic::{closed, own_id, recv_outcome, source_id, usable};
use crate::responses::{
    responses_advance, waiting_written, write_waiting, PartialResponses, ResponseView,
};
use crate::status::{with_status, ClientStatus, SharedStreams, StatusEntry};
use crate::token::{
    minted_token_validates, mint_token, token_dcid, token_for, validate_token,
    validated_token_was_minted, PeerIp,
};

verus! {

/// A connection of a server, with the responses that its streams have not taken
/// in full. `C` is a handle to the connection.
pub struct Client<C> {
    pub conn: C,
    pub partial_responses: PartialResponses,
}

/// The connections of a server, by the connection ID that clients address.
pub type ClientMap<C> = IdTable<Client<C>>;

/// Why a packet is dropped.
#[derive(Clone, Copy, Debug, PartialEq, Eq, Structural)]
pub enum DropReason {
    /// The header cannot be read.
    Malformed,
    /// The packet belongs to no connection and does not start one.
    NotInitial,
    /// The address validation token does not fit the sender.
    InvalidToken,
    /// The destination connection ID has not the length of one that this server
    /// chose.
    InvalidDestination,
}

/// What is to be done with a packet.
#[derive(Debug)]
pub enum Route {
    /// Drop it.
    Discard(DropReason),
    /// Tell the sender which versions are supported.
    Negotiate { scid: Vec<u8>, dcid: Vec<u8> },
    /// Ask the sender to prove its address by sending `token` back.
    Retry { scid: Vec<u8>, dcid: Vec<u8>, new_scid: Vec<u8>, token: Vec<u8>, version: u32 },
    /// Open the connection `scid`; the client addressed `odcid` at first.
    Accept { scid: Vec<u8>, odcid: Vec<u8> },
    /// Hand it to the connection `id`.
    Deliver { id: Vec<u8> },
}

/// A route as a mathematical value.
pub enum RouteView {
    Discard(DropReason),
    Negotiate { scid: Seq<u8>, dcid: Seq<u8> },
    Retry { scid: Seq<u8>, dcid: Seq<u8>, new_scid: Seq<u8>, token: Seq<u8>, version: u32 },
    Accept { scid: Seq<u8>, odcid: Seq<u8> },
    Deliver { id: Seq<u8> },
}

/// The kind of work that a route asks for.
#[derive(Clone, Copy, Debug, PartialEq, Eq, Structural)]
pub enum RouteKind {
    /// Nothing.
    Discard,
    /// Sending a datagram back.
    Reply,
    /// Opening a connection.
    Open,
    /// Handing the packet to a connection.
    Deliver,
}

impl View for Route {
    type V = RouteView;

    open spec fn view(&self) -> RouteView {
        match self {
            Route::Discard(reason) => RouteView::Discard(*reason),
            Route::Negotiate { scid, dcid } => RouteView::Negotiate { scid: scid@, dcid: dcid@ },
            Route::Retry { scid, dcid, new_scid, token, version } => RouteView::Retry {
                scid: scid@,
                dcid: dcid@,
                new_scid: new_scid@,
                token: token@,
                version: *version,
            },
            Route::Accept { scid, odcid } => RouteView::Accept { scid: scid@, odcid: odcid@ },
            Route::Deliver { id } => RouteView::Deliver { id: id@ },
        }
    }
}

impl Route {
    /// The kind of work that the route asks for.
    pub fn kind(&self) -> (kind: RouteKind)
        ensures
            kind == match self@ {
                RouteView::Discard(_) => RouteKind::Discard,
                RouteView::Negotiate { .. } => RouteKind::Reply,
                RouteView::Retry { .. } => RouteKind::Reply,
                RouteView::Accept { .. } => RouteKind::Open,
                RouteView::Deliver { .. } => RouteKind::Deliver,
            },
    {
        match self {
            Route::Discard(_) => RouteKind::Discard,
            Route::Negotiate { .. } => RouteKind::Reply,
            Route::Retry { .. } => RouteKind::Reply,
            Route::Accept { .. } => RouteKind::Open,
            Route::Deliver { .. } => RouteKind::Deliver,
        }
    }
}

/// What is to be done with a first packet, one with an Initial header of a
/// supported version that belongs to no connection. `token` is the token that it
/// carries, `octets` the address that it came from.
///
/// Without a token the sender has to prove its address first. With the token
/// that it got for that, it is let in, under the connection ID that it was told
/// to use.
pub open spec fn route_first(
    hdr: HeaderView,
    token: Seq<u8>,
    conn_id: Seq<u8>,
    octets: Seq<u8>,
) -> RouteView {
    if token.len() == 0 {
        RouteView::Retry {
            scid: hdr.scid,
            dcid: hdr.dcid,
            new_scid: conn_id,
            token: token_for(octets, hdr.dcid),
            version: hdr.version,
        }
    } else {
        match token_dcid(octets, token) {
            None => RouteView::Discard(DropReason::InvalidToken),
            Some(odcid) => if hdr.dcid.len() != conn_id.len() {
                RouteView::Discard(DropReason::InvalidDestination)
            } else {
                RouteView::Accept { scid: hdr.dcid, odcid }
            },
        }
    }
}

/// What is to be done with a packet that has the header `hdr` and came from the
/// address `octets`, when there are connections with the IDs `known` and the
/// server's own connection ID for the packet is `conn_id`.
pub open spec fn route_of(
    known: Set<Seq<u8>>,
    hdr: HeaderView,
    conn_id: Seq<u8>,
    octets: Seq<u8>,
) -> RouteView {
    if known.contains(hdr.dcid) {
        RouteView::Deliver { id: hdr.dcid }
    } else if known.contains(conn_id) {
        RouteView::Deliver { id: conn_id }
    } else if !(hdr.ty is Initial) {
        RouteView::Discard(DropReason::NotInitial)
    } else if !supported_version(hdr.version) {
        RouteView::Negotiate { scid: hdr.scid, dcid: hdr.dcid }
    } else {
        route_first(hdr, hdr.token->0, conn_id, octets)
    }
}

/// Decides what is to be done with a packet, from its header.
///
/// `conn_id` is the connection ID that the server derives for the packet.
pub fn route<V>(known: &IdTable<V>, hdr: &PacketHeader, conn_id: Vec<u8>, src: &PeerIp) -> (route:
    Route)
    requires
        known.wf(),
        hdr.ty is Initial ==> hdr.token is Some,
    ensures
        route@ == route_of(known@.dom(), hdr@, conn_id@, src@),
{
    if known.contains(hdr.dcid.as_slice()) {
        return Route::Deliver { id: copy_bytes(hdr.dcid.as_slice()) };
    }
    if known.contains(conn_id.as_slice()) {
        return Route::Deliver { id: conn_id };
    }
    match hdr.ty {
        quiche::Type::Initial => {},
        _ => {
            return Route::Discard(DropReason::NotInitial);
        },
    }
    if !quiche::version_is_supported(hdr.version) {
        return Route::Negotiate {
            scid: copy_bytes(hdr.scid.as_slice()),
            dcid: copy_bytes(hdr.dcid.as_slice()),
        };
    }
    match &hdr.token {
        // An Initial packet always has a token.
        None => Route::Discard(DropReason::InvalidToken),
        Some(token) => {
            if token.len() == 0 {
                return Route::Retry {
                    scid: copy_bytes(hdr.scid.as_slice()),
                    dcid: copy_bytes(hdr.dcid.as_slice()),
                    new_scid: conn_id,
                    token: mint_token(hdr, src),
                    version: hdr.version,
                };
            }
            match validate_token(src, token.as_slice()) {
                None => Route::Discard(DropReason::InvalidToken),
                Some(odcid) => {
                    if conn_id.len() != hdr.dcid.len() {
                        Route::Discard(DropReason::InvalidDestination)
                    } else {
                        Route::Accept { scid: copy_bytes(hdr.dcid.as_slice()), odcid }
                    }
                },
            }
        },
    }
}

/// What is to be done with the packet `pkt` from the address `octets`.
pub open spec fn route_of_packet(
    known: Set<Seq<u8>>,
    seed: Seq<u8>,
    pkt: Seq<u8>,
    octets: Seq<u8>,
) -> RouteView {
    match parsed_header(pkt, MAX_CONN_ID_LEN as nat) {
        Err(_) => RouteView::Discard(DropReason::Malformed),
        Ok(hdr) => route_of(known, hdr, derived_conn_id(seed, hdr.dcid), octets),
    }
}

/// Reads the header of a packet and decides what is to be done with the packet.
pub fn route_packet<V>(known: &IdTable<V>, seed: &ConnIdSeed, pkt: &[u8], src: &PeerIp) -> (route:
    Route)
    requires
        known.wf(),
    ensures
        route@ == route_of_packet(known@.dom(), seed@, pkt@, src@),
        can_be_answered(route@),
        route matches Route::Accept { scid, .. } ==> scid@.len() == MAX_CONN_ID_LEN,
{
    match read_header(pkt, MAX_CONN_ID_LEN) {
        Err(_) => Route::Discard(DropReason::Malformed),
        Ok(hdr) => {
            let conn_id: Vec<u8> = seed.derive(hdr.dcid.as_slice());
            self::route(known, &hdr, conn_id, src)
        },
    }
}

/// If the route asks for a reply, the reply can be written: it fits a datagram,
/// and its version is supported.
pub open spec fn can_be_answered(route: RouteView) -> bool {
    match route {
        RouteView::Negotiate { scid, dcid } => 1 + negotiation_tail(scid, dcid).len()
            <= MAX_DATAGRAM_SIZE,
        RouteView::Retry { scid, new_scid, token, version, .. } => supported_version(version)
            && retry_packet_len(scid, new_scid, token) <= MAX_DATAGRAM_SIZE,
        _ => true,
    }
}

/// Writes the datagram that a route sends back to the sender of a packet. `None`
/// if the route asks for no reply, or if the reply cannot be written.
pub fn reply_datagram(route: &Route) -> (reply: Option<Vec<u8>>)
    ensures
        match route@ {
            RouteView::Negotiate { scid, dcid } => {
                &&& reply is Some <==> can_be_answered(route@)
                &&& reply matches Some(pkt) ==> pkt@.len() > 0 && pkt@[0] >= 0x80 && pkt@.skip(1)
                    == negotiation_tail(scid, dcid)
            },
            RouteView::Retry { scid, dcid, new_scid, token, version } => {
                &&& reply is Some <==> can_be_answered(route@)
                &&& reply matches Some(pkt) ==> pkt@ == retry_packet_bytes(
                    scid,
                    dcid,
                    new_scid,
                    token,
                    version,
                )
                &&& reply matches Some(pkt) ==> (scid.len() <= MAX_CONN_ID_LEN && new_scid.len()
                    <= MAX_CONN_ID_LEN ==> reads_as(
                    pkt@,
                    MAX_CONN_ID_LEN as nat,
                    retry_header(scid, new_scid, token, version),
                ))
            },
            _ => reply is None,
        },
{
    match route {
        Route::Negotiate { scid, dcid } => negotiation_packet(scid.as_slice(), dcid.as_slice()).ok(),
        Route::Retry { scid, dcid, new_scid, token, version } => retry_packet(
            scid.as_slice(),
            dcid.as_slice(),
            new_scid.as_slice(),
            token.as_slice(),
            *version,
        ).ok(),
        _ => None,
    }
}

/// Every connection of the server has a status.
pub open spec fn all_have_status<C>(
    clients: Map<Seq<u8>, Client<C>>,
    statuses: Map<Seq<u8>, StatusEntry<C>>,
) -> bool {
    forall|id: Seq<u8>| #[trigger] clients.contains_key(id) ==> statuses.contains_key(id)
}

/// The server and its users know each connection under the same ID.
pub open spec fn same_connections<C>(
    clients: Map<Seq<u8>, Client<C>>,
    statuses: Map<Seq<u8>, StatusEntry<C>>,
) -> bool {
    forall|id: Seq<u8>| #[trigger]
        clients.contains_key(id) ==> statuses.contains_key(id) && clients[id].conn
            == statuses[id].conn
}

/// Adds a connection that was just opened, and announces it to the users of the
/// server. `conn` and `shared_conn` are handles to the connection.
pub fn add_client<C>(
    clients: &mut ClientMap<C>,
    streams: &mut SharedStreams<C>,
    scid: &[u8],
    conn: C,
    shared_conn: C,
)
    requires
        old(clients).wf(),
        old(streams).wf(),
    ensures
        final(clients).wf(),
        final(streams).wf(),
        exists|client: Client<C>|
            final(clients)@ == #[trigger] old(clients)@.insert(scid@, client) && client.conn == conn
                && client.partial_responses.wf() && client.partial_responses@ == Map::<
                u64,
                ResponseView,
            >::empty(),
        final(streams)@ == old(streams)@.insert(
            scid@,
            (StatusEntry { conn: shared_conn, status: ClientStatus::Connected }),
        ),
        final(clients).order() == if old(clients)@.contains_key(scid@) {
            old(clients).order()
        } else {
            old(clients).order().push(scid@)
        },
        final(streams).order() == if old(streams)@.contains_key(scid@) {
            old(streams).order()
        } else {
            old(streams).order().push(scid@)
        },
        all_have_status(old(clients)@, old(streams)@) ==> all_have_status(final(clients)@, final(streams)@),
        conn == shared_conn && same_connections(old(clients)@, old(streams)@) ==> same_connections(
            final(clients)@,
            final(streams)@,
        ),
{
    let client = Client { conn, partial_responses: PartialResponses::new() };
    clients.insert(copy_bytes(scid), client);
    streams.connected(copy_bytes(scid), shared_conn);
}

/// Every connection of the server is known by the ID that it calls itself by.
/// `state` tells the state of the connection behind a handle.
pub open spec fn known_by_own_id<C>(
    clients: Map<Seq<u8>, Client<C>>,
    state: spec_fn(C) -> Connection,
) -> bool {
    forall|id: Seq<u8>| #[trigger]
        clients.contains_key(id) ==> source_id(state(clients[id].conn)) == id
}

/// Adds the connection `opened`, which was just opened to be known as `scid`, and
/// announces it to the users of the server. `conn` and `shared_conn` are handles
/// to it.
///
/// Returns false, and changes nothing, if the connection calls itself otherwise.
pub fn admit_client<C>(
    clients: &mut ClientMap<C>,
    streams: &mut SharedStreams<C>,
    scid: &[u8],
    opened: &Connection,
    conn: C,
    shared_conn: C,
) -> (admitted: bool)
    requires
        old(clients).wf(),
        old(streams).wf(),
    ensures
        final(clients).wf(),
        final(streams).wf(),
        admitted == (source_id(*opened) == scid@),
        !admitted ==> {
            &&& final(clients)@ == old(clients)@
            &&& final(streams)@ == old(streams)@
            &&& final(clients).order() == old(clients).order()
            &&& final(streams).order() == old(streams).order()
        },
        admitted ==> {
            &&& exists|client: Client<C>|
                final(clients)@ == #[trigger] old(clients)@.insert(scid@, client) && client.conn
                    == conn && client.partial_responses.wf() && client.partial_responses@ == Map::<
                    u64,
                    ResponseView,
                >::empty()
            &&& final(streams)@ == old(streams)@.insert(
                scid@,
                (StatusEntry { conn: shared_conn, status: ClientStatus::Connected }),
            )
            &&& final(clients).order() == if old(clients)@.contains_key(scid@) {
                old(clients).order()
            } else {
                old(clients).order().push(scid@)
            }
            &&& final(streams).order() == if old(streams)@.contains_key(scid@) {
                old(streams).order()
            } else {
                old(streams).order().push(scid@)
            }
        },
        all_have_status(old(clients)@, old(streams)@) ==> all_have_status(final(clients)@, final(streams)@),
        conn == shared_conn && same_connections(old(clients)@, old(streams)@) ==> same_connections(
            final(clients)@,
            final(streams)@,
        ),
        forall|state: spec_fn(C) -> Connection|
            known_by_own_id(old(clients)@, state) && state(conn) == *opened
                ==> #[trigger] known_by_own_id(final(clients)@, state),
{
    let id: Vec<u8> = own_id(opened);
    if !bytes_eq(id.as_slice(), scid) {
        return false;
    }
    add_client(clients, streams, scid, conn, shared_conn);
    true
}

/// A connection may be given up: it is closed, and its user is done with it.
pub open spec fn collectable(closed: bool, status: ClientStatus) -> bool {
    closed && status is Close
}

/// Which of the connections `order` are still needed, by position: those that may
/// not be given up.
pub open spec fn needed<C>(
    order: Seq<Seq<u8>>,
    closed: Seq<bool>,
    statuses: Map<Seq<u8>, StatusEntry<C>>,
) -> Seq<bool> {
    Seq::new(order.len(), |i: int| !collectable(closed[i], statuses[order[i]].status))
}

/// Gives up the connections that are closed and whose users are done with them.
///
/// `closed` tells for each connection, by position, whether it is closed.
/// Returns false, and changes nothing, if some connection has no status.
pub fn collect_garbage<C>(
    clients: &mut ClientMap<C>,
    closed: &Vec<bool>,
    streams: &SharedStreams<C>,
) -> (consistent: bool)
    requires
        old(clients).wf(),
        streams.wf(),
        closed@.len() == old(clients).order().len(),
    ensures
        final(clients).wf(),
        consistent == all_have_status(old(clients)@, streams@),
        !consistent ==> final(clients)@ == old(clients)@ && final(clients).order() == old(
            clients,
        ).order(),
        consistent ==> final(clients).order() == kept(
            old(clients).order(),
            needed(old(clients).order(), closed@, streams@),
        ),
        consistent ==> {
            &&& final(clients)@.submap_of(old(clients)@)
            &&& all_have_status(final(clients)@, streams@)
            &&& same_connections(old(clients)@, streams@) ==> same_connections(
                final(clients)@,
                streams@,
            )
            &&& forall|i: int|
                0 <= i < old(clients).order().len() ==> (final(clients)@.contains_key(
                    #[trigger] old(clients).order()[i],
                ) <==> !collectable(closed@[i], streams@[old(clients).order()[i]].status))
        },
{
    let mut keep: Vec<bool> = Vec::new();
    let mut i: usize = 0;
    while i < clients.len()
        invariant
            *clients == *old(clients),
            clients.wf(),
            streams.wf(),
            closed@.len() == clients.order().len(),
            i <= clients.order().len(),
            keep@.len() == i,
            forall|j: int|
                0 <= j < i ==> {
                    &&& streams@.contains_key(#[trigger] clients.order()[j])
                    &&& keep@[j] == !collectable(closed@[j], streams@[clients.order()[j]].status)
                },
        decreases clients.order().len() - i,
    {
        let status: ClientStatus = match streams.status(clients.id_at(i).as_slice()) {
            Some(status) => status,
            None => {
                proof {
                    clients.order_is_domain();
                    assert(clients@.contains_key(clients.order()[i as int]));
                }
                return false;
            },
        };
        keep.push(!closed[i] || status != ClientStatus::Close);
        i += 1;
    }
    proof {
        clients.order_is_domain();
        assert forall|id: Seq<u8>| #[trigger] clients@.contains_key(
            id,
        ) implies streams@.contains_key(id) by {
            assert(clients.order().contains(id));
            let j = choose|j: int| 0 <= j < clients.order().len() && clients.order()[j] == id;
            assert(streams@.contains_key(clients.order()[j]));
        }
    }
    assert(keep@ =~= needed(clients.order(), closed@, streams@));
    clients.retain(&keep);
    proof {
        assert forall|id: Seq<u8>| #[trigger] clients@.contains_key(
            id,
        ) implies streams@.contains_key(id) && old(clients)@.contains_key(id) && clients@[id]
            == old(clients)@[id] by {
            assert(clients@.dom().contains(id));
            assert(old(clients)@.contains_key(id));
        }
    }
    true
}

/// Goes on after a connection has answered to a packet: if it could process the
/// packet, writes more of the responses that wait on the streams that take data
/// again.
///
/// `answer` is that of `Connection::recv`. Returns whether the connection could
/// process the packet.
pub fn finish_delivery(
    conn: &mut Connection,
    responses: &mut PartialResponses,
    answer: Result<usize, Error>,
) -> (processed: bool)
    requires
        old(responses).wf(),
    ensures
        final(responses).wf(),
        source_id(*final(conn)) == source_id(*old(conn)),
        responses_advance(old(responses)@, final(responses)@),
        processed == (answer is Ok),
        if processed {
            waiting_written(*old(conn), old(responses)@, *final(conn), final(responses)@)
        } else {
            *final(conn) == *old(conn) && final(responses)@ == old(responses)@
        },
{
    match answer {
        Ok(_) => {
            write_waiting(conn, responses);
            true
        },
        Err(_) => false,
    }
}

/// Hands a packet to its connection, and writes more of the responses that wait
/// on the streams that take data again.
///
/// Returns whether the connection could process the packet. The responses stay
/// as they are if it could not, or if no data may be exchanged on it then. An
/// empty packet is never processed. A connection that is closed takes any other
/// packet, without a look at it.
pub fn deliver(
    conn: &mut Connection,
    responses: &mut PartialResponses,
    pkt: &mut [u8],
    info: RecvInfo,
) -> (processed: bool)
    requires
        old(responses).wf(),
    ensures
        final(pkt)@.len() == old(pkt)@.len(),
        final(responses).wf(),
        source_id(*final(conn)) == source_id(*old(conn)),
        responses_advance(old(responses)@, final(responses)@),
        exists|then: Connection, answer: Result<usize, Error>|
            {
                &&& #[trigger] recv_outcome(*old(conn), old(pkt)@, info, then, answer)
                &&& processed == (answer is Ok)
                &&& if processed {
                    waiting_written(then, old(responses)@, *final(conn), final(responses)@)
                } else {
                    *final(conn) == then && final(responses)@ == old(responses)@
                }
            },
        old(pkt)@.len() == 0 ==> !processed && *final(conn) == *old(conn),
        closed(*old(conn)) && old(pkt)@.len() > 0 ==> {
            &&& processed
            &&& final(pkt)@ == old(pkt)@
            &&& !usable(*old(conn)) ==> closed(*final(conn)) && final(responses)@ == old(responses)@
        },
{
    let answer: Result<usize, Error> = conn.recv(pkt, info);
    finish_delivery(conn, responses, answer)
}

/// The shortest of the timeouts that are set, each a time span in nanoseconds.
pub fn shortest_timeout(timeouts: &Vec<Option<u128>>) -> (shortest: Option<u128>)
    ensures
        match shortest {
            Some(t) => timeouts@.contains(Some(t)) && forall|i: int|
                0 <= i < timeouts@.len() ==> (#[trigger] timeouts@[i] matches Some(other) ==> t
                    <= other),
            None => forall|i: int| 0 <= i < timeouts@.len() ==> #[trigger] timeouts@[i] is None,
        },
{
    let mut shortest: Option<u128> = None;
    let mut i: usize = 0;
    while i < timeouts.len()
        invariant
            i <= timeouts@.len(),
            match shortest {
                Some(t) => timeouts@.contains(Some(t)) && forall|j: int|
                    0 <= j < i ==> (#[trigger] timeouts@[j] matches Some(other) ==> t <= other),
                None => forall|j: int| 0 <= j < i ==> #[trigger] timeouts@[j] is None,
            },
        decreases timeouts@.len() - i,
    {
        match timeouts[i] {
            Some(t) => {
                let sooner: bool = match shortest {
                    Some(s) => t < s,
                    None => true,
                };
                if sooner {
                    assert(timeouts@[i as int] == Some(t));
                    shortest = Some(t);
                }
            },
            None => {},
        }
        i += 1;
    }
    shortest
}

/// Address validation works end to end. A client without a token is sent a token
/// and a connection ID; when it comes back from the same address with that
/// token, addressing that connection ID, it is let in under that connection ID,
/// and the server knows the connection ID that it addressed at first.
pub proof fn retried_client_is_accepted(
    known: Set<Seq<u8>>,
    first: HeaderView,
    conn_id: Seq<u8>,
    later: Set<Seq<u8>>,
    second: HeaderView,
    second_conn_id: Seq<u8>,
    octets: Seq<u8>,
)
    requires
        first.ty is Initial,
        first.token == Some(Seq::<u8>::empty()),
        supported_version(first.version),
        !known.contains(first.dcid),
        !known.contains(conn_id),
        second.ty is Initial,
        supported_version(second.version),
        route_of(known, first, conn_id, octets) matches RouteView::Retry { new_scid, token, .. }
            && second.dcid == new_scid && second.token == Some(token),
        second_conn_id.len() == conn_id.len(),
        !later.contains(second.dcid),
        !later.contains(second_conn_id),
    ensures
        route_of(later, second, second_conn_id, octets) == (RouteView::Accept {
            scid: conn_id,
            odcid: first.dcid,
        }),
{
    minted_token_validates(octets, first.dcid);
}

/// A connection is opened only for a client that proved its address: its packet
/// carries the token that was minted for the very address it came from, and
/// belongs to no connection yet.
pub proof fn accepted_client_proved_its_address(
    known: Set<Seq<u8>>,
    hdr: HeaderView,
    conn_id: Seq<u8>,
    octets: Seq<u8>,
)
    requires
        hdr.ty is Initial ==> hdr.token is Some,
        route_of(known, hdr, conn_id, octets) is Accept,
    ensures
        route_of(known, hdr, conn_id, octets) matches RouteView::Accept { scid, odcid } && {
            &&& hdr.token == Some(token_for(octets, odcid))
            &&& scid == hdr.dcid
            &&& scid.len() == conn_id.len()
            &&& !known.contains(scid)
            &&& supported_version(hdr.version)
        },
{
    validated_token_was_minted(octets, hdr.token->0);
}

/// Once a connection is open, the packets that address it are handed to it,
/// whatever else they hold and wherever they come from.
pub proof fn open_connection_gets_its_packets(
    known: Set<Seq<u8>>,
    hdr: HeaderView,
    conn_id: Seq<u8>,
    octets: Seq<u8>,
)
    requires
        known.contains(hdr.dcid),
    ensures
        route_of(known, hdr, conn_id, octets) == (RouteView::Deliver { id: hdr.dcid }),
{
}

/// A packet is handed only to a connection that exists.
pub proof fn delivery_goes_to_a_known_connection(
    known: Set<Seq<u8>>,
    hdr: HeaderView,
    conn_id: Seq<u8>,
    octets: Seq<u8>,
)
    ensures
        route_of(known, hdr, conn_id, octets) matches RouteView::Deliver { id } ==> known.contains(
            id,
        ),
{
}

/// A connection stays until its user is done with it: whatever else becomes of
/// it, it is not collectable before it was marked closed, and is collectable
/// once it is closed and was marked.
pub proof fn connection_outlives_its_user<C>(
    m: Map<Seq<u8>, StatusEntry<C>>,
    id: Seq<u8>,
    closed: bool,
)
    requires
        m.contains_key(id),
    ensures
        collectable(closed, with_status(m, id, ClientStatus::Close)[id].status) == closed,
        !(m[id].status is Close) ==> !collectable(closed, m[id].status),
        !collectable(closed, with_status(m, id, ClientStatus::Accepted)[id].status),
{
}

/// Every connection of a server has a status, always: accepting, closing and
/// announcing connections change statuses but remove none, and giving up
/// connections asks for no more of them.
pub proof fn no_connection_loses_its_status<C>(
    clients: Map<Seq<u8>, Client<C>>,
    fewer: Map<Seq<u8>, Client<C>>,
    statuses: Map<Seq<u8>, StatusEntry<C>>,
    id: Seq<u8>,
    status: ClientStatus,
    client: Client<C>,
    announced: StatusEntry<C>,
)
    requires
        all_have_status(clients, statuses),
        fewer.submap_of(clients),
    ensures
        all_have_status(clients, with_status(statuses, id, status)),
        all_have_status(clients.insert(id, client), statuses.insert(id, announced)),
        all_have_status(fewer, statuses),
{
    assert forall|k: Seq<u8>| #[trigger] fewer.contains_key(k) implies statuses.contains_key(k) by {
        assert(fewer.dom().contains(k));
        assert(clients.contains_key(k));
    }
}

/// The server and its users always know each connection under the same ID:
/// announcing a connection to both, changing a status, changing what the server
/// keeps with a connection and giving connections up keep it so.
pub proof fn both_tables_hold_the_same_connections<C>(
    clients: Map<Seq<u8>, Client<C>>,
    fewer: Map<Seq<u8>, Client<C>>,
    statuses: Map<Seq<u8>, StatusEntry<C>>,
    id: Seq<u8>,
    status: ClientStatus,
    client: Client<C>,
    announced: StatusEntry<C>,
)
    requires
        same_connections(clients, statuses),
        fewer.submap_of(clients),
    ensures
        client.conn == announced.conn ==> same_connections(
            clients.insert(id, client),
            statuses.insert(id, announced),
        ),
        same_connections(clients, with_status(statuses, id, status)),
        clients.contains_key(id) && client.conn == clients[id].conn ==> same_connections(
            clients.insert(id, client),
            statuses,
        ),
        same_connections(fewer, statuses),
{
    assert forall|k: Seq<u8>| #[trigger] fewer.contains_key(k) implies statuses.contains_key(k)
        && fewer[k].conn == statuses[k].conn by {
        assert(fewer.dom().contains(k));
        assert(clients.contains_key(k));
    }
}

/// Every connection of a server is always known by the ID that it calls itself
/// by: opening a connection under its own ID, changing what the server keeps with
/// a connection, giving connections up, and whatever is done on connections that
/// leaves their IDs alone, keep it so. So the status of a connection is found
/// under its own ID.
pub proof fn connections_are_known_by_their_own_id<C>(
    clients: Map<Seq<u8>, Client<C>>,
    fewer: Map<Seq<u8>, Client<C>>,
    statuses: Map<Seq<u8>, StatusEntry<C>>,
    state: spec_fn(C) -> Connection,
    later: spec_fn(C) -> Connection,
    id: Seq<u8>,
    client: Client<C>,
)
    requires
        known_by_own_id(clients, state),
        all_have_status(clients, statuses),
        fewer.submap_of(clients),
        forall|c: C| source_id(#[trigger] later(c)) == source_id(state(c)),
    ensures
        source_id(state(client.conn)) == id ==> known_by_own_id(clients.insert(id, client), state),
        clients.contains_key(id) && client.conn == clients[id].conn ==> known_by_own_id(
            clients.insert(id, client),
            state,
        ),
        known_by_own_id(fewer, state),
        known_by_own_id(clients, later),
        clients.contains_key(id) ==> source_id(state(clients[id].conn)) == id,
        clients.contains_key(id) ==> statuses.contains_key(source_id(later(clients[id].conn))),
{
    assert forall|k: Seq<u8>| #[trigger] fewer.contains_key(k) implies source_id(
        state(fewer[k].conn),
    ) == k by {
        assert(fewer.dom().contains(k));
        assert(clients.contains_key(k));
    }
    assert(known_by_own_id(clients, later)) by {
        assert forall|k: Seq<u8>| #[trigger] clients.contains_key(k) implies source_id(
            later(clients[k].conn),
        ) == k by {}
    }
}

/// A packet that addresses no connection, directly or by the ID that the server
/// derives, and does not start one, is dropped.
pub proof fn stray_packets_are_dropped(
    known: Set<Seq<u8>>,
    hdr: HeaderView,
    conn_id: Seq<u8>,
    octets: Seq<u8>,
)
    requires
        !known.contains(hdr.dcid),
        !known.contains(conn_id),
    ensures
        route_of(known, hdr, conn_id, octets) == RouteView::Discard(DropReason::NotInitial) <==> !(
        hdr.ty is Initial),
{
}

/// A packet reaches its connection by the ID that the server derived for it too.
pub proof fn derived_id_leads_to_the_connection(
    known: Set<Seq<u8>>,
    hdr: HeaderView,
    conn_id: Seq<u8>,
    octets: Seq<u8>,
)
    requires
        !known.contains(hdr.dcid),
    ensures
        known.contains(conn_id) <==> route_of(known, hdr, conn_id, octets) == (RouteView::Deliver {
            id: conn_id,
        }),
{
}

/// A first packet of a version that is not supported, and no other one, is
/// answered with the versions that are; the answer goes back by the IDs of the
/// packet.
pub proof fn other_versions_are_negotiated(
    known: Set<Seq<u8>>,
    hdr: HeaderView,
    conn_id: Seq<u8>,
    octets: Seq<u8>,
)
    ensures
        route_of(known, hdr, conn_id, octets) is Negotiate <==> !known.contains(hdr.dcid)
            && !known.contains(conn_id) && hdr.ty is Initial && !supported_version(hdr.version),
        route_of(known, hdr, conn_id, octets) matches RouteView::Negotiate { scid, dcid } ==> scid
            == hdr.scid && dcid == hdr.dcid,
{
}

/// A client that sends no token with its first packet, and no other one, is asked
/// to prove its address: the answer goes back by the IDs of its packet, in its
/// version, names the ID that the server derived, and brings a token that holds
/// its address and the ID that it addressed.
pub proof fn clients_without_token_are_retried(
    known: Set<Seq<u8>>,
    hdr: HeaderView,
    conn_id: Seq<u8>,
    octets: Seq<u8>,
)
    ensures
        route_of(known, hdr, conn_id, octets) is Retry <==> !known.contains(hdr.dcid)
            && !known.contains(conn_id) && hdr.ty is Initial && supported_version(hdr.version)
            && hdr.token->0.len() == 0,
        route_of(known, hdr, conn_id, octets) matches RouteView::Retry {
            scid,
            dcid,
            new_scid,
            token,
            version,
        } ==> {
            &&& scid == hdr.scid
            &&& dcid == hdr.dcid
            &&& new_scid == conn_id
            &&& version == hdr.version
            &&& token == seq![0x71u8, 0x75, 0x69, 0x63, 0x68, 0x65] + octets + hdr.dcid
        },
{
}

/// A first packet with a token is let in exactly if the token is one for its
/// address and the packet addresses an ID as long as the server's; otherwise it
/// is dropped, for the reason that holds.
pub proof fn tokens_decide_who_is_let_in(
    known: Set<Seq<u8>>,
    hdr: HeaderView,
    conn_id: Seq<u8>,
    octets: Seq<u8>,
    odcid: Seq<u8>,
)
    requires
        !known.contains(hdr.dcid),
        !known.contains(conn_id),
        hdr.ty is Initial,
        supported_version(hdr.version),
        hdr.token is Some,
        hdr.token->0.len() > 0,
    ensures
        ({
            let route = route_of(known, hdr, conn_id, octets);
            let minted = seq![0x71u8, 0x75, 0x69, 0x63, 0x68, 0x65] + octets + odcid;
            &&& hdr.token->0 == minted && hdr.dcid.len() == conn_id.len() ==> route == (
            RouteView::Accept { scid: hdr.dcid, odcid })
            &&& hdr.token->0 == minted && hdr.dcid.len() != conn_id.len() ==> route
                == RouteView::Discard(DropReason::InvalidDestination)
            &&& route is Accept || route == RouteView::Discard(DropReason::InvalidDestination)
                || route == RouteView::Discard(DropReason::InvalidToken)
            &&& route == RouteView::Discard(DropReason::InvalidToken) ==> hdr.token->0 != minted
        }),
{
    minted_token_validates(octets, odcid);
}

/// A packet is routed by its header, with the ID that is the start of the HMAC of
/// the ID it addresses; one whose header cannot be read is dropped.
pub proof fn packets_are_routed_by_their_header(
    known: Set<Seq<u8>>,
    seed: Seq<u8>,
    pkt: Seq<u8>,
    octets: Seq<u8>,
)
    ensures
        parsed_header(pkt, 20) is Err ==> route_of_packet(known, seed, pkt, octets)
            == RouteView::Discard(DropReason::Malformed),
        parsed_header(pkt, 20) matches Ok(hdr) ==> route_of_packet(known, seed, pkt, octets)
            == route_of(known, hdr, hmac_sha256(seed, hdr.dcid).take(20), octets),
{
}

/// A connection is given up exactly if it is closed and its user is done with it,
/// and all others stay.
pub proof fn connections_are_needed_until_closed_and_released<C>(
    order: Seq<Seq<u8>>,
    closed: Seq<bool>,
    statuses: Map<Seq<u8>, StatusEntry<C>>,
    i: int,
)
    requires
        0 <= i < order.len(),
    ensures
        needed(order, closed, statuses).len() == order.len(),
        needed(order, closed, statuses)[i] <==> !closed[i] || !(statuses[order[i]].status is Close),
{
}

/// The server and its users know the same connections exactly if each one of the
/// server's has a status and the same handle there.
pub proof fn agreement_of_the_tables<C>(
    clients: Map<Seq<u8>, Client<C>>,
    statuses: Map<Seq<u8>, StatusEntry<C>>,
    id: Seq<u8>,
)
    ensures
        all_have_status(clients, statuses) <==> clients.dom().subset_of(statuses.dom()),
        same_connections(clients, statuses) ==> all_have_status(clients, statuses),
        same_connections(clients, statuses) && clients.contains_key(id) ==> clients[id].conn
            == statuses[id].conn,
{
    if clients.dom().subset_of(statuses.dom()) {
        assert forall|k: Seq<u8>| #[trigger] clients.contains_key(k) implies statuses.contains_key(
            k,
        ) by {
            assert(clients.dom().contains(k));
            assert(statuses.dom().contains(k));
        }
    }
    if all_have_status(clients, statuses) {
        assert forall|k: Seq<u8>| #[trigger]
            clients.dom().contains(k) implies statuses.dom().contains(k) by {
            assert(clients.contains_key(k));
        }
    }
}

} // verus!
