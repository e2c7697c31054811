//! The connections of a server as its users see them: which ones wait to be
//! accepted, and which ones may be given up.
use vstd::prelude::*;

use crate::id_table::IdTable;

verus! {

/// How far the users of a server have come with a connection.
#[derive(Clone, Copy, Debug, PartialEq, Eq, Structural)]
pub enum ClientStatus {
    NotConnected,
    /// The connection exists and waits to be accepted.
    Connected,
    /// A user has accepted the connection.
    Accepted,
    /// The user is done with the connection.
    Close,
    Wait,
}

/// A connection and its status.
pub struct StatusEntry<C> {
    pub conn: C,
    pub status: ClientStatus,
}

/// The connections of a server, shared by the server and its users. `C` is a
/// handle to a connection.
pub struct SharedStreams<C> {
    pub client_status: IdTable<StatusEntry<C>>,
}

impl<C> View for SharedStreams<C> {
    type V = Map<Seq<u8>, StatusEntry<C>>;

    open spec fn view(&self) -> Map<Seq<u8>, StatusEntry<C>> {
        self.client_status@
    }
}

/// The connection `id` waits to be accepted.
pub open spec fn waiting<C>(m: Map<Seq<u8>, StatusEntry<C>>, id: Seq<u8>) -> bool {
    m.contains_key(id) && m[id].status is Connected
}

/// `m` with the status of the connection `id` changed.
pub open spec fn with_status<C>(
    m: Map<Seq<u8>, StatusEntry<C>>,
    id: Seq<u8>,
    status: ClientStatus,
) -> Map<Seq<u8>, StatusEntry<C>> {
    if m.contains_key(id) {
        m.insert(id, StatusEntry { conn: m[id].conn, status })
    } else {
        m
    }
}

impl<C> SharedStreams<C> {
    /// No connection ID occurs twice.
    pub open spec fn wf(&self) -> bool {
        self.client_status.wf()
    }

    /// The connection IDs, in the order in which the connections were made.
    pub open spec fn order(&self) -> Seq<Seq<u8>> {
        self.client_status.order()
    }

    /// No connections.
    pub fn new() -> (streams: Self)
        ensures
            streams.wf(),
            streams@ == Map::<Seq<u8>, StatusEntry<C>>::empty(),
            streams.order().len() == 0,
    {
        SharedStreams { client_status: IdTable::new() }
    }

    /// Announces a new connection: it waits to be accepted.
    pub fn connected(&mut self, id: Vec<u8>, conn: C)
        requires
            old(self).wf(),
        ensures
            final(self).wf(),
            final(self)@ == old(self)@.insert(
                id@,
                (StatusEntry { conn, status: ClientStatus::Connected }),
            ),
            final(self).order() == if old(self)@.contains_key(id@) {
                old(self).order()
            } else {
                old(self).order().push(id@)
            },
    {
        self.client_status.insert(id, StatusEntry { conn, status: ClientStatus::Connected });
    }

    /// Accepts the oldest connection that waits, and returns its position.
    pub fn accept(&mut self) -> (accepted: Option<usize>)
        requires
            old(self).wf(),
        ensures
            final(self).wf(),
            final(self).order() == old(self).order(),
            match accepted {
                Some(i) => {
                    &&& i < old(self).order().len()
                    &&& waiting(old(self)@, old(self).order()[i as int])
                    &&& forall|j: int|
                        0 <= j < i ==> !waiting(old(self)@, #[trigger] old(self).order()[j])
                    &&& final(self)@ == with_status(
                        old(self)@,
                        old(self).order()[i as int],
                        ClientStatus::Accepted,
                    )
                },
                None => {
                    &&& final(self)@ == old(self)@
                    &&& forall|id: Seq<u8>| !#[trigger] waiting(old(self)@, id)
                },
            },
    {
        let mut i: usize = 0;
        while i < self.client_status.len()
            invariant
                *self == *old(self),
                self.wf(),
                i <= self.order().len(),
                forall|j: int| 0 <= j < i ==> !waiting(self@, #[trigger] self.order()[j]),
            decreases self.order().len() - i,
        {
            proof {
                self.client_status.order_is_domain();
            }
            if self.client_status.value_at(i).status == ClientStatus::Connected {
                self.client_status.value_mut(i).status = ClientStatus::Accepted;
                return Some(i);
            }
            i += 1;
        }
        proof {
            self.client_status.order_is_domain();
            assert forall|id: Seq<u8>| !#[trigger] waiting(self@, id) by {
                if self@.contains_key(id) {
                    assert(self.order().contains(id));
                    let j = choose|j: int| 0 <= j < self.order().len() && self.order()[j] == id;
                    assert(!waiting(self@, self.order()[j]));
                }
            }
        }
        None
    }

    /// Marks that the user is done with a connection, if it is known.
    pub fn mark_closed(&mut self, id: &[u8])
        requires
            old(self).wf(),
        ensures
            final(self).wf(),
            final(self).order() == old(self).order(),
            final(self)@ == with_status(old(self)@, id@, ClientStatus::Close),
    {
        match self.client_status.position(id) {
            Some(i) => {
                self.client_status.value_mut(i).status = ClientStatus::Close;
            },
            None => {},
        }
    }

    /// The status of a connection, if it is known.
    pub fn status(&self, id: &[u8]) -> (status: Option<ClientStatus>)
        requires
            self.wf(),
        ensures
            match status {
                Some(s) => self@.contains_key(id@) && self@[id@].status == s,
                None => !self@.contains_key(id@),
            },
    {
        match self.client_status.position(id) {
            Some(i) => Some(self.client_status.value_at(i).status),
            None => None,
        }
    }
}

/// A connection is accepted once: when it was accepted it waits no more.
pub proof fn accepted_connection_waits_no_more<C>(m: Map<Seq<u8>, StatusEntry<C>>, id: Seq<u8>)
    ensures
        !waiting(with_status(m, id, ClientStatus::Accepted), id),
{
}

/// A connection that does not wait starts to wait only by being announced anew:
/// accepting or closing any connection, and announcing another one, leave it
/// not waiting.
pub proof fn only_a_new_connection_starts_to_wait<C>(
    m: Map<Seq<u8>, StatusEntry<C>>,
    id: Seq<u8>,
    other: Seq<u8>,
    announced: StatusEntry<C>,
)
    requires
        !waiting(m, id),
    ensures
        !waiting(with_status(m, other, ClientStatus::Accepted), id),
        !waiting(with_status(m, other, ClientStatus::Close), id),
        other != id ==> !waiting(m.insert(other, announced), id),
{
}

/// Changing the status of one connection leaves every other one as it is, and
/// leaves the handles alone.
pub proof fn status_changes_are_local<C>(
    m: Map<Seq<u8>, StatusEntry<C>>,
    id: Seq<u8>,
    status: ClientStatus,
    other: Seq<u8>,
)
    ensures
        with_status(m, id, status).contains_key(other) == m.contains_key(other),
        m.contains_key(other) ==> with_status(m, id, status)[other].conn == m[other].conn,
        m.contains_key(other) && other != id ==> with_status(m, id, status)[other] == m[other],
{
}

/// A connection waits to be accepted exactly while its status is that it is
/// connected.
pub proof fn connected_connections_wait<C>(
    m: Map<Seq<u8>, StatusEntry<C>>,
    id: Seq<u8>,
    entry: StatusEntry<C>,
)
    ensures
        waiting(m.insert(id, entry), id) <==> entry.status is Connected,
        waiting(m, id) <==> m.contains_key(id) && m[id].status is Connected,
{
}

/// A change of status takes effect for a connection that is known, and is nothing
/// for one that is not.
pub proof fn status_changes_take_effect<C>(
    m: Map<Seq<u8>, StatusEntry<C>>,
    id: Seq<u8>,
    status: ClientStatus,
)
    ensures
        m.contains_key(id) ==> with_status(m, id, status)[id].status == status,
        !m.contains_key(id) ==> with_status(m, id, status) == m,
        with_status(m, id, status).dom() == m.dom(),
{
    assert(with_status(m, id, status).dom() =~= m.dom());
}

} // verus!
