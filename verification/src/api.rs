//! The descriptors that stand for sockets, clients and servers.
//!
//! They look like the descriptors of the system but are numbers of this library
//! only.
use std::collections::HashMap;

use libc::c_int;
use vstd::prelude::*;

verus! {

broadcast use vstd::std_specs::hash::group_hash_axioms;

/// Everything that descriptors stand for.
///
/// The type parameters are handles to sockets, clients, servers, the streams and
/// wakers of servers, and threads.
pub struct DtpApi<S, C, V, M, W, H> {
    /// The socket of each descriptor; `None` until it has one.
    pub sock_map: HashMap<c_int, Option<S>>,
    /// The clients that are connected.
    pub client_map: HashMap<c_int, C>,
    /// The servers that are bound and do not run yet.
    pub server_map: HashMap<c_int, V>,
    /// The threads that run servers.
    pub server_handles: HashMap<c_int, H>,
    /// The threads that run clients.
    pub client_handles: HashMap<c_int, H>,
    /// The streams of the servers that run.
    pub server_shared_map: HashMap<c_int, M>,
    /// The wakers of the servers that run.
    pub server_waker_map: HashMap<c_int, W>,
    /// The number of the next descriptor.
    pub next_fd: c_int,
}

/// Every descriptor in `m` was handed out, the next one being `next`.
pub open spec fn handed_out<T>(m: Map<c_int, T>, next: int) -> bool {
    forall|fd: c_int| #[trigger] m.contains_key(fd) ==> 0 < fd < next
}

/// Every descriptor in `used` is open.
pub open spec fn all_open<S, T>(used: Map<c_int, T>, socks: Map<c_int, Option<S>>) -> bool {
    forall|fd: c_int| #[trigger] used.contains_key(fd) ==> socks.contains_key(fd)
}

impl<S, C, V, M, W, H> DtpApi<S, C, V, M, W, H> {
    /// Descriptors are above zero, the open ones were handed out, and those of
    /// connected clients and of bound servers are open.
    pub open spec fn wf(&self) -> bool {
        &&& 0 < self.next_fd
        &&& handed_out(self.sock_map@, self.next_fd as int)
        &&& all_open(self.client_map@, self.sock_map@)
        &&& all_open(self.server_map@, self.sock_map@)
    }

    /// What threads run, and what belongs to running servers, is the same in
    /// both.
    pub open spec fn same_running(&self, other: &Self) -> bool {
        &&& self.server_handles@ == other.server_handles@
        &&& self.client_handles@ == other.client_handles@
        &&& self.server_shared_map@ == other.server_shared_map@
        &&& self.server_waker_map@ == other.server_waker_map@
    }

    /// Both hold the same.
    pub open spec fn same(&self, other: &Self) -> bool {
        &&& self.sock_map@ == other.sock_map@
        &&& self.client_map@ == other.client_map@
        &&& self.server_map@ == other.server_map@
        &&& self.next_fd == other.next_fd
        &&& self.same_running(other)
    }

    /// No descriptors.
    pub fn new() -> (api: Self)
        ensures
            api.wf(),
            api.next_fd == 1,
            api.sock_map@ == Map::<c_int, Option<S>>::empty(),
            api.client_map@ == Map::<c_int, C>::empty(),
            api.server_map@ == Map::<c_int, V>::empty(),
            api.server_handles@ == Map::<c_int, H>::empty(),
            api.client_handles@ == Map::<c_int, H>::empty(),
            api.server_shared_map@ == Map::<c_int, M>::empty(),
            api.server_waker_map@ == Map::<c_int, W>::empty(),
    {
        DtpApi {
            sock_map: HashMap::new(),
            client_map: HashMap::new(),
            server_map: HashMap::new(),
            server_handles: HashMap::new(),
            client_handles: HashMap::new(),
            server_shared_map: HashMap::new(),
            server_waker_map: HashMap::new(),
            next_fd: 1,
        }
    }

    /// Opens a new descriptor, which has no socket yet; -1 if there are no more.
    pub fn create_udp_fd(&mut self) -> (fd: c_int)
        requires
            old(self).wf(),
        ensures
            final(self).wf(),
            if old(self).next_fd == c_int::MAX {
                fd == -1 && final(self).same(old(self))
            } else {
                &&& fd == old(self).next_fd
                &&& fd > 0
                &&& !old(self).sock_map@.contains_key(fd)
                &&& final(self).next_fd == old(self).next_fd + 1
                &&& final(self).sock_map@ == old(self).sock_map@.insert(fd, None)
                &&& final(self).client_map@ == old(self).client_map@
                &&& final(self).server_map@ == old(self).server_map@
                &&& final(self).same_running(old(self))
            },
    {
        if self.next_fd == c_int::MAX {
            return -1;
        }
        let fd: c_int = self.next_fd;
        self.sock_map.insert(fd, None);
        self.next_fd = self.next_fd + 1;
        fd
    }

    /// Whether a server is bound to a descriptor and does not run yet.
    pub fn has_server(&self, sock: c_int) -> (found: bool)
        ensures
            found == self.server_map@.contains_key(sock),
    {
        self.server_map.get(&sock).is_some()
    }

    /// Whether a client is connected by a descriptor.
    pub fn has_client(&self, sock: c_int) -> (found: bool)
        ensures
            found == self.client_map@.contains_key(sock),
    {
        self.client_map.get(&sock).is_some()
    }

    /// Whether a descriptor is open and has a socket.
    pub fn has_sock(&self, sock: c_int) -> (found: bool)
        ensures
            found == (self.sock_map@.contains_key(sock) && self.sock_map@[sock] is Some),
    {
        match self.sock_map.get(&sock) {
            Some(socket) => socket.is_some(),
            None => false,
        }
    }

    /// Whether a descriptor is open.
    pub fn has_sock_entry(&self, sock: c_int) -> (found: bool)
        ensures
            found == self.sock_map@.contains_key(sock),
    {
        self.sock_map.get(&sock).is_some()
    }

    /// A descriptor may be closed: it is open, and neither a client nor a bound
    /// server uses it.
    pub open spec fn closable(&self, sock: c_int) -> bool {
        &&& self.sock_map@.contains_key(sock)
        &&& !self.client_map@.contains_key(sock)
        &&& !self.server_map@.contains_key(sock)
    }

    /// A server may be bound to a descriptor: it is open, and no server waits on
    /// it.
    pub open spec fn bindable(&self, sock: c_int) -> bool {
        self.sock_map@.contains_key(sock) && !self.server_map@.contains_key(sock)
    }

    /// A client may be connected by a descriptor: it is open, and no client is
    /// connected by it.
    pub open spec fn connectable(&self, sock: c_int) -> bool {
        self.sock_map@.contains_key(sock) && !self.client_map@.contains_key(sock)
    }
}

/// What may be done with a descriptor follows from what it stands for: an open
/// one may be closed if neither a client nor a bound server uses it, bound if no
/// server waits on it, and connected if no client is. One that is not open may be
/// used for nothing.
pub proof fn descriptors_are_used_by_what_they_stand_for<S, C, V, M, W, H>(
    api: DtpApi<S, C, V, M, W, H>,
    sock: c_int,
)
    ensures
        !api.sock_map@.contains_key(sock) ==> !api.closable(sock) && !api.bindable(sock)
            && !api.connectable(sock),
        api.sock_map@.contains_key(sock) ==> {
            let (client, server) = (
                api.client_map@.contains_key(sock),
                api.server_map@.contains_key(sock),
            );
            &&& api.closable(sock) <==> !client && !server
            &&& api.bindable(sock) <==> !server
            &&& api.connectable(sock) <==> !client
        },
{
}

/// Descriptors that are open were handed out: they are above zero and below the
/// next one. Clients and bound servers have open ones only.
pub proof fn open_descriptors_were_handed_out<S, C, V, M, W, H>(
    api: DtpApi<S, C, V, M, W, H>,
    sock: c_int,
)
    requires
        api.wf(),
    ensures
        0 < api.next_fd,
        api.sock_map@.contains_key(sock) ==> 0 < sock < api.next_fd,
        api.client_map@.contains_key(sock) ==> api.sock_map@.contains_key(sock),
        api.server_map@.contains_key(sock) ==> api.sock_map@.contains_key(sock),
{
}

/// Two that are the same agree on everything.
pub proof fn same_means_nothing_changed<S, C, V, M, W, H>(
    a: DtpApi<S, C, V, M, W, H>,
    b: DtpApi<S, C, V, M, W, H>,
)
    requires
        a.same(&b),
    ensures
        a.next_fd == b.next_fd,
        a.sock_map@ == b.sock_map@,
        a.client_map@ == b.client_map@,
        a.server_map@ == b.server_map@,
        a.same_running(&b),
        a.server_handles@ == b.server_handles@,
        a.client_handles@ == b.client_handles@,
        a.server_shared_map@ == b.server_shared_map@,
        a.server_waker_map@ == b.server_waker_map@,
{
}

/// Where what runs is the same, so are the threads, and the streams and wakers of
/// servers.
pub proof fn same_running_means_nothing_started_or_stopped<S, C, V, M, W, H>(
    a: DtpApi<S, C, V, M, W, H>,
    b: DtpApi<S, C, V, M, W, H>,
)
    requires
        a.same_running(&b),
    ensures
        a.server_handles@ == b.server_handles@,
        a.client_handles@ == b.client_handles@,
        a.server_shared_map@ == b.server_shared_map@,
        a.server_waker_map@ == b.server_waker_map@,
{
}

} // verus!
