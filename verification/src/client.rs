//! How a client and a server name the ends of a connection, and how a client
//! receives.
use libc::c_int;
use quiche::{Connection, Error, RecvInfo};
use vstd::prelude::*;
use vstd::string::StringExecFns;

use crate::quic::{closed, recv_outcome, source_id};
use crate::text::{append_decimal, decimal};

verus! {

/// The stream on which a client sends its request.
pub const HTTP_REQ_STREAM_ID: u64 = 4;

/// The name by which a client knows its server.
pub const SERVER_NAME: &'static str = "server";

/// The text of a client's request.
pub open spec fn request_of(id: int) -> Seq<char> {
    "{\"apiType\": \"get\", \"client_id\": "@ + decimal(id) + "}"@
}

/// Composes the request of the client `id`, a JSON object.
pub fn client_req_str(id: i32) -> (text: String)
    ensures
        text@ == request_of(id as int),
{
    let mut text: String = String::from_str("{\"apiType\": \"get\", \"client_id\": ");
    append_decimal(&mut text, id);
    text.append("}");
    text
}

/// The text of the address `ip` with the port `port`.
pub open spec fn address_of(ip: Seq<char>, port: int) -> Seq<char> {
    ip + ":"@ + decimal(port)
}

/// Composes the text of an address.
pub fn address_text(ip: &str, port: i32) -> (text: String)
    ensures
        text@ == address_of(ip@, port as int),
{
    let mut text: String = String::from_str(ip);
    text.append(":");
    append_decimal(&mut text, port);
    text
}

/// The address that a client binds to: any address of the family of its peer,
/// any port. Not every system lets one socket serve both families.
pub fn bind_address(peer_is_ipv4: bool) -> (text: &'static str)
    ensures
        text@ == if peer_is_ipv4 {
            "0.0.0.0:0"@
        } else {
            "[::]:0"@
        },
{
    if peer_is_ipv4 {
        "0.0.0.0:0"
    } else {
        "[::]:0"
    }
}

/// A client: where it connects to, and the descriptor that stands for it.
#[derive(Debug)]
pub struct DtpClient {
    pub peer_addr: String,
    pub sockid: c_int,
}

impl DtpClient {
    /// A client that is to connect to the port `port` of `ip`.
    pub fn connect(ip: &str, port: i32, sockid: c_int) -> (client: DtpClient)
        ensures
            client.peer_addr@ == address_of(ip@, port as int),
            client.sockid == sockid,
    {
        DtpClient { peer_addr: address_text(ip, port), sockid }
    }
}

/// Hands a datagram to the connection of a client. Returns whether the connection
/// could process it.
pub fn client_receive(conn: &mut Connection, pkt: &mut [u8], info: RecvInfo) -> (processed: bool)
    ensures
        final(pkt)@.len() == old(pkt)@.len(),
        exists|answer: Result<usize, Error>| #[trigger]
            recv_outcome(*old(conn), old(pkt)@, info, *final(conn), answer) && processed == (answer
                is Ok),
        source_id(*final(conn)) == source_id(*old(conn)),
        old(pkt)@.len() == 0 ==> !processed && *final(conn) == *old(conn),
        closed(*old(conn)) && old(pkt)@.len() > 0 ==> processed && closed(*final(conn)),
{
    match conn.recv(pkt, info) {
        Ok(_) => true,
        Err(_) => false,
    }
}

/// A server: where it listens, the configuration that it runs with, and the
/// descriptor that stands for it. `G` is a handle to a configuration.
#[derive(Debug)]
pub struct DtpServer<G> {
    pub local_addr: String,
    pub config: Option<G>,
    pub sockid: Option<c_int>,
}

impl<G> DtpServer<G> {
    /// The server can run: it has a configuration.
    pub open spec fn runnable(&self) -> bool {
        self.config is Some
    }

    /// A server that listens on the port `port` of `ip` with a configuration.
    pub fn listen(ip: &str, port: i32, config: G) -> (server: Self)
        ensures
            server.runnable(),
            server.local_addr@ == address_of(ip@, port as int),
            server.config == Some(config),
            server.sockid is None,
    {
        DtpServer { local_addr: address_text(ip, port), config: Some(config), sockid: None }
    }

    /// A server for the descriptor `sockid`. It has no configuration yet, so it
    /// cannot run.
    pub fn bind(ip: &str, port: i32, sockid: c_int) -> (server: Self)
        ensures
            !server.runnable(),
            server.local_addr@ == address_of(ip@, port as int),
            server.config is None,
            server.sockid == Some(sockid),
    {
        DtpServer { local_addr: address_text(ip, port), config: None, sockid: Some(sockid) }
    }

    /// Gives the server a configuration, in place of the one it has if any.
    pub fn set_config(&mut self, config: G) -> (done: bool)
        ensures
            done,
            final(self).runnable(),
            final(self).config == Some(config),
            final(self).local_addr == old(self).local_addr,
            final(self).sockid == old(self).sockid,
    {
        self.config = Some(config);
        true
    }

    /// The configuration that the server runs with; `None` if it cannot run.
    pub fn run_config(&self) -> (config: Option<&G>)
        ensures
            match config {
                Some(g) => self.config == Some(*g),
                None => !self.runnable(),
            },
    {
        self.config.as_ref()
    }
}

/// An address is the name of the host, a colon and the port in decimal.
pub proof fn addresses_name_host_and_port(ip: Seq<char>, port: int)
    ensures
        address_of(ip, port).take(ip.len() as int) == ip,
        address_of(ip, port)[ip.len() as int] == ':',
        address_of(ip, port).skip(ip.len() as int + 1) == decimal(port),
{
    reveal_strlit(":");
    assert(address_of(ip, port).take(ip.len() as int) =~= ip);
    assert(address_of(ip, port).skip(ip.len() as int + 1) =~= decimal(port));
}

/// The requests of clients differ in the number alone, which stands in decimal
/// between a fixed beginning and a closing brace.
pub proof fn requests_differ_in_the_client(id: int)
    ensures
        ({
            let begin = "{\"apiType\": \"get\", \"client_id\": "@;
            &&& request_of(id).len() == begin.len() + decimal(id).len() + 1
            &&& request_of(id).take(begin.len() as int) == begin
            &&& request_of(id).subrange(
                begin.len() as int,
                begin.len() + decimal(id).len() as int,
            ) == decimal(id)
            &&& request_of(id).last() == '}'
        }),
{
    reveal_strlit("}");
    let begin = "{\"apiType\": \"get\", \"client_id\": "@;
    assert(request_of(id).take(begin.len() as int) =~= begin);
    assert(request_of(id).subrange(begin.len() as int, begin.len() + decimal(id).len() as int)
        =~= decimal(id));
}

} // verus!
