//! A transport on QUIC connections behind an interface that looks like that of
//! sockets.
//!
//! A server routes datagrams to its connections and lets clients in only after
//! they proved their address ([`server`], [`packet`], [`token`], [`conn_id`]);
//! its users accept connections and give them up ([`status`], [`id_table`]);
//! responses wait until their streams take them ([`responses`]). The loops of
//! servers and clients are machines ([`event_loop`]). Descriptors stand for
//! sockets, servers and clients ([`api`], [`client`], [`config`]), and the
//! functions of the C interface decide and report ([`ffi`], [`error`]).
pub mod api;
pub mod bytes;
pub mod client;
pub mod config;
pub mod conn_id;
pub mod error;
pub mod event_loop;
pub mod ffi;
pub mod id_table;
pub mod message;
pub mod packet;
pub mod quic;
pub mod responses;
pub mod server;
pub mod status;
pub mod text;
pub mod token;
