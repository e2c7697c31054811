# nanwei_api_rust

A transport on QUIC connections (by quiche) behind an interface that looks like
that of sockets. The library is verified with Verus.

- `src/` is the library: how a server routes datagrams and validates addresses,
  how responses wait for their streams, how the loops of servers and clients go
  on, what descriptors stand for, and what the functions of the C interface
  decide and report.
- `app/` is what surrounds it: the C interface itself, sockets, threads and a
  program that runs a server with many clients.
- `tests/` are the tests of the library.

What the library takes from quiche, ring and std without proof stands in items
whose comments begin with "Trusted". The answers of a connection are functions
of its state; they have names in `src/quic.rs`, and the contracts of the
functions that use a connection are stated over these names.
