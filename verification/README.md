# wasi_host

The decisions behind a WASI host, written in Rust and verified with Verus: what
a descriptor, a socket, a stream or a TLS connection may do in the state it is
in, what the operating system is asked, and what the guest is told of the
answer.

- `src/` is the verified library. It performs no I/O. An operation that needs
  the outside returns a description of what to do, and a second function takes
  the plain result and finishes the operation.
  - `errno`, `error`, `buffer`, `table`: error numbers, stream errors, bytes and
    the resource table, with what is relied on of `rustix`, `bytes` and
    `wasmtime`.
  - `filesystem`: permissions, opening, times, directory listings and the
    streams over files, with what is relied on of `SystemTime`.
  - `streams`: reading and writing through background tasks, shared streams, and
    readers and writers over a guest's streams.
  - `sockets`: addresses, errors, the states of TCP and UDP sockets, name lookup,
    and the guest's blocking operations.
  - `tls`: handshakes, connections and their writers, with what is relied on of
    `rustls`.
- `app/` carries out what the library decides, over `cap-std`, `rustix`, `tokio`
  and `tokio-rustls`.
- `tests/` runs the library on concrete values.

The public proof functions whose names begin with `law_` state what holds across
operations.
