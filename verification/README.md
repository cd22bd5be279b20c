# speer

Safe Rust API for the speer peer-to-peer library, in two parts.

- `src/` is the verified library (Verus): status codes and their errors and
  messages, event and disconnect codes, the default host configuration, the
  C strings handed to libspeer, and the handling of public keys (copying,
  hexadecimal text, reading a C string out of key bytes).
- `app/` holds the handles (`Host`, `Peer`, `Stream`, `Event`, ...) that
  call libspeer through `speer-sys`; each decision they make is a call into
  the library.
- `tests/` runs the library on concrete values.
